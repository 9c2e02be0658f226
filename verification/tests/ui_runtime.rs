use weasel::message::{
    ModeIndicator, ModeIndicatorReason, RenderItem, RenderPreedit, RenderRect, RenderSnapshot,
};
use weasel::state::Mailbox;
use weasel::theme_adapter::events;
use weasel::theme_api::{ThemeCapabilities, UiAction};
use weasel::ui_runtime::{
    close_result, has_renderer_defaults, is_owner, is_thread_message, join_ui_thread, leave_loop, loop_actions, message_plan, normalized_renderer_settings, preview_frame, send, start_attempt, theme_candidates, theme_file, turn_begins, woken, AttemptError, Handshake, LoopAction, MessagePlan, Presentation, Selection, SelectionStep, Shown, UiCommand, UiMessage, WM_RENDERER_QUIT, WM_RENDERER_THEME, WM_RENDERER_UPDATE, WM_SETTINGCHANGE, WM_TIMER,
};

#[test]
fn backend_window_messages_do_not_collide_with_runtime_wakes() {
    let mut message = UiMessage {
        to_window: false,
        kind: WM_RENDERER_QUIT,
        parameter: 0,
    };
    assert!(is_thread_message(&message, WM_RENDERER_QUIT));
    message.to_window = true;
    assert!(!is_thread_message(&message, WM_RENDERER_QUIT));
}

/// Makes the attempts that a selection asks for.
fn select_first<T>(
    names: &[&'static str],
    mut attempt: impl FnMut(&'static str) -> Result<T, AttemptError>,
) -> Result<T, String> {
    let mut selection = Selection::new(names.iter().map(|name| name.to_string()).collect());
    let mut step = selection.candidate();
    let mut started = None;
    loop {
        match step {
            SelectionStep::Try(index) => {
                let outcome = attempt(names[index]).map(|value| started = Some(value));
                step = selection.attempted(outcome).0;
            }
            SelectionStep::Selected(_) => return Ok(started.unwrap()),
            SelectionStep::End(error) => return Err(error),
        }
    }
}

const CANDIDATES: [&str; 2] = ["eleven", "ten"];

#[test]
fn first_success_stops_registration_and_failure_falls_back() {
    let mut attempted = Vec::new();
    let selected = select_first(&CANDIDATES, |name| {
        attempted.push(name);
        Ok(name)
    })
    .unwrap();
    assert_eq!(selected, "eleven");
    assert_eq!(attempted, ["eleven"]);

    attempted.clear();
    let selected = select_first(&CANDIDATES, |name| {
        attempted.push(name);
        if name == "eleven" {
            Err(AttemptError::Failed("unavailable".into()))
        } else {
            Ok(name)
        }
    })
    .unwrap();
    assert_eq!(selected, "ten");
    assert_eq!(attempted, ["eleven", "ten"]);
}

#[test]
fn failures_are_aggregated_but_fatal_timeout_stops_fallback() {
    let error = select_first::<()>(&CANDIDATES, |name| {
        Err(AttemptError::Failed(format!("{} failed", name)))
    })
    .unwrap_err();
    assert!(error.contains("eleven failed") && error.contains("ten failed"));
    let mut attempts = 0;
    assert!(select_first::<()>(&CANDIDATES, |_| {
        attempts += 1;
        Err(AttemptError::Fatal("initialization timeout".into()))
    })
    .is_err());
    assert_eq!(attempts, 1);
}

#[test]
fn exhausted_themes_are_reported_in_order() {
    let error = select_first::<()>(&CANDIDATES, |name| {
        Err(AttemptError::Failed(format!("no {name}")))
    })
    .unwrap_err();
    assert_eq!(
        error,
        "no renderer theme could initialize: eleven: no eleven; ten: no ten"
    );
    let fatal = select_first::<()>(&CANDIDATES, |_| Err(AttemptError::Fatal("stuck".into())));
    assert_eq!(fatal.unwrap_err(), "theme eleven startup aborted: stuck");
}

#[test]
fn without_a_candidate_no_theme_is_tried() {
    let mut attempts = 0;
    let error = select_first::<()>(&[], |_| {
        attempts += 1;
        Ok(())
    });
    assert_eq!(error.unwrap_err(), "no renderer theme could initialize: ");
    assert_eq!(attempts, 0);
}

#[test]
fn the_user_is_told_of_each_theme_that_failed() {
    let mut selection = Selection::new(theme_candidates("abc"));
    assert_eq!(selection.candidate(), SelectionStep::Try(0));
    let (step, notice) = selection.attempted(Err(AttemptError::Failed("no device".into())));
    assert_eq!(step, SelectionStep::Try(1));
    let notice = notice.unwrap();
    assert_eq!(notice.code, "theme.unavailable");
    assert_eq!(notice.details, "theme=abc: theme abc unavailable: no device");
    assert_eq!(selection.failures, ["abc: no device"]);
    let (step, notice) = selection.attempted(Ok(()));
    assert_eq!(step, SelectionStep::Selected(1));
    assert!(notice.is_none());
}

#[test]
fn the_thread_leaves_its_loop_once_the_mailbox_is_closed() {
    let mut mailbox = Mailbox::default();
    assert_eq!(turn_begins(&mailbox), None);
    mailbox.seal();
    assert_eq!(turn_begins(&mailbox), Some(MessagePlan::Quit));
    let mut mailbox = Mailbox::default();
    mailbox.close();
    assert_eq!(turn_begins(&mailbox), Some(MessagePlan::Quit));
}

/// Applies a frame, and adds the content that is rendered to a list.
fn apply(ui: &mut Presentation, owner: u64, snapshot: Option<RenderSnapshot>, rendered: &mut Vec<u64>) {
    let applied = ui.apply(owner, snapshot, 1000);
    match applied.shown.unwrap() {
        Shown::Render(view, _) => rendered.push(view.content_id),
        Shown::Conceal => {}
    }
    ui.remember(applied.frame);
}

fn refresh(ui: &Presentation, owner: u64, rendered: &mut Vec<u64>) {
    if let Some(Shown::Render(view, _)) = ui.refresh(Some(owner)) {
        rendered.push(view.content_id);
    }
}

#[test]
fn presentation_never_shows_invalid_anchor_or_refreshes_old_owner() {
    let mut rendered = Vec::new();
    let mut ui = Presentation::new(ThemeCapabilities::candidates_only(), 800);
    let mut snapshot = RenderSnapshot {
        sequence: 1,
        visible: true,
        items: vec![Default::default()],
        ..Default::default()
    };
    apply(&mut ui, 1, Some(snapshot.clone()), &mut rendered);
    assert!(rendered.is_empty());
    snapshot.anchor = Some(RenderRect {
        valid: true,
        ..Default::default()
    });
    apply(&mut ui, 1, Some(snapshot), &mut rendered);
    refresh(&ui, 2, &mut rendered);
    assert_eq!(rendered, [1]);
    refresh(&ui, 1, &mut rendered);
    assert_eq!(rendered, [1, 1]);
    apply(&mut ui, 1, None, &mut rendered);
    refresh(&ui, 1, &mut rendered);
    assert_eq!(rendered, [1, 1]);
}

fn indicator_snapshot() -> RenderSnapshot {
    RenderSnapshot {
        sequence: 1,
        active: true,
        anchor: Some(RenderRect {
            valid: true,
            bottom: 1,
            ..Default::default()
        }),
        mode_indicator: Some(ModeIndicator {
            id: 1,
            ascii_mode: true,
            reason: ModeIndicatorReason::UserSwitch,
        }),
        ..Default::default()
    }
}

fn with_indicator() -> ThemeCapabilities {
    ThemeCapabilities {
        mode_indicator: true,
        ..ThemeCapabilities::candidates_only()
    }
}

#[test]
fn mode_indicator_keeps_its_deadline_and_yields_to_candidates() {
    let mut rendered = Vec::new();
    let mut ui = Presentation::new(with_indicator(), 800);
    let mut snapshot = indicator_snapshot();
    apply(&mut ui, 1, Some(snapshot.clone()), &mut rendered);
    let deadline = ui.indicator_deadline().unwrap();

    snapshot.sequence += 1;
    apply(&mut ui, 1, Some(snapshot.clone()), &mut rendered);
    assert_eq!(ui.indicator_deadline(), Some(deadline));

    snapshot.sequence += 1;
    snapshot.visible = true;
    snapshot.items.push(RenderItem::default());
    apply(&mut ui, 1, Some(snapshot), &mut rendered);
    assert!(ui.indicator_deadline().is_none());
    assert!(ui.last.as_ref().unwrap().mode_indicator.is_none());
}

#[test]
fn an_indicator_goes_when_its_time_has_come() {
    let mut rendered = Vec::new();
    let mut ui = Presentation::new(with_indicator(), 800);
    apply(&mut ui, 1, Some(indicator_snapshot()), &mut rendered);
    assert_eq!(rendered, [1]);
    assert_eq!(ui.indicator_deadline(), Some(1800));
    assert_eq!(ui.timer_delay(1000), Some(800));
    assert_eq!(ui.timer_delay(1900), Some(1));
    assert!(matches!(ui.expire_indicator(1799), Ok(None)));
    match ui.expire_indicator(1800) {
        Ok(Some(Shown::Render(view, _))) => {
            assert_eq!(view.content_id, 2);
            assert!(view.mode_indicator.is_none());
        }
        _ => panic!("the indicator must go"),
    }
    assert_eq!(ui.indicator_deadline(), None);
    assert_eq!(ui.timer_delay(1800), None);
}

#[test]
fn without_a_timer_an_indicator_goes_at_once() {
    let mut rendered = Vec::new();
    let mut ui = Presentation::new(with_indicator(), 800);
    apply(&mut ui, 1, Some(indicator_snapshot()), &mut rendered);
    assert!(matches!(ui.timer_failed(1001), Ok(Some(Shown::Render(_, _)))));
    assert_eq!(ui.indicator_deadline(), None);
}

#[test]
fn presentation_identity_is_not_reused() {
    let mut ui = Presentation::new(ThemeCapabilities::candidates_only(), 800);
    ui.content_id = u64::MAX;
    let applied = ui.apply(1, Some(RenderSnapshot::default()), 0);
    assert!(matches!(applied.shown, Err(ref error) if error == "presentation identity exhausted"));
}

#[test]
fn a_thread_that_does_not_end_is_an_error() {
    assert!(join_ui_thread(false, false).is_err());
    assert!(join_ui_thread(true, false).is_ok());
    assert_eq!(join_ui_thread(true, true).unwrap_err(), "UI thread panicked");
}

#[test]
fn ui_runtime_event_callbacks_keep_their_owner_and_queue_is_bounded() {
    let (sender, mut receiver) = tokio::sync::mpsc::channel(2);
    let old_callback = events(1, &RenderSnapshot::default());
    let current = events(2, &RenderSnapshot::default());
    for sink in [&old_callback, &current, &current] {
        let _ = sender.try_send(sink.send(UiAction::OpenEmojiPanel).unwrap());
    }
    assert_eq!(receiver.try_recv().unwrap().0, 1);
    assert_eq!(receiver.try_recv().unwrap().0, 2);
    assert!(receiver.try_recv().is_err());
}

#[test]
fn ui_runtime_event_routing_rejects_superseded_and_disconnected_owners() {
    let mut mailbox = Mailbox::default();
    let snapshot = RenderSnapshot {
        visible: true,
        sequence: 1,
        ..Default::default()
    };
    mailbox.render(1, snapshot.clone());
    assert!(is_owner(&mailbox, 1));
    mailbox.render(2, snapshot);
    assert!(!is_owner(&mailbox, 1));
    assert!(is_owner(&mailbox, 2));
    mailbox.disconnect(2);
    assert!(!is_owner(&mailbox, 2));
}

#[test]
fn the_named_theme_is_tried_before_the_common_one() {
    assert_eq!(theme_candidates("wasm"), ["wasm", "ten"]);
    assert_eq!(theme_candidates("ten"), ["ten"]);
    assert_eq!(theme_candidates("unknown"), ["ten"]);
    assert_eq!(theme_file("abc"), "weasel_theme_abc.dll");
}

#[test]
fn commands_wake_the_thread_once_until_it_looks() {
    let mut mailbox = Mailbox::default();
    let frame = |sequence| RenderSnapshot {
        sequence,
        ..Default::default()
    };
    assert_eq!(
        send(&mut mailbox, UiCommand::Render(1, frame(1)), None),
        Ok(Some(WM_RENDERER_UPDATE))
    );
    assert_eq!(
        send(&mut mailbox, UiCommand::Render(1, frame(2)), None),
        Ok(None)
    );
    mailbox.take_pending();
    assert_eq!(
        send(&mut mailbox, UiCommand::Disconnect(1), None),
        Ok(Some(WM_RENDERER_UPDATE))
    );
    let mut bad = frame(3);
    bad.selected_index = 1;
    assert!(send(&mut mailbox, UiCommand::Render(2, bad), None).is_err());
    assert_eq!(
        send(&mut mailbox, UiCommand::Quit, None),
        Ok(Some(WM_RENDERER_QUIT))
    );
    assert!(woken(&mut mailbox, true).is_ok());
    assert_eq!(
        woken(&mut mailbox, false).unwrap_err(),
        "could not wake UI thread"
    );
}

#[test]
fn a_refused_preedit_never_reaches_the_mailbox() {
    let mut mailbox = Mailbox::default();
    let mut frame = RenderSnapshot {
        sequence: 1,
        ..Default::default()
    };
    frame.preedit = Some(RenderPreedit { text: "ni".into(), cursor_utf16: 3 });
    let refused = Some("invalid preedit cursor".to_owned());
    assert_eq!(
        send(
            &mut mailbox,
            UiCommand::Render(1, frame.clone()),
            refused.clone()
        ),
        Err("invalid preedit cursor".into())
    );
    assert!(mailbox.pending.is_none());
    assert_eq!(mailbox.owner, None);
    frame.preedit = None;
    assert_eq!(
        send(&mut mailbox, UiCommand::Render(1, frame), refused),
        Ok(Some(WM_RENDERER_UPDATE))
    );
}

#[test]
fn a_thread_that_failed_may_be_followed_by_another_theme() {
    assert_eq!(start_attempt(Handshake::Ready(7)), Ok(7));
    assert_eq!(
        start_attempt(Handshake::Failed {
            error: "no device".into(),
            joined: Ok(())
        }),
        Err(AttemptError::Failed("no device".into()))
    );
    assert_eq!(
        start_attempt(Handshake::Failed {
            error: "no device".into(),
            joined: Err("stuck".into())
        }),
        Err(AttemptError::Fatal("stuck".into()))
    );
    assert_eq!(
        start_attempt(Handshake::Silent("timed out".into())),
        Err(AttemptError::Fatal(
            "UI initialization did not complete: timed out".into()
        ))
    );
}

#[test]
fn closing_reports_the_thread_before_the_wake() {
    let error = |text: &str| Err::<(), String>(text.to_owned());
    assert_eq!(close_result(error("a"), Some(error("b")), error("c")), error("a"));
    assert_eq!(close_result(Ok(()), Some(error("b")), error("c")), error("b"));
    assert_eq!(close_result(Ok(()), Some(Ok(())), error("c")), error("c"));
    assert_eq!(close_result(Ok(()), None, Ok(())), Ok(()));
}

#[test]
fn messages_are_told_apart() {
    let thread = |kind, parameter| UiMessage {
        to_window: false,
        kind,
        parameter,
    };
    assert_eq!(
        message_plan(&thread(0, 0), -1, 5),
        MessagePlan::Fail("GetMessageW failed".to_owned())
    );
    assert_eq!(message_plan(&thread(0, 0), 0, 5), MessagePlan::Quit);
    assert_eq!(
        message_plan(&thread(WM_TIMER, 5), 1, 5),
        MessagePlan::Handle {
            expire: true,
            refresh: false,
            dispatch: false
        }
    );
    assert_eq!(
        message_plan(&thread(WM_RENDERER_THEME, 0), 1, 5),
        MessagePlan::Handle {
            expire: false,
            refresh: true,
            dispatch: false
        }
    );
    assert_eq!(
        message_plan(&thread(WM_SETTINGCHANGE, 0), 1, 5),
        MessagePlan::Handle {
            expire: false,
            refresh: true,
            dispatch: true
        }
    );
}

fn parse(text: &str) -> serde_json::Value {
    serde_json::from_str(text).unwrap()
}

#[test]
fn unusable_renderer_settings_are_replaced_one_by_one() {
    let defaults = parse(
        r#"{"inline_preedit": true, "themeSettings": {}, "input_mode_indicator_duration_ms": 800}"#,
    );
    assert!(has_renderer_defaults(&defaults));
    assert!(!has_renderer_defaults(&parse("{}")));
    let given = parse(
        r#"{"inline_preedit": 3, "themeSettings": {"abc": 1}, "input_mode_indicator_duration_ms": 99}"#,
    );
    let (settings, notice) = normalized_renderer_settings(given, &defaults);
    assert_eq!(settings["inline_preedit"], true);
    assert_eq!(settings["themeSettings"]["abc"], 1);
    assert_eq!(settings["input_mode_indicator_duration_ms"], 800);
    assert!(notice.is_some());
    // What was replaced once stays.
    let (again, notice) = normalized_renderer_settings(settings.clone(), &defaults);
    assert_eq!(again, settings);
    assert!(notice.is_none());
    let (settings, _) = normalized_renderer_settings(parse("[]"), &defaults);
    assert_eq!(settings, defaults);
}

#[test]
fn the_preview_shows_a_composition_where_the_theme_can() {
    let mut capabilities = ThemeCapabilities::candidates_only();
    assert!(preview_frame(false, capabilities).preedit.is_none());
    capabilities.preedit = true;
    let frame = preview_frame(false, capabilities);
    assert_eq!(frame.preedit.as_ref().unwrap().text, "nihao");
    assert_eq!(frame.preedit.as_ref().unwrap().cursor_utf16, 5);
    assert!(preview_frame(true, capabilities).preedit.is_none());
}

#[test]
fn what_waits_is_shown_first_and_the_theme_is_asked_last() {
    assert_eq!(
        loop_actions(true, true, true, true),
        [
            LoopAction::Apply,
            LoopAction::SyncTimer,
            LoopAction::Expire,
            LoopAction::SyncTimer,
            LoopAction::Refresh,
            LoopAction::Dispatch,
            LoopAction::CheckHealth,
            LoopAction::DrainNotices,
        ]
    );
    assert_eq!(
        loop_actions(false, false, false, false),
        [LoopAction::CheckHealth, LoopAction::DrainNotices]
    );
    assert_eq!(leave_loop(0), [LoopAction::Conceal, LoopAction::DrainNotices]);
    assert_eq!(leave_loop(7)[0], LoopAction::KillTimer);
}
