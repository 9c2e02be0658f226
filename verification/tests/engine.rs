use weasel::client_session::{Effect, InputModeIndicatorPolicy};
use weasel::engine::{CallKind, Engine, MessageStep, PendingCall, Request, RimeCall};
use weasel::message::{
    Candidate, ContextAction, ContextCommand, ContextToken, FailureCode, KeyEvent,
    KeyEventResponse, LayoutUpdate, ModeIndicatorReason, RenderRect, RenderSnapshot,
    RendererEvent, RendererEventAction,
};

fn token(context_id: u64, generation: u64) -> ContextToken {
    ContextToken {
        context_id,
        connection_epoch: 9,
        generation,
    }
}

fn engine() -> Engine {
    Engine::new(None, InputModeIndicatorPolicy::SwitchOnly)
}

fn open(engine: &mut Engine, connection: u64, context: u64, inline: Option<bool>) {
    let request = Request::OpenInput(Some(token(context, 1)));
    let MessageStep::Open(pending) = engine.message(connection, true, 1, request) else {
        panic!("a new context is opened");
    };
    let effects = engine.opened(pending, true, None, inline);
    assert_eq!(
        effects,
        [Effect::InputOpened {
            connection_id: connection,
            request_id: 1,
            token: Some(token(context, 1)),
        }]
    );
}

fn key(context: u64, generation: u64) -> KeyEvent {
    KeyEvent {
        token: Some(token(context, generation)),
        keycode: Some(97),
        ..Default::default()
    }
}

fn command(context: u64, action: ContextAction) -> Request {
    Request::Command(ContextCommand {
        token: Some(token(context, 1)),
        action,
        ascii_mode: None,
    })
}

fn call(step: MessageStep) -> PendingCall {
    match step {
        MessageStep::Call(pending) => pending,
        other => panic!("{other:?}"),
    }
}

fn refusal(step: MessageStep) -> (FailureCode, String) {
    match step {
        MessageStep::Done(mut effects) if effects.len() == 1 => match effects.remove(0) {
            Effect::Failure { code, message, .. } => (code, message),
            other => panic!("{other:?}"),
        },
        other => panic!("{other:?}"),
    }
}

fn composing() -> KeyEventResponse {
    KeyEventResponse {
        eaten: true,
        composing: true,
        state_updated: true,
        composition: "ni".into(),
        composition_cursor: 2,
        candidates: vec![Candidate {
            text: "你".into(),
            comment: String::new(),
        }],
        ..Default::default()
    }
}

fn place(left: i32) -> RenderRect {
    RenderRect {
        left,
        top: 20,
        right: left + 1,
        bottom: 40,
        valid: true,
    }
}

fn layout(revision: u64, left: i32) -> LayoutUpdate {
    LayoutUpdate {
        token: Some(token(1, 1)),
        revision: Some(revision),
        anchor: Some(place(left)),
        mode_indicator_request_id: None,
    }
}

fn frames(effects: &[Effect]) -> Vec<&RenderSnapshot> {
    effects
        .iter()
        .filter_map(|effect| match effect {
            Effect::Publish(frame) => Some(frame),
            _ => None,
        })
        .collect()
}

#[test]
fn requests_need_a_token_and_an_opened_context() {
    let mut engine = engine();
    assert_eq!(
        refusal(engine.message(1, true, 2, Request::Key(KeyEvent::default()))),
        (FailureCode::InvalidArgument, "input token required".into())
    );
    assert_eq!(
        refusal(engine.message(1, true, 2, Request::Key(key(1, 1)))),
        (
            FailureCode::InvalidArgument,
            "OpenInput required before input".into()
        )
    );
    open(&mut engine, 1, 1, None);
    assert_eq!(
        engine.message(1, true, 3, Request::OpenInput(Some(token(1, 1)))),
        MessageStep::Done(vec![Effect::InputOpened {
            connection_id: 1,
            request_id: 3,
            token: Some(token(1, 1)),
        }])
    );
    assert_eq!(
        refusal(engine.message(1, true, 4, Request::OpenInput(Some(token(1, 2))))).1,
        "input already opened; use context commands"
    );
    assert_eq!(
        engine.message(1, false, 5, Request::Key(key(1, 1))),
        MessageStep::Done(vec![])
    );
    assert_eq!(
        engine.message(1, true, 6, Request::Other),
        MessageStep::Done(vec![Effect::Failure {
            connection_id: 1,
            request_id: 6,
            code: FailureCode::InvalidArgument,
            message: "input token required".into(),
        }])
    );
}

#[test]
fn a_connection_opens_only_so_many_contexts() {
    let mut engine = engine();
    for context in 1..=32 {
        open(&mut engine, 1, context, None);
    }
    assert_eq!(
        refusal(engine.message(1, true, 1, Request::OpenInput(Some(token(33, 1))))).1,
        "too many input contexts"
    );
    open(&mut engine, 2, 33, None);
}

#[test]
fn a_session_that_librime_refuses_is_not_opened() {
    let mut engine = engine();
    let request = Request::OpenInput(Some(token(1, 1)));
    let MessageStep::Open(pending) = engine.message(1, true, 1, request) else {
        panic!("a new context is opened");
    };
    assert_eq!(
        engine.opened(pending, false, None, None),
        [Effect::Failure {
            connection_id: 1,
            request_id: 1,
            code: FailureCode::Internal,
            message: "session creation failed".into(),
        }]
    );
    assert!(matches!(
        engine.message(1, true, 2, request),
        MessageStep::Open(_)
    ));
}

#[test]
fn a_new_session_takes_the_shared_mode_before_its_applications() {
    let request = Request::OpenInput(Some(token(1, 1)));
    for (settings, app, expected) in [
        (Some((Some(true), Some(true), None)), Some(false), Some(true)),
        (Some((Some(true), None, None)), Some(true), Some(false)),
        (Some((Some(false), Some(true), None)), Some(true), Some(true)),
        (None, None, None),
    ] {
        let mut engine = Engine::new(settings, InputModeIndicatorPolicy::Never);
        let MessageStep::Open(pending) = engine.message(1, true, 1, request) else {
            panic!("a new context is opened");
        };
        let effects = engine.opened(pending, true, app, None);
        let set = effects.iter().find_map(|effect| match effect {
            Effect::SetAsciiMode { ascii_mode, .. } => Some(*ascii_mode),
            _ => None,
        });
        assert_eq!(set, expected);
    }
}

#[test]
fn a_key_of_an_older_generation_is_stale() {
    let mut engine = engine();
    open(&mut engine, 1, 1, None);
    let pending = call(engine.message(1, true, 2, Request::Key(key(1, 3))));
    assert_eq!(pending.calls, [RimeCall::ProcessKey(key(1, 3))]);
    assert_eq!(
        pending.kind,
        CallKind::Key {
            focus_changed: true
        }
    );
    engine.finish(pending, KeyEventResponse::default(), true, 0);
    assert_eq!(
        refusal(engine.message(1, true, 3, Request::Key(key(1, 2)))),
        (
            FailureCode::StaleContext,
            "stale or mismatched key context".into()
        )
    );
}

#[test]
fn a_composition_is_shown_at_the_place_of_its_own() {
    let mut engine = engine();
    open(&mut engine, 1, 1, Some(false));
    let pending = call(engine.message(1, true, 2, Request::Key(key(1, 1))));
    let effects = engine.finish(pending, composing(), true, 0);
    // The host keeps composing, and sees no text of it.
    let Effect::Reply { response, .. } = &effects[0] else {
        panic!("a key is answered");
    };
    assert!(response.external_preedit && response.composing && response.composition.is_empty());
    assert_eq!(response.revision, 1);
    assert_eq!(response.allow_rime_in_secure_fields, Some(false));
    let shown = frames(&effects);
    assert_eq!(shown.len(), 1);
    assert!(!shown[0].visible && shown[0].active && shown[0].items.is_empty());
    assert_eq!(engine.layout_wanted(), Some((1, Some(token(1, 1)))));
    // A layout of an older state does not place it.
    let effects = engine.idle(Some(layout(0, 10)), true, 1);
    assert!(frames(&effects).is_empty());
    let effects = engine.idle(Some(layout(1, 10)), true, 2);
    let shown = frames(&effects);
    assert_eq!(shown.len(), 1);
    assert!(shown[0].visible);
    assert_eq!(shown[0].anchor, Some(place(10)));
    assert_eq!(shown[0].items[0].primary_text, "你");
    assert_eq!(shown[0].preedit.as_ref().unwrap().text, "ni");
}

#[test]
fn a_lost_renderer_gives_the_composition_back() {
    let mut engine = engine();
    open(&mut engine, 1, 1, Some(false));
    let pending = call(engine.message(1, true, 2, Request::Key(key(1, 1))));
    engine.finish(pending, composing(), true, 0);
    let effects = engine.idle(None, false, 1);
    let Effect::Reply {
        connection_id,
        request_id,
        response,
    } = &effects[0]
    else {
        panic!("the host is told");
    };
    assert_eq!((*connection_id, *request_id), (1, 0));
    assert_eq!(response.composition, "ni");
    assert!(!response.external_preedit && response.state_updated && !response.eaten);
    // Once is enough.
    assert!(!engine
        .idle(None, false, 2)
        .iter()
        .any(|effect| matches!(effect, Effect::Reply { .. })));
}

#[test]
fn a_click_counts_once() {
    let mut engine = engine();
    open(&mut engine, 1, 1, None);
    let pending = call(engine.message(1, true, 2, Request::Key(key(1, 1))));
    engine.finish(pending, composing(), true, 0);
    let event = RendererEvent {
        session_id: 1,
        token: Some(token(1, 1)),
        revision: 1,
        action: RendererEventAction::ItemInvoked,
        item_index: 0,
    };
    assert!(engine
        .renderer_event(RendererEvent {
            revision: 0,
            ..event
        })
        .is_none());
    let pending = engine.renderer_event(event).unwrap();
    assert_eq!(pending.calls, [RimeCall::RendererEvent(event)]);
    let answer = KeyEventResponse {
        commit_text: "你".into(),
        state_updated: true,
        ..Default::default()
    };
    let effects = engine.finish(pending, answer, true, 0);
    assert!(matches!(
        &effects[0],
        Effect::Reply { connection_id: 1, request_id: 0, response } if response.commit_text == "你"
    ));
    assert!(engine.renderer_event(event).is_none());
}

#[test]
fn a_switched_mode_is_shown_once_and_in_time() {
    let mut engine = engine();
    open(&mut engine, 1, 1, None);
    let focus = call(engine.message(1, true, 2, command(1, ContextAction::Focus)));
    let chinese = KeyEventResponse {
        ascii_mode: Some(false),
        state_updated: true,
        ..Default::default()
    };
    engine.finish(focus, chinese, true, 0);
    let toggle = call(engine.message(1, true, 3, command(1, ContextAction::ToggleAscii)));
    let english = KeyEventResponse {
        ascii_mode: Some(true),
        state_updated: true,
        ..Default::default()
    };
    let effects = engine.finish(toggle, english, true, 100);
    let Effect::Reply { response, .. } = &effects[0] else {
        panic!("a command is answered");
    };
    let id = response.mode_indicator_request_id.unwrap();
    let answer = LayoutUpdate {
        mode_indicator_request_id: Some(id),
        ..layout(2, 30)
    };
    let effects = engine.idle(Some(answer), true, 899);
    let indicator = frames(&effects)[0].mode_indicator.unwrap();
    assert_eq!(
        (indicator.id, indicator.ascii_mode, indicator.reason),
        (id, true, ModeIndicatorReason::UserSwitch)
    );
    assert!(frames(&engine.idle(Some(answer), true, 899)).is_empty());
}

#[test]
fn a_late_place_shows_no_mode() {
    let mut engine = engine();
    open(&mut engine, 1, 1, None);
    let mode = |ascii_mode| KeyEventResponse {
        ascii_mode: Some(ascii_mode),
        ..Default::default()
    };
    let first = call(engine.message(1, true, 2, Request::Key(key(1, 1))));
    engine.finish(first, mode(false), true, 0);
    let second = call(engine.message(1, true, 3, Request::Key(key(1, 1))));
    let effects = engine.finish(second, mode(true), true, 100);
    let Effect::Reply { response, .. } = &effects[0] else {
        panic!("a key is answered");
    };
    let answer = LayoutUpdate {
        mode_indicator_request_id: response.mode_indicator_request_id,
        ..layout(2, 30)
    };
    assert!(answer.mode_indicator_request_id.is_some());
    assert!(frames(&engine.idle(Some(answer), true, 900)).is_empty());
}

#[test]
fn the_shared_mode_follows_a_key_and_goes_to_the_next_session() {
    let mut engine = Engine::new(
        Some((Some(true), Some(false), None)),
        InputModeIndicatorPolicy::Never,
    );
    let request = Request::OpenInput(Some(token(1, 1)));
    let MessageStep::Open(pending) = engine.message(1, true, 1, request) else {
        panic!("a new context is opened");
    };
    engine.opened(pending, true, None, None);
    let pending = call(engine.message(1, true, 2, Request::Key(key(1, 1))));
    assert_eq!(
        pending.calls,
        [
            RimeCall::SetAsciiMode(false),
            RimeCall::ProcessKey(key(1, 1))
        ]
    );
    let answer = KeyEventResponse {
        ascii_mode: Some(true),
        ..Default::default()
    };
    engine.finish(pending, answer, true, 0);
    let pending = call(engine.message(1, true, 3, Request::Key(key(1, 1))));
    assert_eq!(pending.calls[0], RimeCall::SetAsciiMode(true));
}

#[test]
fn commands_are_checked_before_librime_is_asked() {
    let mut engine = engine();
    open(&mut engine, 1, 1, None);
    assert_eq!(
        refusal(engine.message(1, true, 2, command(1, ContextAction::Unspecified))),
        (
            FailureCode::InvalidArgument,
            "unknown context action".into()
        )
    );
    assert_eq!(
        refusal(engine.message(1, true, 3, command(1, ContextAction::SetAscii))).1,
        "SetAscii requires ascii_mode"
    );
    let mut stale = ContextCommand {
        token: Some(token(1, 1)),
        action: ContextAction::Cancel,
        ascii_mode: None,
    };
    stale.token = Some(ContextToken {
        connection_epoch: 8,
        ..token(1, 1)
    });
    assert_eq!(
        refusal(engine.message(1, true, 4, Request::Command(stale))),
        (
            FailureCode::StaleContext,
            "stale or mismatched command context".into()
        )
    );
}

#[test]
fn a_destroyed_context_is_closed_and_leaves_the_screen() {
    let mut engine = engine();
    open(&mut engine, 1, 1, None);
    let pending = call(engine.message(1, true, 2, Request::Key(key(1, 1))));
    engine.finish(pending, composing(), true, 0);
    let MessageStep::Done(effects) = engine.message(1, true, 3, command(1, ContextAction::Destroy))
    else {
        panic!("nothing is asked of librime");
    };
    assert_eq!(effects.len(), 5);
    assert!(matches!(effects[0], Effect::Reply { request_id: 3, .. }));
    assert!(matches!(&effects[1], Effect::Publish(frame) if !frame.active && frame.session_id == 1));
    assert_eq!(effects[2], Effect::DropSession(1));
    assert_eq!(
        effects[3],
        Effect::ForgetLayout {
            connection_id: 1,
            context_id: 1
        }
    );
    assert_eq!(
        effects[4],
        Effect::SetInputState {
            connection_id: 1,
            focused: false,
            composing: false
        }
    );
    assert_eq!(
        refusal(engine.message(1, true, 4, Request::Key(key(1, 1)))).1,
        "OpenInput required before input"
    );
    assert_eq!(engine.layout_wanted(), None);
}

#[test]
fn sessions_of_a_lost_connection_end() {
    let mut engine = engine();
    open(&mut engine, 1, 1, None);
    open(&mut engine, 2, 1, None);
    let pending = call(engine.message(1, true, 2, Request::Key(key(1, 1))));
    engine.finish(pending, composing(), true, 0);
    engine.connection_closed(1);
    let effects = engine.idle(None, true, 1);
    assert_eq!(effects[0], Effect::DropSession(1));
    assert_eq!(
        effects[1],
        Effect::SetInputState {
            connection_id: 2,
            focused: false,
            composing: false
        }
    );
    assert!(matches!(&effects[2], Effect::Publish(frame) if !frame.active && !frame.visible));
    assert_eq!(effects.len(), 3);
}
