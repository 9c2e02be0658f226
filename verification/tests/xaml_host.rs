use weasel::geometry::Rect;
use weasel::message::{RenderItem, RenderRect, RenderSnapshot, RendererEvent};
use weasel::state::Mailbox;
use weasel::theme::{Color, OsVersion};
use weasel::ui_runtime::{WM_RENDERER_QUIT, WM_RENDERER_THEME, WM_RENDERER_UPDATE};
use weasel::xaml_host::{
    classify, goes_on, join_ui_thread, place, received, started, theme_failed, window_proc, woken, HostMessage,
    HostStep, Placement, Startup, WindowStep, XamlHost, WM_DPICHANGED, WM_SIZE,
};

fn frame(sequence: u64) -> RenderSnapshot {
    RenderSnapshot {
        sequence,
        visible: true,
        anchor: Some(RenderRect {
            valid: true,
            left: 10,
            bottom: 20,
            ..Default::default()
        }),
        items: vec![RenderItem {
            primary_text: "你".into(),
            enabled: true,
            ..Default::default()
        }],
        ..Default::default()
    }
}

const VERSION: OsVersion = OsVersion {
    major: 10,
    minor: 0,
    pack: 0,
    build: 22631,
};

#[test]
fn a_stuck_thread_is_an_error() {
    assert!(join_ui_thread(false, false).is_err());
    assert!(join_ui_thread(true, false).is_ok());
    assert_eq!(join_ui_thread(true, true).unwrap_err(), "XAML thread panicked");
}

#[test]
fn xaml_host_event_callbacks_keep_their_owner_and_queue_is_bounded() {
    let (sender, mut receiver) = tokio::sync::mpsc::channel(2);
    let mut current = (1u64, sender);
    let old_callback = current.clone();
    current.0 = 2;
    for callback in [&old_callback, &current, &current] {
        let _ = callback.1.try_send((callback.0, RendererEvent::default()));
    }
    assert_eq!(receiver.try_recv().unwrap().0, 1);
    assert_eq!(receiver.try_recv().unwrap().0, 2);
    assert!(receiver.try_recv().is_err());
}

#[test]
fn xaml_host_event_routing_rejects_superseded_and_disconnected_owners() {
    let mut mailbox = Mailbox::default();
    let snapshot = RenderSnapshot {
        visible: true,
        sequence: 1,
        ..Default::default()
    };
    mailbox.render(1, snapshot.clone());
    assert!(mailbox.is_owner(1));
    mailbox.render(2, snapshot);
    assert!(!mailbox.is_owner(1));
    assert!(mailbox.is_owner(2));
    mailbox.disconnect(2);
    assert!(!mailbox.is_owner(2));
}

#[test]
fn messages_are_told_apart_by_their_kind() {
    assert_eq!(classify(WM_RENDERER_UPDATE), HostMessage::Update);
    assert_eq!(classify(WM_RENDERER_THEME), HostMessage::ThemeChanged);
    assert_eq!(classify(WM_RENDERER_QUIT), HostMessage::Quit);
    assert_eq!(classify(0x0113), HostMessage::Dispatch);
}

#[test]
fn the_loop_ends_with_the_mailbox_or_the_queue() {
    let mut mailbox = Mailbox::default();
    assert!(goes_on(&mailbox));
    mailbox.close();
    assert!(!goes_on(&mailbox));
    assert_eq!(
        received(-1, WM_RENDERER_UPDATE),
        Err("GetMessageW failed".into())
    );
    assert_eq!(received(0, WM_RENDERER_UPDATE), Ok(HostMessage::Quit));
    assert_eq!(received(1, WM_RENDERER_UPDATE), Ok(HostMessage::Update));
}

#[test]
fn a_frame_is_laid_out_once_and_then_only_moves() {
    let mut mailbox = Mailbox::default();
    let mut host = XamlHost::new();
    assert!(host.update(&mut mailbox, None, VERSION).is_none());
    mailbox.render(1, frame(1));
    match host.update(&mut mailbox, None, VERSION) {
        Some(HostStep::Rebuild(strip, anchor)) => {
            assert_eq!(strip.rows.len(), 1);
            assert_eq!(strip.rows[0].label, "你");
            assert_eq!(anchor.left, 10);
        }
        _ => panic!("the first frame is laid out"),
    }
    let mut moved = frame(2);
    moved.anchor.as_mut().unwrap().left = 99;
    mailbox.render(1, moved);
    assert!(matches!(
        host.update(&mut mailbox, None, VERSION),
        Some(HostStep::Move(anchor)) if anchor.left == 99
    ));
    let white = Color {
        a: 255,
        r: 255,
        g: 255,
        b: 255,
    };
    match host.theme_changed(&mailbox, Some((white, white, white)), VERSION) {
        Some(HostStep::Rebuild(strip, _)) => {
            assert!(!strip.dark);
            assert_eq!(strip.brushes.accent, white);
        }
        _ => panic!("a new look is laid out"),
    }
    mailbox.render(2, frame(1));
    assert!(host.theme_changed(&mailbox, None, VERSION).is_none());
    assert!(matches!(
        host.update(&mut mailbox, None, VERSION),
        Some(HostStep::Rebuild(_, _))
    ));
    let mut hidden = frame(2);
    hidden.items.clear();
    mailbox.render(2, hidden);
    assert!(matches!(
        host.update(&mut mailbox, None, VERSION),
        Some(HostStep::Conceal)
    ));
    mailbox.disconnect(2);
    assert!(matches!(
        host.update(&mut mailbox, None, VERSION),
        Some(HostStep::Withdraw)
    ));
    assert!(host.last.is_none());
}

#[test]
fn the_window_follows_its_size_and_resolution() {
    let suggested = Rect {
        left: -100,
        top: 5,
        right: 200,
        bottom: 55,
    };
    assert_eq!(
        window_proc(WM_SIZE, 0x0030_0140, true, &suggested),
        WindowStep::ResizeChild {
            width: 0x140,
            height: 0x30
        }
    );
    assert_eq!(
        window_proc(WM_SIZE, 0x0030_0140, false, &suggested),
        WindowStep::Ignore
    );
    assert_eq!(
        window_proc(WM_DPICHANGED, 0, true, &suggested),
        WindowStep::MoveTo(Placement {
            x: -100,
            y: 5,
            width: 300,
            height: 50
        })
    );
    assert_eq!(window_proc(2, 0, true, &suggested), WindowStep::Default);
    let anchor = frame(1).anchor.unwrap();
    assert_eq!(
        place(&anchor, 30, 40, None),
        Placement {
            x: 10,
            y: 20,
            width: 30,
            height: 40
        }
    );
}

#[test]
fn failures_have_their_texts() {
    assert_eq!(theme_failed("0x80004005"), "theme update failed: 0x80004005");
    let mut mailbox = Mailbox::default();
    assert_eq!(started(&mut mailbox, Startup::Ready(3)), Ok(3));
    assert_eq!(
        started(&mut mailbox, Startup::Failed("no manager".into())),
        Err("no manager".into())
    );
    assert!(woken(&mut mailbox, true).is_ok());
    assert!(mailbox.render(1, frame(1)));
    assert_eq!(
        started(&mut mailbox, Startup::Silent("timed out".into())),
        Err("XAML startup failed or timed out: timed out".into())
    );
    assert!(!mailbox.render(2, frame(1)));
    assert_eq!(
        woken(&mut mailbox, false),
        Err("could not wake XAML thread".into())
    );
}
