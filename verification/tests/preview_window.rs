use weasel::geometry::Rect;
use weasel::preview_window::{
    layout, refreshed_text, run, start_position, undelivered, worker_ended, Command,
    Completion, Controller, ControllerAction, Place, PreviewStep, PreviewWorker, WindowMessage,
    CLOSE, REFRESH,
};

#[test]
fn the_window_refreshes_when_it_starts() {
    let (controller, actions) = run();
    assert!(controller.busy && !controller.closing);
    assert_eq!(
        actions,
        [
            ControllerAction::EnableRefresh(false),
            ControllerAction::Status("正在读取配置……".into()),
            ControllerAction::Send(Command::Refresh),
        ]
    );
}

#[test]
fn one_refresh_runs_at_a_time() {
    let (mut controller, _) = run();
    assert!(controller.refresh().is_empty());
    let actions = controller.complete(Completion::Refreshed(Ok("当前主题：ten".into())));
    assert_eq!(
        actions,
        [
            ControllerAction::EnableRefresh(true),
            ControllerAction::Status("当前主题：ten".into()),
        ]
    );
    assert_eq!(
        controller.window_proc(WindowMessage::Command(REFRESH)).unwrap().len(),
        3
    );
    let actions = controller.complete(Completion::Refreshed(Err("no".into())));
    assert_eq!(
        actions[1..],
        [
            ControllerAction::Status("刷新失败，原预览保持不变".into()),
            ControllerAction::ShowError("no".into()),
        ]
    );
}

#[test]
fn a_closing_window_waits_for_its_worker() {
    let (mut controller, _) = run();
    let actions = controller.window_proc(WindowMessage::Command(CLOSE)).unwrap();
    assert_eq!(actions.last(), Some(&ControllerAction::Send(Command::Close)));
    assert_eq!(actions.len(), 4);
    assert_eq!(controller.window_proc(WindowMessage::Close), Some(vec![]));
    assert!(controller
        .complete(Completion::Refreshed(Err("late".into())))
        .is_empty());
    assert!(controller.refresh().is_empty());
    assert_eq!(
        controller.complete(Completion::Closed),
        [ControllerAction::Quit(0)]
    );
}

#[test]
fn other_messages_are_left_to_the_system() {
    let mut controller = Controller {
        busy: false,
        closing: false,
    };
    assert_eq!(controller.window_proc(WindowMessage::Other), None);
    assert_eq!(
        controller.window_proc(WindowMessage::Size),
        Some(vec![ControllerAction::Layout])
    );
    let suggested = Rect {
        left: -20,
        top: 30,
        right: 640,
        bottom: 300,
    };
    assert_eq!(
        controller.window_proc(WindowMessage::DpiChanged(suggested)),
        Some(vec![
            ControllerAction::MoveTo(Place {
                x: -20,
                y: 30,
                width: 660,
                height: 270
            }),
            ControllerAction::Layout
        ])
    );
    assert_eq!(controller.window_proc(WindowMessage::Command(0)), Some(vec![]));
    // A button is named by the low word alone.
    assert_eq!(
        controller
            .window_proc(WindowMessage::Command(0x30000 + REFRESH))
            .unwrap()
            .len(),
        3
    );
}

#[test]
fn the_worker_reports_its_end() {
    assert!(matches!(worker_ended(false)[..], [Completion::Closed]));
    let failed = worker_ended(true);
    assert!(matches!(
        &failed[..],
        [Completion::Refreshed(Err(text)), Completion::Closed] if text == "预览工作线程异常退出"
    ));
    assert_eq!(undelivered(Command::Refresh), 1);
    assert_eq!(undelivered(Command::Close), 0);
}

#[test]
fn the_status_names_the_theme_that_is_shown() {
    assert_eq!(refreshed_text("ten", "ten"), "当前主题：ten");
    assert_eq!(
        refreshed_text("ten", "void"),
        "主题 ten 不可用，已回退到 void"
    );
}

#[test]
fn controls_and_window_are_placed_by_the_dpi() {
    assert_eq!(layout(144, 424).1.width, 144);
    let (status, refresh, close) = layout(96, 424);
    assert_eq!((status.x, status.y, status.width, status.height), (16, 16, 392, 48));
    assert_eq!((refresh.x, refresh.y), (16, 76));
    assert_eq!((close.x, close.width), (128, 96));
    assert_eq!(layout(96, 5).0.width, 1);
    let work = Rect {
        left: 0,
        top: 0,
        right: 1920,
        bottom: 1040,
    };
    assert_eq!(
        start_position(&work, 96),
        Place {
            x: 740,
            y: 640,
            width: 440,
            height: 180
        }
    );
    let small = Rect { bottom: 300, ..work };
    assert_eq!(start_position(&small, 96).y, 120);
    // A work area that is too small is left at the right and the bottom.
    let tiny = Rect {
        left: 100,
        top: 50,
        right: 201,
        bottom: 60,
    };
    assert_eq!((start_position(&tiny, 96).x, start_position(&tiny, 96).y), (-69, 50));
    assert_eq!(start_position(&work, 4_880_644).width, 22_369_618);
}

#[test]
fn a_failed_refresh_keeps_the_theme_that_is_shown() {
    let mut worker = PreviewWorker::new();
    assert!(matches!(worker.command(Some(Command::Refresh)), PreviewStep::Load));
    assert!(matches!(worker.loaded(Ok("ten".into())), PreviewStep::Start(name) if name == "ten"));
    assert!(matches!(
        worker.started("ten", Ok("ten".into())),
        PreviewStep::Report { release_old: false, completion: Completion::Refreshed(Ok(text)) }
            if text == "当前主题：ten"
    ));
    for step in [
        worker.loaded(Err("no settings".into())),
        worker.started("abc", Err("no settings".into())),
    ] {
        assert!(matches!(
            step,
            PreviewStep::Report { release_old: false, completion: Completion::Refreshed(Err(text)) }
                if text == "no settings"
        ));
        assert_eq!(worker.current.as_deref(), Some("ten"));
    }
    // Another theme takes its place, and only then it is released.
    assert!(matches!(
        worker.started("abc", Ok("void".into())),
        PreviewStep::Report { release_old: true, completion: Completion::Refreshed(Ok(text)) }
            if text == "主题 abc 不可用，已回退到 void"
    ));
    assert_eq!(worker.current.as_deref(), Some("void"));
    assert!(matches!(worker.command(None), PreviewStep::End { release: true }));
    assert!(matches!(
        worker.command(Some(Command::Close)),
        PreviewStep::End { release: false }
    ));
}
