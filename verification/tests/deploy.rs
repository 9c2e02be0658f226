use weasel::deploy_drag::{
    drag_hit, input_proc, input_region, Bounds, DragAction, DragLayer, DragMessage, DragStep,
};
use weasel::deploy_job::{
    completion, diagnostic, DeployComplete, ExitReport, OutputStream, ProcessOutput, UiMailbox,
    Utf8Stream, PREVIEW_LIMIT,
};
use weasel::deploy_telemetry::{DeployLog, Telemetry, WriterStep};
use weasel::deploy_ui::{
    apply_theme, centered_position, failure_report, frame_hit_test, loop_step, run, startup_place,
    uses_mica, window_hit_test, window_proc, with_fallback, DeployWindow, FallbackStep, FrameHit,
    Layout, LogBuffer, WindowAction, WindowMessage, SC_CLOSE,
};
use weasel::geometry::Rect;
use weasel::silent_deploy::valid_arguments;

#[test]
fn native_region_excludes_controls_and_restores_hidden_button_area() {
    let log = Bounds {
        left: 36,
        top: 110,
        right: 684,
        bottom: 390,
    };
    let button = Bounds {
        left: 600,
        top: 420,
        right: 696,
        bottom: 460,
    };
    let completed = vec![log, button];
    for (x, y) in [(100, 20), (10, 200), (400, 440), (1, 1)] {
        assert!(input_region(720, 480, &completed, x, y));
    }
    assert!(!input_region(720, 480, &completed, 100, 200));
    assert!(!input_region(720, 480, &completed, 650, 440));
    assert!(!input_region(720, 480, &completed, 720, 480));
    let deploying = vec![log];
    assert!(input_region(720, 480, &deploying, 650, 440));
}

#[test]
fn the_drag_layer_is_made_anew_only_where_something_changed() {
    let hole = |left| Bounds {
        left,
        top: 0,
        right: 10,
        bottom: 10,
    };
    let mut layer = DragLayer::new();
    assert!(layer.begin());
    assert!(!layer.begin());
    assert_eq!(layer.update(100, 50, Some(vec![hole(1)])), DragStep::Apply);
    assert!(!layer.end(true));
    assert!(layer.begin());
    assert_eq!(layer.update(100, 50, Some(vec![hole(1)])), DragStep::Keep);
    assert_eq!(layer.update(100, 50, Some(vec![hole(2)])), DragStep::Apply);
    assert_eq!(layer.update(0, 50, Some(vec![hole(2)])), DragStep::Hide);
    assert_eq!(layer.update(100, 50, None), DragStep::Hide);
    assert!(layer.end(false));
    assert_eq!(input_proc(DragMessage::HitTest, true), DragAction::AskWindow);
    assert_eq!(input_proc(DragMessage::FrameMouse, true), DragAction::Forward);
    assert_eq!(input_proc(DragMessage::HitTest, false), DragAction::Default);
    assert_eq!(drag_hit(FrameHit::Client), FrameHit::Caption);
    assert_eq!(drag_hit(FrameHit::Left), FrameHit::Left);
}

#[test]
fn split_utf8_logs_are_preserved() {
    let expected = "部署日志\r\n🙂\n";
    let mut decoder = Utf8Stream::new();
    let mut actual = String::new();
    for byte in expected.as_bytes() {
        actual.push_str(&decoder.feed(&[*byte], false));
    }
    actual.push_str(&decoder.feed(&[], true));
    assert_eq!(actual, expected);
}

#[test]
fn invalid_bytes_are_replaced_and_do_not_stop_the_log() {
    let mut decoder = Utf8Stream::new();
    assert_eq!(decoder.feed(&[b'a', 0xff, b'b'], false), "a\u{fffd}b");
    assert_eq!(decoder.feed(&[0xe4, 0xb8], false), "");
    assert_eq!(decoder.feed(&[0xad, b'!'], false), "中!");
    assert_eq!(decoder.feed(&[0xe4], false), "");
    assert_eq!(decoder.feed(&[], true), "\u{fffd}");
}

#[test]
fn completion_survives_a_stalled_ui_and_log_overflow() {
    let mut ui = UiMailbox::new();
    for _ in 0..10000 {
        ui.log(&"中".repeat(1000));
    }
    let done = DeployComplete {
        success: true,
        exit_code: Some(0),
        message: "done".into(),
    };
    ui.finish(done.clone());
    let batch = ui.take();
    assert!(batch.log.omitted);
    assert!(batch.log.bytes <= PREVIEW_LIMIT);
    assert_eq!(batch.complete, Some(done));
}

#[test]
fn the_window_is_told_once_until_it_looks() {
    let mut ui = UiMailbox::new();
    assert!(!ui.log("nobody is there"));
    ui.set_window(7);
    assert!(ui.log("one"));
    assert!(!ui.log("two"));
    ui.posted(false);
    assert!(ui.log("three"));
    ui.take();
    assert!(ui.finish(DeployComplete {
        success: false,
        exit_code: None,
        message: String::new()
    }));
}

#[test]
fn both_streams_are_read_to_their_ends() {
    let mut output = ProcessOutput::new();
    assert_eq!(
        output.read(OutputStream::Stdout, Ok(vec![b'o', b'k'])),
        Some("ok".to_owned())
    );
    assert_eq!(output.read(OutputStream::Stderr, Ok(vec![0xe4])), None);
    assert_eq!(
        output.read(OutputStream::Stderr, Err("broken pipe".to_owned())),
        Some("\u{fffd}".to_owned())
    );
    assert_eq!(
        output.read_error.as_deref(),
        Some("stderr read failed: broken pipe")
    );
    assert!(output.stderr.eof && !output.stdout.eof);
    assert_eq!(output.read(OutputStream::Stdout, Ok(vec![])), None);
    assert!(output.stdout.eof);
}

#[test]
fn the_end_of_a_deployment_has_its_text() {
    let report = |success, text: &str| ExitReport {
        success,
        code: Some(if success { 0 } else { 3 }),
        text: text.to_owned(),
    };
    assert_eq!(
        completion(Ok(report(true, "exit code: 0"))).message,
        "Rime 数据部署成功。"
    );
    let failed = completion(Ok(report(false, "exit code: 3")));
    assert_eq!(failed.message, "Rime 数据部署失败：exit code: 3");
    assert_eq!(failed.exit_code, Some(3));
    let none = completion(Err("not found".to_owned()));
    assert_eq!((none.success, none.exit_code), (false, None));
    assert_eq!(none.message, "not found");
    assert_eq!(diagnostic("x"), "deployment diagnostic: x");
}

fn done() -> DeployComplete {
    DeployComplete {
        success: true,
        exit_code: Some(0),
        message: "done".into(),
    }
}

#[test]
fn completion_wait_is_bounded_when_the_output_writer_stalls() {
    let mut telemetry = Telemetry::spawn_writer(1);
    let nothing = DeployComplete {
        success: false,
        exit_code: None,
        message: String::new(),
    };
    telemetry.finish(nothing.clone());
    // The writer is busy with the end; only once it was written is it known.
    assert_eq!(telemetry.next(), WriterStep::Complete(nothing));
    assert_eq!(telemetry.completion, None);
    assert!(telemetry.written(true, true));
}

#[test]
fn headless_completion_is_written_before_returning() {
    let mut telemetry = Telemetry::spawn_writer(1);
    telemetry.finish(done());
    assert_eq!(telemetry.next(), WriterStep::Complete(done()));
    assert!(telemetry.written(true, true));
    assert_eq!(telemetry.next(), WriterStep::End);
}

#[test]
fn blocked_stdout_does_not_block_completion_or_ui_and_skips_queued_logs() {
    let mut telemetry = Telemetry::spawn_writer(1);
    telemetry.log("stderr", "first".into());
    assert_eq!(
        telemetry.next(),
        WriterStep::Log(DeployLog {
            stream: "stderr".into(),
            text: "first".into()
        })
    );
    for _ in 0..10000 {
        telemetry.log("stderr", "queued or dropped".into());
    }
    telemetry.finish(done());
    let mut ui = UiMailbox::new();
    ui.finish(done());
    assert_eq!(ui.take().complete, Some(done()));
    assert!(!telemetry.written(false, true));
    assert_eq!(telemetry.next(), WriterStep::Complete(done()));
}

#[test]
fn a_writer_without_reports_sleeps_and_then_ends() {
    let mut telemetry = Telemetry::spawn_writer(2);
    assert_eq!(telemetry.next(), WriterStep::Park);
    telemetry.close();
    assert_eq!(telemetry.next(), WriterStep::End);
    telemetry.log("stdout", "late".into());
    assert_eq!(telemetry.next(), WriterStep::End);
}

#[test]
fn initialization_failure_falls_back_once_with_the_same_guard() {
    let mut calls = 0;
    let result = match with_fallback(Err("XAML unavailable".into()), Some(42)) {
        FallbackStep::Headless(guard, reason) => {
            assert_eq!(guard, 42);
            assert_eq!(
                reason,
                "deployment UI unavailable; running --deploy without UI: XAML unavailable"
            );
            calls += 1;
            Some(done())
        }
        _ => None,
    };
    assert_eq!(calls, 1);
    assert_eq!(result, Some(done()));
}

#[test]
fn successful_ui_and_started_workers_never_start_a_second_deployment() {
    assert_eq!(with_fallback(Ok(()), Some(())), FallbackStep::Done);
    assert_eq!(
        with_fallback::<()>(Err("worker already started".into()), None),
        FallbackStep::Failed("worker already started".into())
    );
}

#[test]
fn headless_deployment_failure_remains_a_completion_not_an_initialization_error() {
    let failed = DeployComplete {
        success: false,
        exit_code: Some(1),
        message: "deploy failed".into(),
    };
    assert!(matches!(
        with_fallback(Err("no UI".into()), Some(())),
        FallbackStep::Headless((), _)
    ));
    assert_eq!(run(Ok(Some(failed))), Err("deploy failed".to_owned()));
    assert_eq!(
        run(Err("spawn failed".to_owned())).unwrap_err(),
        "spawn failed"
    );
    assert_eq!(run(Ok(Some(done()))), Ok(()));
    assert_eq!(run(Ok(None)), Ok(()));
    let (line, report) = failure_report("no display");
    assert_eq!(line, "deployment UI failed: no display");
    assert_eq!(report.message, "no display");
}

#[test]
fn startup_center_uses_work_area_and_negative_monitor_coordinates() {
    let work = Rect {
        left: 0,
        top: 0,
        right: 1920,
        bottom: 1040,
    };
    assert_eq!(centered_position(&work, 720, 480), (600, 280));
    let secondary = Rect {
        left: -2560,
        top: -200,
        right: 0,
        bottom: 1200,
    };
    assert_eq!(centered_position(&secondary, 1080, 720), (-1820, 140));
    assert_eq!(startup_place(&work, 96), (600, 280, 720, 480));
    assert_eq!(startup_place(&secondary, 144), (-1820, 140, 1080, 720));
}

#[test]
fn custom_frame_preserves_caption_resize_and_client_regions() {
    for (x, y, expected) in [
        (1, 1, FrameHit::TopLeft),
        (719, 1, FrameHit::TopRight),
        (1, 479, FrameHit::BottomLeft),
        (719, 479, FrameHit::BottomRight),
        (360, 1, FrameHit::Top),
        (360, 479, FrameHit::Bottom),
        (1, 240, FrameHit::Left),
        (719, 240, FrameHit::Right),
        (360, 30, FrameHit::Caption),
        (360, 56, FrameHit::Client),
        (360, 240, FrameHit::Client),
        (660, 440, FrameHit::Client),
        (-1, 30, FrameHit::Client),
    ] {
        assert_eq!(frame_hit_test(x, y, 720, 480, 96), expected);
    }
    let window = Rect {
        left: 100,
        top: 100,
        right: 1180,
        bottom: 820,
    };
    assert_eq!(window_hit_test(111, 500, Some(window), 144), FrameHit::Left);
    assert_eq!(window_hit_test(112, 500, Some(window), 144), FrameHit::Client);
    assert_eq!(window_hit_test(112, 500, None, 144), FrameHit::Client);
}

#[test]
fn log_buffer_is_bounded_and_unicode_safe() {
    let mut log = LogBuffer::new();
    log.append(&"中".repeat(800000));
    assert!(log.log.bytes <= PREVIEW_LIMIT);
    assert!(log.text().starts_with("[较早"));
    log.append(&"x\n".repeat(10001));
    assert!(log.log.chunks.len() <= 10000);
}

#[test]
fn the_window_shows_output_and_closes_only_after_the_end() {
    let mut window = DeployWindow::new();
    let mut mailbox = UiMailbox::new();
    mailbox.log("line one\nline two\n");
    let first = window.update(mailbox.take());
    assert_eq!(first.log.as_deref(), Some("line one\nline two\n"));
    assert!(!first.scroll && first.status.is_none());
    assert_eq!(
        window_proc(WindowMessage::Close, window.finished, 96),
        WindowAction::Handled
    );
    mailbox.finish(done());
    let last = window.update(mailbox.take());
    assert!(last.scroll);
    assert_eq!(last.status.as_deref(), Some("done"));
    assert_eq!(
        last.log.as_deref(),
        Some("line one\nline two\n\ndone\n")
    );
    assert_eq!(
        window_proc(WindowMessage::Close, window.finished, 96),
        WindowAction::Quit
    );
    assert_eq!(
        window_proc(WindowMessage::SystemCommand(SC_CLOSE + 3), false, 96),
        WindowAction::Handled
    );
    assert_eq!(
        window_proc(WindowMessage::SizeLimits, false, 192),
        WindowAction::Limit {
            width: 1120,
            height: 720
        }
    );
    let quiet = window.update(mailbox.take());
    assert!(quiet.scroll && quiet.log.is_none());
}

#[test]
fn content_is_laid_out_where_its_size_changed() {
    let mut layout = Layout::new();
    assert_eq!(layout.resize(10, 20, 0), Some((10, 20, 96)));
    assert_eq!(layout.resize(10, 20, 96), None);
    assert_eq!(layout.resize(10, 20, 144), Some((10, 20, 144)));
    assert!(loop_step(true, true, false, false).update);
    assert!(!loop_step(false, true, true, false).update);
    assert!(!loop_step(true, false, false, true).offer_controls);
}

#[test]
fn the_window_follows_the_look_of_the_system() {
    let mut previous = None;
    let dark = apply_theme(Some(0), false, &mut previous).unwrap();
    assert!(dark.dark);
    assert_eq!(dark.tint, Some((32, 32, 32)));
    assert!(apply_theme(None, false, &mut previous).is_none());
    let light = apply_theme(Some(128), false, &mut previous).unwrap();
    assert_eq!(light.tint, Some((243, 243, 243)));
    assert_eq!(apply_theme(Some(1), true, &mut previous).unwrap().tint, None);
    assert!(uses_mica(true, true, true));
    assert!(!uses_mica(true, false, true));
}

#[test]
fn silent_is_only_valid_for_plain_deployment() {
    let valid = |args: &[&str]| {
        valid_arguments(&args.iter().map(|arg| (*arg).to_owned()).collect::<Vec<_>>())
    };
    assert!(valid(&["--deploy", "--silent"]));
    assert!(valid(&["--silent", "--deploy"]));
    assert!(!valid(&["--silent"]));
    assert!(!valid(&["--deploy-ui", "--silent"]));
    assert!(!valid(&["--deploy", "--silent", "--deploy-ui"]));
}

#[test]
fn a_silent_deployment_fails_as_its_child_does() {
    assert!(!weasel::silent_deploy::run(Some(false)));
    assert!(!weasel::silent_deploy::run(None));
    assert!(weasel::silent_deploy::run(Some(true)));
}
