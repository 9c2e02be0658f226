use weasel::geometry::Rect;
use weasel::message::ContextToken;
use weasel::theme_abc::logic::{
    candidate_position, enabled, Gesture, Hit, Layout, Recovery, Role,
};
use weasel::theme_abc::paint::{Area, Shape};
use weasel::theme_abc::window::{
    antialiasing, default_settings, window_style, Abc, RenderPlan, Window,
};
use weasel::theme_api::{
    Anchor, CandidateItem, CandidateView, EventSink, Preedit, UiAction,
};
use weasel::theme_window::{
    classify, place_again, Input, Step, MA_NOACTIVATE, WM_CLOSE, WM_DPICHANGED, WM_LBUTTONDOWN,
    WM_LBUTTONUP, WM_MOUSELEAVE, WM_PAINT, WM_TIMER,
};
use weasel::xaml_host::Placement;

#[test]
fn both_button_pairs_page_but_do_not_share_press_identity() {
    let layout = Layout::new(9, Role::Candidates);
    let view = CandidateView {
        visible: true,
        can_page_previous: true,
        can_page_next: true,
        ..Default::default()
    };
    for (x, hit, action) in [
        (5, Hit::PreviousDecorative, UiAction::NavigatePrevious),
        (19, Hit::NextDecorative, UiAction::NavigateNext),
        (96, Hit::Previous, UiAction::NavigatePrevious),
        (110, Hit::Next, UiAction::NavigateNext),
    ] {
        assert_eq!(layout.hit(x, 152), Some(hit));
        let mut gesture = Gesture::default();
        gesture.press(Some(hit), &view);
        assert_eq!(gesture.release(Some(hit), &view), Some(action));
        assert!(!enabled(
            &CandidateView {
                visible: true,
                ..Default::default()
            },
            hit
        ));
    }
    assert_eq!(layout.hit(60, 152), None);
    let mut gesture = Gesture::default();
    gesture.press(Some(Hit::PreviousDecorative), &view);
    assert_eq!(gesture.release(Some(Hit::Previous), &view), None);
}

#[test]
fn independent_window_metrics_and_candidate_rows() {
    let input = Layout::new(9, Role::Input);
    let candidates = Layout::new(9, Role::Candidates);
    assert_eq!((input.width, input.height), (173, 26));
    assert_eq!((candidates.width, candidates.height), (127, 169));
    assert!(input.cells.is_empty());
    assert_eq!(candidates.hit(5, 5), Some(Hit::Candidate(0)));
    assert_eq!(candidates.hit(5, 21), Some(Hit::Candidate(1)));
    assert_eq!(candidates.hit(96, 152), Some(Hit::Previous));
}

#[test]
fn page_size_is_not_silently_truncated() {
    let layout = Layout::new(10, Role::Candidates);
    assert_eq!(layout.hit(5, 149), Some(Hit::Candidate(9)));
    assert_eq!(layout.height, 185);
}

#[test]
fn candidate_flips_left_and_clamps_on_negative_monitor() {
    let work = Anchor {
        left: -1920,
        top: 0,
        right: 0,
        bottom: 1080,
        valid: true,
    };
    assert_eq!(
        candidate_position((-1800, 100), 173, (127, 169), 8, &work),
        (-1619, 100)
    );
    assert_eq!(
        candidate_position((-200, 1000), 173, (127, 169), 8, &work),
        (-335, 911)
    );
}

#[test]
fn release_outside_cancels() {
    let view = CandidateView {
        visible: true,
        can_page_next: true,
        ..Default::default()
    };
    let mut gesture = Gesture::default();
    gesture.press(Some(Hit::Next), &view);
    gesture.motion(None);
    assert_eq!(gesture.release(Some(Hit::Next), &view), None);
    gesture.press(Some(Hit::Next), &view);
    assert_eq!(
        gesture.release(Some(Hit::Next), &view),
        Some(UiAction::NavigateNext)
    );
}

fn view() -> CandidateView {
    CandidateView {
        content_id: 1,
        visible: true,
        anchor: Some(Anchor {
            left: 100,
            top: 80,
            right: 101,
            bottom: 100,
            valid: true,
        }),
        items: vec![
            CandidateItem {
                primary_text: "你".into(),
                secondary_text: String::new(),
                enabled: true,
            },
            CandidateItem {
                primary_text: "泥".into(),
                secondary_text: String::new(),
                enabled: false,
            },
        ],
        ..Default::default()
    }
}

fn sink() -> EventSink {
    EventSink::new(
        7,
        42,
        Some(ContextToken::default()),
        3,
        vec![true, false],
        false,
        false,
    )
}

fn work() -> Rect {
    Rect {
        left: 0,
        top: 0,
        right: 1000,
        bottom: 800,
    }
}

#[test]
fn the_candidates_go_below_the_anchor_or_beside_the_input_window() {
    let mut window = Window::new(Role::Candidates, false, 96);
    assert_eq!(window.position((0, 0), Some(work())), None);
    assert_eq!(
        window.render(view(), sink(), None),
        Ok(RenderPlan::Show { activate: false })
    );
    assert_eq!(
        window.position((0, 0), Some(work())),
        Some(Placement {
            x: 100,
            y: 100,
            width: 127,
            height: 169
        })
    );
    let mut typed = view();
    typed.content_id = 2;
    typed.preedit = Some(Preedit {
        text: "ni".into(),
        cursor: 2,
    });
    assert!(window.render(typed.clone(), sink(), None).is_ok());
    assert_eq!(
        window.position((0, 0), Some(work())),
        Some(Placement {
            x: 281,
            y: 100,
            width: 127,
            height: 169
        })
    );
    assert_eq!(window.position((0, 0), None).unwrap().x, 281);
    let mut input = Window::new(Role::Input, false, 96);
    assert!(input.render(typed.clone(), sink(), None).is_ok());
    assert_eq!(
        input.position((0, 0), Some(work())),
        Some(Placement {
            x: 100,
            y: 100,
            width: 173,
            height: 26
        })
    );
    let mut preview = Window::new(Role::Candidates, true, 192);
    assert_eq!(
        preview.render(typed, sink(), None),
        Ok(RenderPlan::Show { activate: true })
    );
    assert_eq!(preview.group(), Some((616, 338)));
    assert_eq!(
        preview.position((10, 20), None),
        Some(Placement {
            x: 372,
            y: 20,
            width: 254,
            height: 338
        })
    );
}

#[test]
fn a_click_is_reported_where_the_button_went_down_and_up() {
    let mut window = Window::new(Role::Candidates, false, 96);
    assert!(window.render(view(), sink(), None).is_ok());
    let at = |x: u32, y: u32| y << 16 | x;
    let down = classify(WM_LBUTTONDOWN, 0, at(5, 5));
    assert_eq!(down, Input::Down { x: 5, y: 5 });
    assert_eq!(
        window.dispatch(down),
        Step::Press {
            hold: true,
            redraw: true
        }
    );
    let mut moved = view();
    moved.anchor.as_mut().unwrap().left = 500;
    assert_eq!(window.render(moved, sink(), None), Ok(RenderPlan::Move));
    match window.dispatch(classify(WM_LBUTTONUP, 0, at(6, 6))) {
        Step::Click(Some((owner, event))) => {
            assert_eq!((owner, event.session_id, event.revision), (7, 42, 3));
            assert_eq!(event.item_index, 0);
        }
        other => panic!("expected a click, got {other:?}"),
    }
    window.dispatch(classify(WM_LBUTTONDOWN, 0, at(5, 5)));
    window.dispatch(classify(WM_MOUSELEAVE, 0, 0));
    assert_eq!(
        window.dispatch(classify(WM_LBUTTONUP, 0, at(5, 5))),
        Step::Click(None)
    );
    assert_eq!(
        window.dispatch(Input::Down { x: 5, y: 25 }),
        Step::Press {
            hold: false,
            redraw: true
        }
    );
}

#[test]
fn messages_are_answered_by_mode_and_state() {
    let mut live = Window::new(Role::Candidates, false, 96);
    assert_eq!(live.dispatch(classify(WM_PAINT, 0, 0)), Step::Paint);
    assert_eq!(live.dispatch(Input::Erase), Step::Return(1));
    assert_eq!(live.dispatch(classify(WM_CLOSE, 0, 0)), Step::Default);
    assert_eq!(live.dispatch(Input::Activate), Step::Return(MA_NOACTIVATE));
    assert_eq!(
        live.dispatch(classify(WM_DPICHANGED, 144 << 16 | 144, 0)),
        Step::Reposition
    );
    assert_eq!(live.dpi, 144);
    assert_eq!(classify(WM_DPICHANGED, 0, 0), Input::Resolution(1));
    assert_eq!(classify(WM_TIMER, 2, 0), Input::Other);
    assert_eq!(
        classify(WM_LBUTTONDOWN, 0, 0xffff_8000),
        Input::Down { x: -32768, y: -1 }
    );
    let mut preview = Window::new(Role::Candidates, true, 96);
    assert_eq!(preview.dispatch(Input::Close), Step::Quit);
    assert_eq!(preview.dispatch(Input::Activate), Step::Default);
    assert!(place_again(1, 96, 144));
    assert!(!place_again(3, 96, 144));
    assert!(!place_again(1, 96, 96));
    assert!(!window_style(true, Role::Candidates).tool);
    assert!(window_style(true, Role::Input).tool);
}

#[test]
fn a_lost_device_is_tried_again_and_other_errors_stay() {
    let mut window = Window::new(Role::Candidates, false, 96);
    assert!(window.graphics_error("lost".into(), true));
    assert_eq!(window.dispatch(Input::Paint), Step::Return(0));
    assert_eq!(window.dispatch(classify(WM_TIMER, 1, 0)), Step::Retry);
    assert_eq!(window.dispatch(Input::Paint), Step::Paint);
    window.painted();
    assert_eq!(window.recovery, Recovery::default());
    assert!(!window.graphics_error("first".into(), false));
    window.fail("second".into());
    assert_eq!(window.health(), Err("first".into()));
    assert_eq!(
        window.render(view(), sink(), None),
        Err("first".to_owned())
    );
    window.callback_panicked();
    assert_eq!(
        window.health(),
        Err("theme_abc native callback panicked".into())
    );
}

#[test]
fn an_error_in_either_window_takes_both_away() {
    let mut both = Abc {
        input: Window::new(Role::Input, false, 96),
        candidates: Window::new(Role::Candidates, false, 96),
    };
    assert!(both.candidates.render(view(), sink(), None).is_ok());
    assert_eq!(
        both.input.render(view(), sink(), None),
        Ok(RenderPlan::Conceal)
    );
    assert!(both.presented(Ok(()), Some(Ok(()))).is_ok());
    assert!(both.candidates.content.is_some());
    assert_eq!(
        both.presented(Ok(()), Some(Err("input".into()))),
        Err("input".into())
    );
    assert!(both.candidates.content.is_none());
    both.candidates.fail("device".into());
    assert_eq!(both.check_health(), Err("device".into()));
    let mut entered = view();
    entered.preedit = Some(Preedit { text: "ni".into(), cursor: 3 });
    assert_eq!(
        both.input
            .render(entered, sink(), Some("bad cursor".into())),
        Err("bad cursor".into())
    );
    // Without a text that is being entered there is nothing to check.
    assert_eq!(
        both.input
            .render(view(), sink(), Some("bad cursor".into())),
        Ok(RenderPlan::Conceal)
    );
}

#[test]
fn a_shown_window_reports_its_place_before_its_health() {
    let mut window = Window::new(Role::Candidates, false, 96);
    let show = window.render(view(), sink(), None).unwrap();
    assert_eq!(show, RenderPlan::Show { activate: false });
    assert_eq!(window.shown(show, Ok(())), Ok(()));
    assert_eq!(
        window.shown(show, Err("no place".into())),
        Err("no place".into())
    );
    window.fail("device".into());
    let moved = window.render(view(), sink(), None).unwrap();
    assert_eq!(moved, RenderPlan::Move);
    assert_eq!(
        window.shown(moved, Err("no place".into())),
        Err("no place".into())
    );
    assert_eq!(window.shown(moved, Ok(())), Err("device".into()));
    assert_eq!(window.shown(RenderPlan::Conceal, Ok(())), Ok(()));
}

#[test]
fn a_window_is_drawn_from_its_frame_to_its_cells() {
    let mut window = Window::new(Role::Candidates, false, 96);
    assert!(window.paint().is_empty());
    assert!(window.render(view(), sink(), None).is_ok());
    window.dispatch(Input::Down { x: 5, y: 5 });
    let shapes = window.paint();
    assert_eq!(
        shapes[0],
        Shape::Fill {
            area: Area {
                left: 0,
                top: 0,
                right: 126,
                bottom: 1
            },
            rgb: 0xC0C0C0
        }
    );
    assert_eq!(
        shapes[12],
        Shape::Caption {
            text: "数字".into(),
            width: 32,
            top: 151,
            bottom: 165,
            rgb: 0x000080
        }
    );
    let row = Area {
        left: 4,
        top: 4,
        right: 112,
        bottom: 20,
    };
    assert_eq!(
        shapes[13],
        Shape::Fill {
            area: row,
            rgb: 0xA0A0A0
        }
    );
    assert_eq!(
        shapes[14],
        Shape::Label {
            text: "1:你".into(),
            area: row,
            rgb: 0x800080
        }
    );
    assert!(matches!(&shapes[15], Shape::Label { text, rgb: 0x808080, .. } if text == "2:泥"));
    // Two plain buttons of eight pieces, and two with a line.
    assert_eq!(shapes.len(), 12 + 1 + 3 + 8 + 8 + 9 + 9);
    let mut input = Window::new(Role::Input, false, 96);
    let mut typed = view();
    typed.preedit = Some(Preedit {
        text: "ni".into(),
        cursor: 2,
    });
    assert!(input.render(typed, sink(), None).is_ok());
    assert!(
        matches!(&input.paint()[12], Shape::Preedit { text, cursor: 2, area, .. }
        if text == "ni" && area.right == 167)
    );
}

#[test]
fn settings_of_the_classic_look() {
    let parse = |text: &str| serde_json::from_str::<serde_json::Value>(text).unwrap();
    let on = parse(r#"{"themeSettings": {"abc": {"antialiasing": true}}}"#);
    assert_eq!(antialiasing(&on, "wrong"), Ok(true));
    let wrong = parse(r#"{"themeSettings": {"abc": {"antialiasing": 1}}}"#);
    assert_eq!(antialiasing(&wrong, "not a boolean"), Err("not a boolean".into()));
    assert_eq!(
        antialiasing(&parse("{}"), "wrong"),
        Err("missing ABC antialiasing setting".into())
    );
    assert_eq!(default_settings("{}"), Ok(parse("{}")));
    assert!(default_settings("{")
        .unwrap_err()
        .starts_with("invalid ABC default settings: "));
}
