use weasel::geometry::{pixels, Rect};
use weasel::message::{
    ContextToken, RenderItem, RenderRect, RenderSnapshot, RendererEventAction,
};
use weasel::theme_ten::logic::{
    enabled, Gesture, Hit, Layout, Palette, Recovery, GAP, HEIGHT, NUMBER, PAD, PARTS,
};
use weasel::theme_ten::paint::{Font, Shape};
use weasel::theme_ten::window::{pixels_of_parts, RenderPlan, Window};
use weasel::theme_window::{Input, Step};

fn snapshot() -> RenderSnapshot {
    RenderSnapshot {
        visible: true,
        session_id: 42,
        revision: 7,
        token: Some(ContextToken::default()),
        items: vec![RenderItem {
            enabled: true,
            ..Default::default()
        }],
        ..Default::default()
    }
}

#[test]
fn height_at_display_scales() {
    assert_eq!(
        [pixels(HEIGHT, 96), pixels(HEIGHT, 144), pixels(HEIGHT, 192)],
        [46, 69, 92]
    );
}

#[test]
fn recovery_is_bounded_and_success_resets_budget() {
    let mut r = Recovery::default();
    for _ in 0..3 {
        assert!(r.failed(true));
        assert!(r.waiting);
        r.waiting = false;
    }
    assert!(!r.failed(true));
    r.succeeded();
    assert!(r.failed(true));
    r.succeeded();
    assert!(!r.failed(false));
    assert!(!r.waiting);
}

#[test]
fn dynamic_layout_and_shared_hit_coordinates() {
    for n in [0usize, 1, 7, 256] {
        let l = Layout::new(&vec![10; n]);
        assert_eq!(l.cells.len(), n + 3);
        for c in &l.cells {
            assert_eq!(l.hit(c.left as i64, 0), Some(c.hit));
            for dpi in [96i64, 144, 192] {
                let px = (c.left + c.right) as i64 / 2 * dpi / 96;
                assert_eq!(l.hit(px * 96 / dpi, 23 * PARTS as i64), Some(c.hit));
            }
        }
        assert_eq!(l.hit(l.width as i64, 20 * PARTS as i64), None);
        assert_eq!(l.hit(0, HEIGHT as i64 * PARTS as i64), None);
        assert_eq!(l.hit(-(PARTS as i64), 0), None);
    }
}

#[test]
fn long_text_and_inline_comment_expand_cell() {
    let short = Layout::new(&vec![10]);
    // The width of a text, of the gap and of a comment, rounded upwards.
    let long = Layout::new(&vec![1200 + 300 + GAP.div_ceil(PARTS) as u32]);
    assert!(long.cells[0].right > short.cells[0].right);
    assert!(long.cells[0].right >= NUMBER + 1500 * PARTS + PAD);
    assert_eq!(long.cells[1].left, long.cells[0].right);
}

#[test]
fn click_requires_enabled_matching_press_and_release() {
    let mut s = snapshot();
    let mut g = Gesture::default();
    let h = Some(Hit::Candidate(0));
    assert!(g.release(h, &s).is_none());
    g.press(h, &s);
    let e = g.release(h, &s).unwrap();
    assert_eq!((e.session_id, e.revision, e.item_index), (42, 7, 0));
    assert_eq!(e.token, s.token);
    s.items[0].enabled = false;
    g.press(h, &s);
    assert!(g.release(h, &s).is_none());
    assert!(!enabled(&s, Hit::Previous));
    assert!(!enabled(&s, Hit::Next));
    s.can_page_next = true;
    assert!(enabled(&s, Hit::Next));
    g.press(Some(Hit::Next), &s);
    assert_eq!(
        g.release(Some(Hit::Next), &s).unwrap().action,
        RendererEventAction::NavigateNext
    );
    g.press(Some(Hit::Emoji), &s);
    assert_eq!(
        g.release(Some(Hit::Emoji), &s).unwrap().action,
        RendererEventAction::OpenEmojiPanel
    );
}

#[test]
fn outside_captureloss_hide_and_replacement_cancel() {
    let s = snapshot();
    let h = Some(Hit::Candidate(0));
    let mut g = Gesture::default();
    g.press(h, &s);
    g.motion(None);
    g.motion(h);
    assert!(g.release(h, &s).is_none());
    for _ in 0..3 {
        g.press(h, &s);
        g.cancel();
        assert!(g.release(h, &s).is_none());
    }
    g.press(h, &s);
    assert!(g.release(Some(Hit::Emoji), &s).is_none());
    let mut hidden = s.clone();
    hidden.visible = false;
    g.press(h, &s);
    assert!(g.release(h, &hidden).is_none());
}

#[test]
fn light_dark_palettes_have_distinct_states() {
    assert_ne!(Palette::new(false), Palette::new(true));
    for p in [Palette::new(false), Palette::new(true)] {
        assert_ne!(p.background, p.text);
        assert_ne!(p.active, p.hover);
        assert_ne!(p.disabled, p.text);
        assert_ne!(p.secondary, p.text);
    }
}

fn frame() -> RenderSnapshot {
    RenderSnapshot {
        anchor: Some(RenderRect {
            left: 100,
            top: 80,
            right: 101,
            bottom: 100,
            valid: true,
        }),
        items: vec![
            RenderItem {
                primary_text: "你".into(),
                secondary_text: "ni".into(),
                enabled: true,
                ..Default::default()
            },
            RenderItem {
                primary_text: "泥".into(),
                ..Default::default()
            },
        ],
        ..snapshot()
    }
}

#[test]
fn lengths_are_rounded_to_the_nearest_pixel() {
    assert_eq!(pixels_of_parts(34, 96), 1);
    assert_eq!(pixels_of_parts(51, 96), 2);
    assert_eq!(pixels_of_parts(50, 96), 1);
    assert_eq!(pixels_of_parts(0, 96), 1);
    assert_eq!(pixels_of_parts(2139, 96), 63);
}

#[test]
fn the_strip_is_measured_placed_and_then_only_moves() {
    let mut window = Window::new(96, false);
    assert_eq!(window.render(&frame(), 5), Ok(RenderPlan::Measure));
    window.measured(frame(), 5, vec![30, 10]);
    let work = Rect {
        left: 0,
        top: 0,
        right: 1000,
        bottom: 800,
    };
    let place = window.position(Some(work)).unwrap();
    assert_eq!((place.x, place.y, place.height), (100, 100, 46));
    // 920 + 34 * 30 + 414, then the least width, then the buttons.
    assert_eq!(place.width, pixels_of_parts(2354 + 2139 + 1127 + 1127 + 1702, 96));
    window.dispatch(Input::Down { x: 5, y: 5 });
    let mut moved = frame();
    moved.anchor.as_mut().unwrap().left = 300;
    moved.sequence = 9;
    assert_eq!(window.render(&moved, 5), Ok(RenderPlan::Move));
    assert_eq!(window.position(None).unwrap().x, 300);
    match window.dispatch(Input::Up { x: 5, y: 5 }) {
        Step::Click(Some((owner, event))) => {
            assert_eq!((owner, event.session_id, event.revision), (5, 42, 7));
        }
        other => panic!("expected a click, got {other:?}"),
    }
    let mut hidden = frame();
    hidden.visible = false;
    assert_eq!(window.render(&hidden, 5), Ok(RenderPlan::Conceal));
    assert!(window.position(None).is_none());
}

#[test]
fn the_strip_answers_and_keeps_its_first_error() {
    let mut window = Window::new(0, true);
    assert_eq!(window.dpi, 1);
    assert_eq!(window.dispatch(Input::Resolution(96)), Step::Reposition);
    assert_eq!(window.dispatch(Input::Close), Step::Default);
    assert_eq!(
        window.dispatch(Input::Down { x: 0, y: 0 }),
        Step::Press {
            hold: false,
            redraw: false
        }
    );
    assert!(window.refresh_appearance(false).is_ok());
    assert_eq!(window.palette, Palette::new(false));
    assert!(window.graphics_error("lost".into(), true));
    assert_eq!(window.dispatch(Input::Paint), Step::Return(0));
    assert_eq!(window.dispatch(Input::Retry), Step::Retry);
    window.painted();
    assert!(!window.graphics_error("broken".into(), false));
    assert_eq!(window.health(), Err("broken".into()));
    assert_eq!(window.render(&frame(), 1), Err("broken".into()));
    window.callback_panicked();
    assert_eq!(
        window.health(),
        Err("theme_ten native callback panicked".into())
    );
}

#[test]
fn a_shown_strip_reports_its_place_before_its_health() {
    let mut window = Window::new(96, false);
    let plan = window.render(&frame(), 1).unwrap();
    assert_eq!(plan, RenderPlan::Measure);
    assert_eq!(
        window.shown(plan, Err("not measured".into())),
        Err("not measured".into())
    );
    window.measured(frame(), 1, vec![30, 10]);
    assert_eq!(window.shown(plan, Ok(())), Ok(()));
    window.fail("device".into());
    let plan = window.render(&frame(), 1).unwrap();
    assert_eq!(plan, RenderPlan::Move);
    assert_eq!(window.shown(plan, Ok(())), Err("device".into()));
    assert_eq!(
        window.shown(plan, Err("no place".into())),
        Err("no place".into())
    );
}

#[test]
fn the_strip_is_drawn_cell_by_cell() {
    let mut window = Window::new(96, false);
    assert!(window.paint().is_empty());
    window.measured(frame(), 1, vec![30, 10]);
    let p = Palette::new(false);
    let shapes = window.paint();
    assert!(matches!(&shapes[0], Shape::Fill { area, rgb } if area.right == 2354 && *rgb == p.active));
    assert!(
        matches!(&shapes[1], Shape::Text { font: Font::Number, text, area, rgb }
        if text == "1" && area.right == 736 && *rgb == p.active_number)
    );
    assert!(matches!(&shapes[2], Shape::Text { font: Font::Text, text, .. } if text == "你"));
    assert!(matches!(&shapes[3], Shape::Comment { item: 0, text, .. } if text == "ni"));
    assert!(
        matches!(&shapes[4], Shape::Text { font: Font::Number, text, rgb, .. }
        if text == "2" && *rgb == p.disabled)
    );
    assert!(matches!(&shapes[6], Shape::Text { font: Font::Icon, text, .. } if text == "\u{E76B}"));
    assert_eq!(shapes.len(), 4 + 2 + 3 + 6);
    window.dispatch(Input::Motion { x: 240, y: 5 });
    assert_eq!(window.gesture.hovered, Some(Hit::Emoji));
    assert_eq!(window.paint().len(), shapes.len() + 1);
}
