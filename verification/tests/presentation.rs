use weasel::geometry::Rect;
use weasel::message::{RenderItem, RenderRect, RenderSnapshot};
use weasel::presentation::{is_visible, popup_position, within_work_area};

fn item() -> RenderItem {
    RenderItem {
        primary_text: String::new(),
        secondary_text: String::new(),
        enabled: false,
        kind: String::new(),
    }
}

#[test]
fn clamps_to_work_area_and_handles_negative_monitors() {
    let anchor = RenderRect {
        left: -20,
        right: -10,
        top: 980,
        bottom: 1000,
        valid: true,
    };
    let work = Rect {
        left: -1920,
        right: 0,
        top: 0,
        bottom: 1040,
    };
    assert_eq!(within_work_area(&anchor, 300, 69, &work), (-300, 911));
    assert_eq!(within_work_area(&anchor, 3000, 1200, &work), (-1920, 0));
}

#[test]
fn visibility_requires_items_and_an_anchor() {
    let mut snapshot = RenderSnapshot::default();
    snapshot.visible = true;
    snapshot.items.push(item());
    assert!(!is_visible(&snapshot));
    snapshot.anchor = Some(RenderRect {
        valid: true,
        ..Default::default()
    });
    assert!(is_visible(&snapshot));
    snapshot.visible = false;
    assert!(!is_visible(&snapshot));
}

#[test]
fn without_a_monitor_the_popup_goes_straight_below_its_anchor() {
    let anchor = RenderRect {
        left: 7,
        right: 9,
        top: 11,
        bottom: 13,
        valid: true,
    };
    assert_eq!(popup_position(&anchor, 300, 69, None), (7, 13));
    let work = Rect {
        left: 0,
        right: 1000,
        top: 0,
        bottom: 1000,
    };
    assert_eq!(popup_position(&anchor, 300, 69, Some(work)), (7, 13));
    assert_eq!(popup_position(&anchor, 999, 69, Some(work)), (1, 13));
}
