use weasel::message::{RenderItem, RenderSnapshot, RendererEventAction};
use weasel::theme::{
    action_pointer, brushes, emoji_glyph_for_version, icon_font_for_version, is_dark, row_pointer,
    row_rest, with_alpha, ActionLook, CandidateTheme, Color, OsVersion, Palette, PointerEvent,
};

fn solid(r: u8, g: u8, b: u8) -> Color {
    Color { a: 255, r, g, b }
}

#[test]
fn windows_10_uses_mdl2() {
    for build in [18362, 19041, 19045, 21999] {
        let version = OsVersion::new(10, 0, 0, build);
        assert_eq!(icon_font_for_version(version), "Segoe MDL2 Assets");
        assert_eq!(emoji_glyph_for_version(version), "\u{E76E}");
    }
}

#[test]
fn windows_11_and_later_keep_fluent() {
    for build in [22000, 22621, 26100] {
        let version = OsVersion::new(10, 0, 0, build);
        assert_eq!(icon_font_for_version(version), "Segoe Fluent Icons");
        assert_eq!(emoji_glyph_for_version(version), "\u{F6B8}");
    }
    assert_eq!(
        icon_font_for_version(OsVersion::new(11, 0, 0, 0)),
        "Segoe Fluent Icons"
    );
}

#[test]
fn versions_are_compared_from_the_first_number() {
    assert!(OsVersion::new(9, 9, 9, 9).before(&OsVersion::new(10, 0, 0, 0)));
    assert!(OsVersion::new(10, 0, 0, 1).before(&OsVersion::new(10, 0, 1, 0)));
    assert!(!OsVersion::new(10, 0, 0, 1).before(&OsVersion::new(10, 0, 0, 1)));
    assert_eq!(
        icon_font_for_version(OsVersion::new(6, 3, 0, 9600)),
        "Segoe Fluent Icons"
    );
}

#[test]
fn a_background_is_dark_below_half_of_the_brightness() {
    assert!(is_dark(solid(0, 0, 0)));
    assert!(is_dark(solid(127, 128, 128)));
    assert!(!is_dark(solid(128, 128, 128)));
    assert!(!is_dark(solid(255, 255, 255)));
}

#[test]
fn unreadable_system_colours_give_the_plain_ones() {
    let palette = Palette::system(None);
    assert_eq!(palette.foreground, solid(0x20, 0x20, 0x20));
    assert_eq!(palette.accent, solid(0, 0x78, 0xd4));
    assert!(!palette.dark);
    assert_eq!(palette.acrylic_base(), solid(0xf3, 0xf3, 0xf3));
    let dark = Palette::system(Some((solid(0, 0, 0), solid(255, 255, 255), solid(1, 2, 3))));
    assert!(dark.dark);
    assert_eq!(dark.acrylic_base(), solid(0x1c, 0x1c, 0x1c));
    let colors = brushes(dark);
    assert_eq!(colors.hover, with_alpha(solid(255, 255, 255), 0x20));
    assert_eq!(colors.accent, solid(1, 2, 3));
}

fn snapshot() -> RenderSnapshot {
    RenderSnapshot {
        session_id: 42,
        revision: 7,
        visible: true,
        selected_index: 1,
        can_page_next: true,
        items: vec![
            RenderItem {
                primary_text: "你好".into(),
                secondary_text: "nihao".into(),
                enabled: true,
                ..Default::default()
            },
            RenderItem {
                primary_text: "Rime".into(),
                ..Default::default()
            },
        ],
        ..Default::default()
    }
}

#[test]
fn the_strip_has_its_buttons_and_rows() {
    let mut theme = CandidateTheme::new();
    let strip = theme.render(&snapshot(), None, OsVersion::new(10, 0, 0, 19045));
    assert_eq!(strip.rows[0].ordinal, "1");
    assert_eq!(strip.rows[0].label, "你好  nihao");
    assert!(!strip.rows[0].selected);
    let tap = strip.rows[0].tap.unwrap();
    assert_eq!((tap.session_id, tap.revision, tap.item_index), (42, 7, 0));
    assert_eq!(tap.action, RendererEventAction::ItemInvoked);
    assert_eq!(strip.rows[1].label, "Rime");
    assert!(strip.rows[1].selected);
    assert!(strip.rows[1].tap.is_none());
    assert_eq!(strip.rows[1].mark, strip.brushes.accent);
    assert_eq!(strip.rows[1].background, strip.brushes.selection);
    assert!(strip.previous.tap.is_none());
    assert_eq!(strip.previous.foreground, strip.brushes.disabled);
    assert_eq!(
        strip.next.tap.unwrap().action,
        RendererEventAction::NavigateNext
    );
    assert_eq!(strip.next.glyph, "\u{EDDA}");
    assert_eq!(strip.emoji.glyph, "\u{E76E}");
    assert_eq!(strip.emoji.font, "Segoe MDL2 Assets");
    assert_eq!(
        strip.emoji.tap.unwrap().action,
        RendererEventAction::OpenEmojiPanel
    );
}

#[test]
fn colours_are_kept_until_the_look_changes() {
    let mut theme = CandidateTheme::new();
    let version = OsVersion::new(10, 0, 0, 22000);
    let white = solid(255, 255, 255);
    let first = theme.render(&snapshot(), Some((solid(0, 0, 0), white, white)), version);
    assert!(first.dark);
    let second = theme.render(&snapshot(), None, version);
    assert_eq!(second.brushes, first.brushes);
}

#[test]
fn rows_and_buttons_answer_to_the_pointer() {
    let colors = brushes(Palette::system(None));
    let rest = row_rest(&colors, true);
    let pressed = row_pointer(rest, PointerEvent::Pressed, &colors, true, true);
    assert_eq!(pressed.mark_height, 10);
    assert_eq!(pressed.background, colors.pressed);
    assert_eq!(
        row_pointer(pressed, PointerEvent::Released, &colors, true, true),
        rest
    );
    assert_eq!(
        row_pointer(pressed, PointerEvent::Exited, &colors, true, true),
        rest
    );
    assert_eq!(
        row_pointer(rest, PointerEvent::Pressed, &colors, true, false),
        rest
    );
    let look = ActionLook {
        background: colors.transparent,
        text: colors.foreground,
    };
    let hovered = action_pointer(look, PointerEvent::Entered, &colors, true);
    assert_eq!(hovered.background, colors.hover);
    assert_eq!(
        action_pointer(hovered, PointerEvent::Exited, &colors, true),
        look
    );
    assert_eq!(
        action_pointer(look, PointerEvent::Entered, &colors, false),
        look
    );
}
