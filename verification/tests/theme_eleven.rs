use serde_json::Value;
use weasel::geometry::Rect;
use weasel::theme::{Color, OsVersion};
use weasel::theme_api::{Anchor, CandidateItem, CandidateView};
use weasel::theme_eleven::config::{
    color, colors, named_size, registry_color, requested_font, size, FontLookup, FontSize, Source,
    ThemeConfig,
};
use weasel::theme_eleven::window::{
    check_version, supports_xaml, window_style, StripWindow, ViewPlan,
};
use weasel::theme_window::WM_CLOSE;
use weasel::xaml_host::{Placement, WindowStep};

fn parse(text: &str) -> Value {
    serde_json::from_str(text).unwrap()
}

#[test]
fn parses_sizes_colors_and_independent_theme_fallbacks() {
    for (name, expected) in [("small", 14), ("medium", 18), ("large", 22), ("extraLarge", 28)] {
        assert_eq!(named_size(name), Some(expected));
        assert_eq!(
            size(&Value::String(name.into()), false),
            Some(FontSize::Whole(expected))
        );
    }
    assert_eq!(named_size("17.5"), None);
    assert_eq!(size(&parse("17.5"), true), Some(FontSize::Fraction));
    assert_eq!(size(&parse("-1"), true), None);
    let c = color("#80123456").unwrap();
    assert_eq!([c.a, c.r, c.g, c.b], [0x80, 0x12, 0x34, 0x56]);
    assert_eq!(color("123456").unwrap().a, 255);
    assert!(color("#gg0000").is_none());
    let mut notices = Vec::new();
    let both = colors(
        &mut notices,
        "textColor",
        &parse(r#"{"light":"broken","dark":"ffffff"}"#),
    );
    assert!(both.light.is_none());
    assert!(matches!(both.dark, Some(Source::Fixed(_))));
    assert_eq!(notices.len(), 1);
    assert!(notices[0].message.contains("textColor.light"));
}

#[test]
fn only_fractions_need_more_than_the_setting() {
    for fraction_valid in [false, true] {
        for (text, expected) in [
            ("1", Some(1)),
            ("14", Some(14)),
            ("256", Some(256)),
            ("0", None),
            ("257", None),
            ("-14", None),
            ("18446744073709551615", None),
            ("\"14\"", None),
            ("\"Small\"", None),
            ("\"large\"", Some(22)),
            ("null", None),
            ("true", None),
            ("[14]", None),
            ("{}", None),
        ] {
            assert_eq!(
                size(&parse(text), fraction_valid),
                expected.map(FontSize::Whole)
            );
        }
    }
    for text in ["14.0", "256.5", "1e3", "18446744073709551616"] {
        assert_eq!(size(&parse(text), false), None);
        assert_eq!(size(&parse(text), true), Some(FontSize::Fraction));
    }
}

#[test]
fn colours_have_six_or_eight_digits_and_one_hash() {
    assert_eq!(
        color("aBcDeF"),
        Some(Color {
            a: 255,
            r: 0xab,
            g: 0xcd,
            b: 0xef
        })
    );
    for wrong in ["", "#", "12345", "1234567", "##123456", "123456#", "１23456", "+12345"] {
        assert_eq!(color(wrong), None);
    }
    assert_eq!(
        registry_color(0x80112233),
        Color {
            a: 0x80,
            r: 0x33,
            g: 0x22,
            b: 0x11
        }
    );
}

#[test]
fn wrong_settings_are_replaced_and_reported() {
    let root = parse(
        r##"{"themeSettings": {"eleven": {"font": "  ", "fontSize": "huge",
            "accentColor": "system", "backgroundColor": "#102030", "textColor": 7}}}"##,
    );
    assert_eq!(requested_font(&root), None);
    let mut config = ThemeConfig::load(&root, FontLookup::Found, true);
    assert_eq!(config.font, "Microsoft YaHei UI");
    assert_eq!(config.font_size, FontSize::Whole(14));
    let notices = config.take_notices();
    assert_eq!(notices.len(), 3);
    assert_eq!(
        notices[0].message,
        "themeSettings.eleven.font 无效，已使用回退值。"
    );
    let details = parse(&notices[2].details);
    assert_eq!(details["field"], "textColor");
    assert_eq!(details["value"], "7");
    assert_eq!(
        details["reason"],
        "expected system or RGB/ARGB hexadecimal color; using original palette"
    );
    assert!(config.take_notices().is_empty());
    let black = Color {
        a: 255,
        r: 0,
        g: 0,
        b: 0,
    };
    assert_eq!(config.foreground(true, black), black);
    assert_eq!(config.background(false).unwrap().g, 0x20);
    let blue = Color {
        a: 255,
        r: 0,
        g: 0,
        b: 255,
    };
    assert_eq!(config.accent(true, black, Ok(blue)), blue);
    assert!(config.take_notices().is_empty());
    assert_eq!(config.accent(true, black, Err("no key".into())), black);
    let notices = config.take_notices();
    assert!(notices[0].details.contains(
        "DWM AccentColor unavailable: no key; using previous palette default"
    ));
}

#[test]
fn a_font_has_to_be_in_the_system() {
    let root = parse(
        r#"{"themeSettings": {"eleven": {"font": "Noto", "fontSize": 20, "accentColor": "system",
            "backgroundColor": "system", "textColor": "system"}}}"#,
    );
    assert_eq!(requested_font(&root).as_deref(), Some("Noto"));
    let config = ThemeConfig::load(&root, FontLookup::Found, false);
    assert_eq!(config.font, "Noto");
    assert_eq!(config.font_size, FontSize::Whole(20));
    assert!(config.notices.is_empty());
    let config = ThemeConfig::load(&root, FontLookup::Unavailable("Ok(false)".into()), true);
    assert_eq!(config.font, "Microsoft YaHei UI");
    assert!(config.notices[0]
        .details
        .contains("font unavailable (Ok(false)); using Microsoft YaHei UI"));
    let long = format!(
        r#"{{"themeSettings": {{"eleven": {{"font": "{}"}}}}}}"#,
        "字".repeat(86)
    );
    assert_eq!(requested_font(&parse(&long)), None);
    assert_eq!(
        requested_font(&parse(
            r#"{"themeSettings": {"eleven": {"font": "a\u0000b"}}}"#
        )),
        None
    );
}

#[test]
fn a_long_wrong_value_is_reported_in_part() {
    let long = "z".repeat(600);
    let root = parse(&format!(
        r#"{{"themeSettings": {{"eleven": {{"font": "A", "textColor": "{long}"}}}}}}"#
    ));
    let config = ThemeConfig::load(&root, FontLookup::Found, true);
    let details = parse(&config.notices.last().unwrap().details);
    assert_eq!(details["value"].as_str().unwrap().len(), 512);
    assert!(details["value"].as_str().unwrap().starts_with("\"zz"));
}

#[test]
fn checks_build_not_service_pack() {
    assert!(!supports_xaml(OsVersion::new(10, 0, 0, 17763)));
    assert!(supports_xaml(OsVersion::new(10, 0, 0, 18362)));
    assert!(supports_xaml(OsVersion::new(10, 0, 0, 19044)));
    assert!(supports_xaml(OsVersion::new(10, 0, 0, 22621)));
}

#[test]
fn an_old_system_is_named() {
    assert_eq!(check_version(OsVersion::new(10, 0, 0, 18362)), Ok(()));
    assert_eq!(
        check_version(OsVersion::new(10, 0, 0, 17763)).unwrap_err(),
        "XAML Island backend requires Windows 10 1903 (build 18362) or later, but the current version is 17763"
    );
}

fn view(content_id: u64) -> CandidateView {
    CandidateView {
        content_id,
        visible: true,
        anchor: Some(Anchor {
            left: 3,
            top: 4,
            right: 5,
            bottom: 6,
            valid: true,
        }),
        items: vec![CandidateItem {
            primary_text: "a".into(),
            secondary_text: String::new(),
            enabled: true,
        }],
        ..Default::default()
    }
}

#[test]
fn views_are_laid_out_once_until_the_look_changes() {
    let mut window = StripWindow::new(false);
    assert!(matches!(window.render(&view(1)), ViewPlan::Rebuild(_)));
    assert_eq!(window.rendered(view(1), Ok(())), Ok(()));
    assert!(matches!(window.render(&view(1)), ViewPlan::Move(_)));
    assert!(matches!(window.render(&view(2)), ViewPlan::Rebuild(_)));
    window.refresh_appearance();
    assert!(matches!(window.render(&view(1)), ViewPlan::Rebuild(_)));
    assert_eq!(
        window.rendered(view(1), Err("E_FAIL".into())),
        Err("theme update failed: E_FAIL".into())
    );
    assert!(window.last.is_none());
    assert_eq!(window.rendered(view(1), Ok(())), Ok(()));
    let mut hidden = view(1);
    hidden.visible = false;
    assert_eq!(window.render(&hidden), ViewPlan::Conceal);
    assert!(window.last.is_none());
}

#[test]
fn a_preview_has_its_own_place_and_can_be_closed() {
    let none = Rect {
        left: 0,
        top: 0,
        right: 0,
        bottom: 0,
    };
    let anchor = view(1).anchor.unwrap();
    let live = StripWindow::new(false);
    let preview = StripWindow::new(true);
    assert_eq!(
        live.position(&anchor, 10, 20, (7, 8), None),
        Placement {
            x: 3,
            y: 6,
            width: 10,
            height: 20
        }
    );
    assert_eq!(preview.position(&anchor, 10, 20, (7, 8), None).x, 7);
    assert_eq!(
        preview.window_proc(WM_CLOSE, 0, false, &none),
        WindowStep::Quit
    );
    assert_eq!(
        live.window_proc(WM_CLOSE, 0, false, &none),
        WindowStep::Default
    );
    assert_eq!(window_style(true).title, "Weasel-RS 皮肤预览");
    assert!(window_style(false).tool);
}
