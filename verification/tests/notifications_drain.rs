use weasel::notifications::{drain, UserNotificationSeverity};
use weasel::theme_api::{CandidateView, EventSink, NoticeSeverity, ThemeBackend, ThemeNotice};
use weasel::theme_void::VoidBackend;

/// A theme that gathers notices, and remembers what it was asked.
#[derive(Default)]
struct Gathering {
    notices: Vec<ThemeNotice>,
    asked: Vec<&'static str>,
}

impl ThemeBackend for Gathering {
    fn render(&mut self, _view: &CandidateView, _events: &EventSink) -> Result<(), String> {
        self.asked.push("render");
        Ok(())
    }

    fn conceal(&mut self) {
        self.asked.push("conceal");
    }

    fn refresh_appearance(&mut self) -> Result<(), String> {
        self.asked.push("refresh_appearance");
        Ok(())
    }

    fn take_notices(&mut self) -> Vec<ThemeNotice> {
        self.asked.push("take_notices");
        std::mem::take(&mut self.notices)
    }

    fn check_health(&mut self) -> Result<(), String> {
        self.asked.push("check_health");
        Ok(())
    }
}

fn notice(code: &str, severity: NoticeSeverity) -> ThemeNotice {
    ThemeNotice {
        code: code.into(),
        severity,
        message: format!("{code} happened"),
        details: "where".into(),
    }
}

#[test]
fn drained_notices_are_reported_in_order() {
    let mut theme = Gathering {
        notices: vec![
            notice("first", NoticeSeverity::Warning),
            notice("second", NoticeSeverity::Error),
        ],
        ..Default::default()
    };
    let reported = drain("abc", &mut theme);
    assert_eq!(theme.asked, ["take_notices"]);
    assert_eq!(reported.len(), 2);
    assert_eq!(reported[0].code, "first");
    assert_eq!(reported[0].severity, UserNotificationSeverity::Warning);
    assert_eq!(reported[0].message, "first happened");
    assert_eq!(reported[0].details, "theme=abc: where");
    assert_eq!(reported[1].code, "second");
    assert_eq!(reported[1].severity, UserNotificationSeverity::Error);
    assert!(drain("abc", &mut theme).is_empty());
}

#[test]
fn the_theme_without_a_window_has_nothing_to_report() {
    assert!(drain("void", &mut VoidBackend).is_empty());
}
