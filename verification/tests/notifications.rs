use weasel::notifications::{
    bounded, invalid_configuration, log_line, report, report_all, theme_unavailable,
    UserNotificationSeverity,
};
use weasel::theme_api::{NoticeSeverity, ThemeNotice};

fn notice(message: String, details: String) -> ThemeNotice {
    ThemeNotice {
        severity: NoticeSeverity::Error,
        code: "c".repeat(200),
        message,
        details,
    }
}

#[test]
fn texts_are_cut_at_whole_characters() {
    assert_eq!(bounded("a\0b", 10), "ab");
    assert_eq!(bounded("中文", 5), "中");
    assert_eq!(bounded("中文", 6), "中文");
    assert_eq!(bounded("中文", 2), "");
}

#[test]
fn a_notification_keeps_its_limits() {
    let long = report("ten", &notice("m".repeat(5000), "d".repeat(20000)));
    assert_eq!(long.source, "renderer");
    assert_eq!(long.code.len(), 128);
    assert_eq!(long.message.len(), 2048);
    assert_eq!(long.details.len(), 16384);
    assert!(long.details.starts_with("theme=ten: ddd"));
    assert_eq!(long.severity, UserNotificationSeverity::Error);
    assert_eq!(long.title, "小狼毫RS：主题通知");
}

#[test]
fn every_notice_is_reported_in_order() {
    let list = report_all(
        "abc",
        &vec![
            notice("one".into(), "x".into()),
            notice("two".into(), "y".into()),
        ],
    );
    assert_eq!(list.len(), 2);
    assert_eq!(list[0].message, "one");
    assert_eq!(log_line(&list[1]), "theme notice: two details=theme=abc: y");
}

#[test]
fn known_failures_have_their_texts() {
    let gone = theme_unavailable("ten", "no dll");
    assert_eq!(gone.code, "theme.unavailable");
    assert_eq!(gone.message, "主题 ten 加载失败，正在尝试其他主题。");
    assert_eq!(gone.details, "theme=ten: theme ten unavailable: no dll");
    let odd = invalid_configuration("size");
    assert_eq!(odd.code, "configuration.invalid");
    assert_eq!(odd.message, "渲染配置无效，已使用内置默认值。");
    assert_eq!(odd.details, "theme=renderer: size");
}
