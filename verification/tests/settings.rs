use serde_json::Value;
use weasel::json::JsonKind;
use weasel::notifications::UserNotificationSeverity;
use weasel::settings::{
    accept_defaults, app_bool, bool_setting, bool_setting_or, has_complete_defaults, is_kind,
    load_broker_settings, normalize_server_settings, packaged_defaults, settings_notice,
    text_setting,
};

const DEFAULTS: &str = r#"{"theme":"abc","inline_preedit":true,"global_ascii_status":false,"ascii_mode":false,"allow_rime_in_secure_fields":false,"app_options":{"cmd.exe":{"ascii_mode":true}}}"#;

fn parsed(text: &str) -> Value {
    serde_json::from_str(text).unwrap()
}

#[test]
fn valid_settings_stay() {
    let mut settings = parsed(
        r#"{"theme":"ten","inline_preedit":false,"global_ascii_status":true,"ascii_mode":true,"allow_rime_in_secure_fields":true,"app_options":{"a.exe":{"inline_preedit":false}},"more":[1]}"#,
    );
    let before = settings.clone();
    let warnings = normalize_server_settings(&mut settings, &parsed(DEFAULTS));
    assert!(warnings.is_empty());
    assert_eq!(settings, before);
}

#[test]
fn settings_of_the_wrong_type_become_the_defaults() {
    let mut settings = parsed(r#"{"theme":1,"inline_preedit":"yes","ascii_mode":true}"#);
    let warnings = normalize_server_settings(&mut settings, &parsed(DEFAULTS));
    assert_eq!(
        warnings,
        [
            "theme has an invalid type",
            "inline_preedit has an invalid type",
            "global_ascii_status has an invalid type",
            "allow_rime_in_secure_fields has an invalid type",
            "app_options must be an object",
        ]
    );
    assert_eq!(settings["theme"], "abc");
    assert_eq!(settings["inline_preedit"], true);
    assert_eq!(settings["ascii_mode"], true);
    assert_eq!(settings["app_options"]["cmd.exe"]["ascii_mode"], true);
}

#[test]
fn applications_are_checked_one_by_one() {
    let mut settings = parsed(DEFAULTS);
    settings["app_options"] = parsed(
        r#"{"a/b.exe":{},"c.exe":5,"cmd.exe":{"ascii_mode":"no","inline_preedit":true},"d.exe":{"ascii_mode":1,"inline_preedit":null,"keep":2}}"#,
    );
    let warnings = normalize_server_settings(&mut settings, &parsed(DEFAULTS));
    assert_eq!(
        warnings,
        [
            "app_options.a/b.exe must be an executable basename object",
            "app_options.c.exe must be an executable basename object",
            "app_options.cmd.exe.ascii_mode must be a boolean",
            "app_options.d.exe.ascii_mode must be a boolean",
            "app_options.d.exe.inline_preedit must be a boolean",
        ]
    );
    assert_eq!(
        settings["app_options"],
        parsed(r#"{"cmd.exe":{"inline_preedit":true},"d.exe":{"keep":2}}"#)
    );
}

#[test]
fn an_invalid_option_of_an_application_inherits_the_setting_for_all() {
    let mut settings = parsed(DEFAULTS);
    settings["app_options"] = parsed(r#"{"cmd.exe":{"ascii_mode":"bad","keep":1}}"#);
    let warnings = normalize_server_settings(&mut settings, &parsed(DEFAULTS));
    assert_eq!(warnings, ["app_options.cmd.exe.ascii_mode must be a boolean"]);
    assert_eq!(settings["app_options"], parsed(r#"{"cmd.exe":{"keep":1}}"#));
    assert_eq!(app_bool(&settings, "cmd.exe", "ascii_mode"), Some(false));
    settings["ascii_mode"] = Value::Bool(true);
    assert_eq!(app_bool(&settings, "cmd.exe", "ascii_mode"), Some(true));
}

#[test]
fn an_application_has_its_own_option_first() {
    let mut settings = parsed(DEFAULTS);
    assert_eq!(app_bool(&settings, "cmd.exe", "ascii_mode"), Some(true));
    assert_eq!(app_bool(&settings, "cmd.exe", "inline_preedit"), Some(true));
    assert_eq!(app_bool(&settings, "other.exe", "ascii_mode"), Some(false));
    assert_eq!(app_bool(&settings, "other.exe", "none"), None);
    settings["app_options"] = Value::Null;
    assert_eq!(app_bool(&settings, "cmd.exe", "ascii_mode"), Some(false));
}

#[test]
fn packaged_settings_must_be_complete() {
    assert_eq!(packaged_defaults(DEFAULTS), Ok(parsed(DEFAULTS)));
    assert_eq!(
        packaged_defaults(r#"{"theme":"abc"}"#),
        Err("embedded settings are incomplete".into())
    );
    assert!(packaged_defaults("{").unwrap_err().starts_with("EOF"));
    assert_eq!(
        accept_defaults(Err("unread".into())),
        Err("unread".into())
    );
}

#[test]
fn settings_normalized_once_need_no_second_time() {
    let defaults = parsed(DEFAULTS);
    let mut settings = parsed(
        r#"{"theme":[],"app_options":{"a/b.exe":{},"c.exe":5,"cmd.exe":7,"d.exe":{"ascii_mode":1,"keep":2}},"zz":null}"#,
    );
    assert_eq!(normalize_server_settings(&mut settings, &defaults).len(), 9);
    let once = settings.clone();
    assert!(normalize_server_settings(&mut settings, &defaults).is_empty());
    assert_eq!(settings, once);
}

#[test]
fn the_brokers_answer_must_hold_an_object() {
    let defaults = parsed(DEFAULTS);
    assert_eq!(
        load_broker_settings(None, &defaults),
        Err("broker returned no configuration root".into())
    );
    assert_eq!(
        load_broker_settings(Some("[]"), &defaults),
        Err("broker returned a non-object configuration root".into())
    );
    let error = load_broker_settings(Some("{"), &defaults).unwrap_err();
    assert!(error.starts_with("broker returned invalid configuration JSON: EOF"));
    let (settings, warnings) = load_broker_settings(Some(DEFAULTS), &defaults).unwrap();
    assert_eq!(settings, defaults);
    assert!(warnings.is_empty());
}

#[test]
fn what_was_wrong_is_told_once() {
    assert!(settings_notice(&vec![]).is_none());
    let notice = settings_notice(&vec!["a".into(), "b".into()]).unwrap();
    assert_eq!(notice.details, "a\nb");
    assert_eq!(notice.code, "configuration.invalid");
    assert_eq!(notice.severity, UserNotificationSeverity::Warning);
}

#[test]
fn single_settings_are_read_by_their_type() {
    let settings = parsed(r#"{"on":true,"name":"x","number":1}"#);
    assert_eq!(bool_setting(&settings, "on"), Some(true));
    assert_eq!(bool_setting(&settings, "name"), None);
    assert!(bool_setting_or(&settings, "number", true));
    assert!(!bool_setting_or(&settings, "missing", false));
    assert_eq!(text_setting(&settings, "name"), Some("x"));
    assert_eq!(text_setting(&settings, "on"), None);
    assert!(is_kind(&settings, "number", JsonKind::Number));
    assert!(!is_kind(&settings, "missing", JsonKind::Null));
    assert!(has_complete_defaults(&parsed(DEFAULTS)));
    assert!(!has_complete_defaults(&settings));
}
