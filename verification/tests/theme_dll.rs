use weasel::theme_api::{
    EventSink, NoticeSeverity, ThemeCapabilities, ThemeNotice, UiAction,
};
use weasel::theme_dll::{
    check_description, check_payload, check_settings, check_table, created, invalid_response,
    Backend, Description, Reply,
};

fn reply(events: Vec<(u64, UiAction)>, error: Option<&str>) -> Reply {
    Reply {
        notices: vec![ThemeNotice {
            severity: NoticeSeverity::Info,
            code: "code".into(),
            message: "message".into(),
            details: "details".into(),
        }],
        error: error.map(|text| text.to_owned()),
        events,
    }
}

fn sink() -> EventSink {
    EventSink::new(5, 42, None, 7, vec![true, false], false, true)
}

#[test]
fn payloads_are_bounded() {
    assert!(check_payload(true, 1, 10).is_ok());
    assert!(check_payload(true, 10, 10).is_ok());
    for (present, len) in [(false, 1), (true, 0), (true, 11)] {
        assert_eq!(
            check_payload(present, len, 10).unwrap_err(),
            "theme returned an invalid payload"
        );
    }
    assert_eq!(invalid_response("eof"), "invalid theme response: eof");
    assert!(check_settings(10, 10).is_ok());
    assert_eq!(
        check_settings(11, 10).unwrap_err(),
        "theme settings payload too large"
    );
}

#[test]
fn a_library_is_accepted_with_its_table_and_description() {
    assert!(check_table(true, Some(48), 48).is_ok());
    assert_eq!(
        check_table(false, None, 48).unwrap_err(),
        "theme entry point is missing"
    );
    assert_eq!(
        check_table(true, None, 48).unwrap_err(),
        "theme entry returned null"
    );
    assert_eq!(
        check_table(true, Some(40), 48).unwrap_err(),
        "theme DLL must be updated together with renderer"
    );
    let description = |name: &str, defaults: &str| Description {
        name: name.into(),
        capabilities: ThemeCapabilities::candidates_only(),
        defaults: serde_json::from_str(defaults).unwrap(),
    };
    assert!(check_description(Ok(description("abc", "{}")), "abc").is_ok());
    for wrong in [description("ten", "{}"), description("abc", "[]")] {
        assert_eq!(
            check_description(Ok(wrong), "abc").err().unwrap(),
            "theme metadata does not match its registration"
        );
    }
    assert_eq!(
        check_description(Err("broken".into()), "abc").err().unwrap(),
        "broken"
    );
}

#[test]
fn a_theme_without_an_instance_was_not_made() {
    let (notices, result) = created(Ok(reply(vec![], None)), true);
    assert_eq!(notices.len(), 1);
    assert!(result.is_ok());
    let (notices, result) = created(Ok(reply(vec![], Some("no device"))), true);
    assert_eq!((notices.len(), result), (1, Err("no device".into())));
    let (_, result) = created(Ok(reply(vec![], None)), false);
    assert_eq!(result.unwrap_err(), "theme did not create an instance");
    let (notices, result) = created(Err("bad".into()), true);
    assert!(notices.is_empty());
    assert_eq!(result.unwrap_err(), "bad");
}

#[test]
fn only_what_was_done_on_the_present_content_counts() {
    let mut backend = Backend::new();
    let actions = vec![
        (8, UiAction::NavigateNext),
        (9, UiAction::NavigateNext),
        (9, UiAction::NavigatePrevious),
        (9, UiAction::ItemInvoked(1)),
        (9, UiAction::ItemInvoked(0)),
    ];
    assert!(backend
        .answered(Ok(reply(actions.clone(), None)))
        .unwrap()
        .is_empty());
    backend.showing(9, sink());
    let delivered = backend.answered(Ok(reply(actions.clone(), None))).unwrap();
    assert_eq!(delivered.len(), 2);
    assert!(delivered
        .iter()
        .all(|(owner, event)| (*owner, event.session_id, event.revision) == (5, 42, 7)));
    backend.hiding();
    assert!(backend
        .answered(Ok(reply(actions, None)))
        .unwrap()
        .is_empty());
    assert_eq!(backend.take_notices().len(), 3);
    assert!(backend.take_notices().is_empty());
}

#[test]
fn a_theme_that_failed_to_hide_is_not_asked_again() {
    let mut backend = Backend::new();
    assert!(backend.may_call(10, 10).is_ok());
    assert_eq!(
        backend.may_call(11, 10).unwrap_err(),
        "theme view payload too large"
    );
    assert_eq!(
        backend.answered(Ok(reply(vec![], Some("oops")))).unwrap_err(),
        "oops"
    );
    assert_eq!(backend.notices.len(), 1);
    backend.hidden(Ok(()));
    assert!(backend.may_call(1, 10).is_ok());
    backend.hidden(Err("stuck".into()));
    assert_eq!(backend.may_call(1, 10).unwrap_err(), "stuck");
}
