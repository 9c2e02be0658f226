use weasel::message::{RenderSnapshot, RendererEvent};
use weasel::rpc::{
    accept_theme, component, configured_theme, load_theme, serve_request, service_result,
    shutdown_result, starting_theme, supports_theme, using_embedded, Answer, ClientRequest,
    ConfigReply, Router, RpcEvent, RpcStep, ServeStep,
};
use weasel::state::Mailbox;

#[test]
fn themes_are_known_by_name() {
    for name in ["eleven", "ten", "abc", "void", "wasm"] {
        assert!(supports_theme(name));
    }
    assert!(!supports_theme("Ten"));
    assert!(!supports_theme(""));
}

#[test]
fn renderer_answers_readiness_without_a_window() {
    match serve_request(3, ClientRequest::Ping, true) {
        ServeStep::Reply { request_id, answer } => {
            assert_eq!(request_id, 3);
            assert_eq!(answer, Answer::Pong("renderer ready".into()));
        }
        _ => panic!("a ping is answered"),
    }
    let query = |path: &str, preedit| {
        match serve_request(4, ClientRequest::QueryConfig { path: path.into() }, preedit) {
            ServeStep::Reply {
                answer: Answer::Config(json),
                ..
            } => json,
            _ => panic!("a query is answered"),
        }
    };
    assert_eq!(query(".capabilities.preedit", true).as_deref(), Some("true"));
    assert_eq!(query(".capabilities.preedit", false).as_deref(), Some("false"));
    assert_eq!(query(".theme", true), None);
}

#[test]
fn other_requests_are_answered_or_handed_on() {
    assert!(matches!(
        serve_request(1, ClientRequest::IdentifyService, true),
        ServeStep::Reply {
            request_id: 1,
            answer: Answer::Identity
        }
    ));
    assert!(matches!(
        serve_request(1, ClientRequest::RenderSnapshot(RenderSnapshot { revision: 5, ..Default::default() }), true),
        ServeStep::Render(ref snapshot) if snapshot.revision == 5
    ));
    assert!(matches!(
        serve_request(1, ClientRequest::Other, true),
        ServeStep::Ignore
    ));
    assert!(matches!(
        serve_request(8, ClientRequest::Shutdown, true),
        ServeStep::Reply { request_id: 8, answer: Answer::ShuttingDown { accepted: true, ref message } }
            if message == "renderer shutting down"
    ));
    assert_eq!(
        shutdown_result(None).unwrap_err(),
        "shutdown response timed out"
    );
    assert_eq!(shutdown_result(Some(Ok(()))), Ok(()));
}

fn shown(owner: u64) -> Mailbox {
    let mut mailbox = Mailbox::default();
    mailbox.render(
        owner,
        RenderSnapshot {
            sequence: 1,
            ..Default::default()
        },
    );
    mailbox
}

#[test]
fn actions_go_to_the_connection_that_is_shown() {
    let mut router = Router::new();
    let none = Mailbox::default();
    for expected in 1..=2 {
        assert!(router.accepting());
        assert!(matches!(
            router.step(RpcEvent::Accepted(Ok(())), &none),
            RpcStep::Serve(owner) if owner == expected
        ));
    }
    let event = |owner| RpcEvent::Event(Some((owner, RendererEvent::default())));
    assert!(matches!(router.step(event(1), &none), RpcStep::Wait));
    let mailbox = shown(2);
    assert!(matches!(router.step(event(1), &mailbox), RpcStep::Wait));
    assert!(matches!(
        router.step(event(2), &mailbox),
        RpcStep::Forward(2, _)
    ));
    assert!(matches!(
        router.step(RpcEvent::Completed(2, Err("pipe broke".into())), &mailbox),
        RpcStep::Record(ref text) if text == "client pipe failed: pipe broke"
    ));
    assert!(matches!(router.step(event(2), &mailbox), RpcStep::Wait));
    assert_eq!(router.routes, [1]);
    assert!(matches!(
        router.step(RpcEvent::Accepted(Ok(())), &none),
        RpcStep::Serve(3)
    ));
}

#[test]
fn no_more_than_a_bounded_number_of_connections_is_served() {
    let mut router = Router::new();
    let none = Mailbox::default();
    for _ in 0..64 {
        assert!(router.accepting());
        router.step(RpcEvent::Accepted(Ok(())), &none);
    }
    assert!(!router.accepting());
    router.step(RpcEvent::Completed(10, Ok(())), &none);
    assert!(router.accepting());
}

#[test]
fn the_service_ends_for_a_reason() {
    let mut router = Router::new();
    let none = Mailbox::default();
    let mut end = |event| match router.step(event, &none) {
        RpcStep::Exit(result) => result,
        _ => panic!("the service ends"),
    };
    assert_eq!(end(RpcEvent::ParentExited), Ok(()));
    assert_eq!(end(RpcEvent::ShutdownRequested), Ok(()));
    assert_eq!(
        end(RpcEvent::Accepted(Err("denied".into()))),
        Err("renderer pipe accept failed: denied".into())
    );
    assert_eq!(
        end(RpcEvent::TaskFailed("panicked".into())),
        Err("renderer connection task failed: panicked".into())
    );
    assert_eq!(
        end(RpcEvent::Event(None)),
        Err("UI event channel closed".into())
    );
    assert_eq!(
        end(RpcEvent::Finished(Some(Ok(())))),
        Err("UI thread exited unexpectedly".into())
    );
    assert_eq!(
        end(RpcEvent::Finished(Some(Err("device".into())))),
        Err("device".into())
    );
    assert_eq!(end(RpcEvent::Finished(None)), Err("UI thread panicked".into()));
    assert_eq!(
        service_result(Err("first".into()), Err("second".into())),
        Err("first".into())
    );
    assert_eq!(service_result(Ok(()), Err("second".into())), Err("second".into()));
}

#[test]
fn the_brokers_settings_have_to_name_a_known_theme() {
    let reply = |text: &str| ConfigReply::Value(Some(text.to_owned()));
    let (settings, theme) = load_theme(reply(r#"{"theme": "abc", "x": 1}"#), "missing")
        .ok()
        .unwrap();
    assert_eq!(theme, "abc");
    assert_eq!(settings["x"], 1);
    let refusal = |reply| load_theme(reply, "not a string").err().unwrap();
    let unknown = refusal(reply(r#"{"theme": "a\"b"}"#));
    assert_eq!(
        unknown.error,
        "broker returned unsupported renderer theme \"a\\\"b\""
    );
    assert!(unknown.notification.unwrap().details.contains("unsupported"));
    assert_eq!(
        refusal(reply(r#"{"theme": 3}"#)).error,
        "broker returned an invalid renderer theme: not a string"
    );
    let broken = refusal(reply("{"));
    assert!(broken
        .error
        .starts_with("broker returned invalid configuration JSON: "));
    assert!(broken.notification.is_none());
    assert_eq!(
        refusal(ConfigReply::Value(None)).error,
        "broker returned no configuration root"
    );
    assert_eq!(
        refusal(ConfigReply::Unexpected).error,
        "broker returned an unexpected configuration response"
    );
    assert!(accept_theme(Err("eof".into()), "").is_err());
}

#[test]
fn the_renderer_starts_with_a_theme() {
    let parse = |text: &str| serde_json::from_str::<serde_json::Value>(text).unwrap();
    assert_eq!(
        starting_theme(&parse(r#"{"theme": "ten"}"#), "missing").ok().unwrap(),
        "ten"
    );
    let refusal = starting_theme(&parse("[]"), "missing").err().unwrap();
    assert_eq!(refusal.error, "invalid renderer theme setting: missing");
    assert_eq!(configured_theme(&parse("{}")), None);
    assert_eq!(using_embedded("late"), "late; using embedded settings");
    assert_eq!(component(true), "renderer");
    assert_eq!(component(false), "renderer-preview");
}
