use weasel::engine::Request;
use weasel::message::{
    ContextAction, ContextCommand, ContextToken, FailureCode, KeyEvent, LayoutUpdate,
};
use weasel::server::{
    already_running, control_reply, eager_renderer, launch, serve_result, ClientPayload,
    Connections, ControlReply, Launch, Reader, ReaderStep,
};

fn token(generation: u64) -> ContextToken {
    ContextToken {
        context_id: 1,
        connection_epoch: 2,
        generation,
    }
}

fn command(action: ContextAction, generation: u64) -> ContextCommand {
    ContextCommand {
        token: Some(token(generation)),
        action,
        ascii_mode: Some(true),
    }
}

#[test]
fn a_waiting_connection_opens_one_context_and_sets_its_mode_once() {
    let mut reader = Reader::new(true);
    let open = || ClientPayload::OpenInput(Some(token(3)));
    assert_eq!(
        reader.receive(1, open(), true),
        ReaderStep::Forward(Request::OpenInput(Some(token(3))))
    );
    let set = command(ContextAction::SetAscii, 3);
    assert_eq!(
        reader.receive(2, ClientPayload::Command(set), true),
        ReaderStep::Forward(Request::Command(set))
    );
    assert_eq!(reader.receive(3, ClientPayload::LogEvent, true), ReaderStep::Log);
    let layout = LayoutUpdate::default();
    assert_eq!(
        reader.receive(4, ClientPayload::Layout(layout), true),
        ReaderStep::StoreLayout(layout)
    );
    // Setting the mode again, or opening again, is not for a connection that waits.
    assert_eq!(
        reader.receive(5, ClientPayload::Command(set), true),
        ReaderStep::Close
    );
    assert_eq!(reader.receive(6, open(), true), ReaderStep::Close);
}

#[test]
fn a_key_or_the_focus_of_the_opened_context_claims_a_slot() {
    let mut reader = Reader::new(true);
    let key = |generation| KeyEvent {
        token: Some(token(generation)),
        ..Default::default()
    };
    assert_eq!(reader.receive(1, ClientPayload::Key(key(3)), true), ReaderStep::Close);
    reader.receive(2, ClientPayload::OpenInput(Some(token(3))), true);
    assert_eq!(reader.receive(3, ClientPayload::Key(key(2)), true), ReaderStep::Close);
    let focus = command(ContextAction::Focus, 4);
    assert_eq!(
        reader.receive(4, ClientPayload::Command(focus), true),
        ReaderStep::Promote(Request::Command(focus))
    );
    let blur = command(ContextAction::Blur, 4);
    assert_eq!(reader.receive(5, ClientPayload::Command(blur), true), ReaderStep::Close);
    let request = Request::Key(key(3));
    assert_eq!(
        reader.receive(6, ClientPayload::Key(key(3)), true),
        ReaderStep::Promote(request)
    );
    assert_eq!(reader.promoted(false, request), ReaderStep::Close);
    assert!(reader.pending);
    assert_eq!(reader.promoted(true, request), ReaderStep::Forward(request));
    // With its slot, the connection may send anything.
    assert_eq!(
        reader.receive(7, ClientPayload::Command(blur), true),
        ReaderStep::Forward(Request::Command(blur))
    );
}

#[test]
fn control_requests_are_answered_while_waiting() {
    let mut reader = Reader::new(true);
    assert_eq!(
        reader.receive(8, ClientPayload::Ping("x".into()), true),
        ReaderStep::Reply {
            request_id: 8,
            reply: ControlReply::Pong("x".into())
        }
    );
    assert!(matches!(
        reader.receive(9, ClientPayload::Shutdown, false),
        ReaderStep::ReplyAndStop { request_id: 9, reply: ControlReply::Shutdown { accepted: true, .. } }
    ));
}

#[test]
fn control_requests_have_replies_without_an_engine_or_session() {
    for payload in [
        ClientPayload::Ping("ready".into()),
        ClientPayload::Shutdown,
    ] {
        let (request_id, reply) = control_reply(17, &payload, true).unwrap();
        assert_eq!(request_id, 17);
        assert!(matches!(
            reply,
            ControlReply::Pong(_) | ControlReply::Shutdown { .. }
        ));
    }
    assert!(control_reply(1, &ClientPayload::Key(Default::default()), true).is_none());
}

#[test]
fn an_engine_that_is_not_ready_refuses_a_ping() {
    assert_eq!(
        control_reply(3, &ClientPayload::Ping("hi".into()), false),
        Some((
            3,
            ControlReply::Failure {
                code: FailureCode::NotReady,
                message: "engine not ready".into()
            }
        ))
    );
    assert_eq!(
        control_reply(4, &ClientPayload::Ping("hi".into()), true),
        Some((4, ControlReply::Pong("hi".into())))
    );
    assert_eq!(
        control_reply(5, &ClientPayload::IdentifyService, false),
        Some((5, ControlReply::Identity { ready: false }))
    );
}

#[test]
fn connections_are_numbered_and_forgotten() {
    let mut connections = Connections::new();
    for expected in 1..=4 {
        assert_eq!(connections.accept(0).unwrap().id, expected);
    }
    assert!(connections.accept(0).is_none());
    connections.ended(2);
    assert_eq!(connections.ids, [1, 3, 4]);
    assert_eq!(connections.next_client_id, 6);
}

#[test]
fn the_service_ends_with_its_first_error() {
    assert_eq!(serve_result(Ok(()), None), Ok(()));
    assert!(serve_result(Err("engine".into()), Some("pipe".into())).is_err());
    assert!(serve_result(Ok(()), Some("pipe".into())).is_err());
}

#[test]
fn arguments_choose_what_is_started() {
    let parse = |args: &[&str]| launch(&args.iter().map(|arg| (*arg).to_owned()).collect());
    assert_eq!(parse(&[]), Launch::Serve);
    assert_eq!(parse(&["--deploy"]), Launch::Deploy);
    assert_eq!(parse(&["--deploy-ui"]), Launch::DeployUi);
    assert_eq!(already_running(Launch::Serve, "busy".into()), Ok(()));
    assert!(already_running(Launch::Deploy, "busy".into()).is_err());
}

#[test]
fn the_renderer_is_connected_early_where_it_shows_compositions() {
    assert!(!eager_renderer(None));
    assert!(!eager_renderer(Some((Some(false), Some("abc".into())))));
    assert!(!eager_renderer(Some((None, None))));
    assert!(eager_renderer(Some((Some(true), None))));
    assert!(eager_renderer(Some((None, Some("wasm".into())))));
}
