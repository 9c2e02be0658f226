use weasel::client_connection::{
    rank, ClientConnection, InputPriority, InputRetireCandidate, LAYOUT_CAPACITY,
};
use weasel::message::{ContextToken, LayoutUpdate};

fn token(context_id: u64, generation: u64) -> ContextToken {
    ContextToken {
        context_id,
        connection_epoch: 1,
        generation,
    }
}

fn layout(context_id: u64, revision: u64) -> LayoutUpdate {
    LayoutUpdate {
        token: Some(token(context_id, 1)),
        revision: Some(revision),
        ..Default::default()
    }
}

#[test]
fn the_last_layout_of_a_context_stays() {
    let mut connection = ClientConnection::new();
    for revision in 1..=100 {
        connection.push_layout(layout(1, revision));
    }
    connection.push_layout(layout(2, 7));
    assert_eq!(
        connection.take_layout_for(Some(&token(1, 1))),
        Some(layout(1, 100))
    );
    assert_eq!(connection.take_layout_for(Some(&token(1, 1))), None);
    assert_eq!(connection.take_layout_for(Some(&token(2, 2))), None);
    assert_eq!(
        connection.take_layout_for(Some(&token(2, 1))),
        Some(layout(2, 7))
    );
}

#[test]
fn the_oldest_layout_makes_room() {
    let mut connection = ClientConnection::new();
    let last = LAYOUT_CAPACITY as u64 + 1;
    for context in 1..=last {
        connection.push_layout(layout(context, context));
    }
    assert_eq!(connection.take_layout_for(Some(&token(1, 1))), None);
    assert_eq!(
        connection.take_layout_for(Some(&token(2, 1))),
        Some(layout(2, 2))
    );
    assert_eq!(
        connection.take_layout_for(Some(&token(last, 1))),
        Some(layout(last, last))
    );
}

#[test]
fn a_forgotten_context_has_no_layout() {
    let mut connection = ClientConnection::new();
    connection.push_layout(layout(1, 1));
    connection.push_layout(layout(2, 2));
    connection.push_layout(LayoutUpdate::default());
    connection.forget_layout(1);
    assert_eq!(connection.take_layout_for(Some(&token(1, 1))), None);
    assert_eq!(connection.take_layout_for(None), None);
    assert_eq!(
        connection.take_layout_for(Some(&token(2, 1))),
        Some(layout(2, 2))
    );
}

#[test]
fn a_connection_is_retired_only_as_it_was_seen() {
    let mut connection = ClientConnection::new();
    assert_eq!(connection.reclaim_candidate(Some((5, 9))), None);
    assert!(connection.set_input_state(false, false));
    assert_eq!(connection.reclaim_candidate(None), None);
    let candidate = connection.reclaim_candidate(Some((5, 9))).unwrap();
    assert_eq!(
        candidate,
        InputRetireCandidate {
            priority: InputPriority::Inactive,
            last_request: 5,
            transport: 9
        }
    );
    assert_eq!(connection.reclaim(candidate), Some(9));
    assert!(!connection.set_input_state(false, true));
    assert_eq!(connection.reclaim(candidate), None);
    assert!(!connection.set_input_state(true, true));
    let focused = connection.reclaim_candidate(Some((1, 1))).unwrap();
    assert_eq!(focused.priority, InputPriority::Focused);
    assert!(candidate.before(&focused) && !focused.before(&candidate));
    assert_eq!(
        [
            rank(InputPriority::Inactive),
            rank(InputPriority::Composing),
            rank(InputPriority::Focused)
        ],
        [0, 1, 2]
    );
}
