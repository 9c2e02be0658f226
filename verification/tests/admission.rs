use weasel::admission::{
    Admission, Gate, PromoteEvent, PromoteOutcome, PromoteStep, ADMISSION_TIMEOUT, PENDING_LIMIT,
};
use weasel::client_connection::{InputPriority, InputRetireCandidate};

#[test]
fn pending_area_is_bounded_and_drop_releases_capacity() {
    let mut gate = Gate::new(128);
    let mut pending: Vec<_> = (0..PENDING_LIMIT)
        .map(|id| gate.start(id as u64, 0).unwrap())
        .collect();
    assert!(gate.start(99, 0).is_none());
    let last = pending.pop().unwrap();
    gate.leave(last);
    assert!(gate.start(99, 0).is_some());
}

fn candidate(priority: InputPriority, last_request: u64) -> InputRetireCandidate {
    InputRetireCandidate {
        priority,
        last_request,
        transport: 0,
    }
}

#[test]
fn a_full_house_asks_the_least_used_to_leave() {
    let mut gate = Gate::new(2);
    let mut first = gate.start(1, 0).unwrap();
    let mut second = gate.start(2, 0).unwrap();
    let mut third = gate.start(3, 10).unwrap();
    assert_eq!(third.deadline, 10 + ADMISSION_TIMEOUT);
    let nobody = Vec::new();
    assert_eq!(gate.promote(&mut first, &nobody), PromoteStep::Admitted);
    assert_eq!(gate.promote(&mut second, &nobody), PromoteStep::Admitted);
    assert!(!first.pending() && third.pending());
    let peers = vec![
        (1, Some(candidate(InputPriority::Focused, 1))),
        (2, Some(candidate(InputPriority::Inactive, 9))),
    ];
    match gate.promote(&mut third, &peers) {
        PromoteStep::Retire(list) => {
            assert_eq!(list.iter().map(|peer| peer.1).collect::<Vec<_>>(), [2, 1]);
        }
        PromoteStep::Admitted => panic!("no slot is free"),
    }
    assert_eq!(
        gate.waited(&mut third, PromoteEvent::Changed, false),
        PromoteOutcome::Retry
    );
    assert_eq!(
        gate.waited(&mut third, PromoteEvent::Changed, true),
        PromoteOutcome::Wait
    );
    assert_eq!(
        gate.waited(&mut third, PromoteEvent::Deadline, true),
        PromoteOutcome::Refused
    );
    gate.leave(second);
    assert_eq!(
        gate.waited(&mut third, PromoteEvent::Permit, true),
        PromoteOutcome::Admitted
    );
    assert_eq!(gate.active, [1, 3]);
    assert_eq!(
        third,
        Admission {
            id: 3,
            admitted: true,
            deadline: 10 + ADMISSION_TIMEOUT
        }
    );
}
