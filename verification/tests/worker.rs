use weasel::worker::{shutdown, Received, Worker, WorkerPhase, WorkerStep};

#[test]
fn messages_are_processed_and_maintenance_follows() {
    let mut worker = Worker::spawn();
    assert!(!worker.ready());
    worker.created(true);
    assert!(worker.ready());
    assert_eq!(worker.next(Received::Empty), WorkerStep::Receive);
    assert_eq!(worker.next(Received::Message), WorkerStep::Process);
    assert_eq!(worker.next(Received::Empty), WorkerStep::Idle);
    assert_eq!(worker.next(Received::Empty), WorkerStep::Receive);
    assert_eq!(worker.next(Received::Empty), WorkerStep::Idle);
    assert_eq!(worker.next(Received::Empty), WorkerStep::Park);
    assert_eq!(worker.next(Received::Empty), WorkerStep::Receive);
}

#[test]
fn a_stop_is_seen_before_a_waiting_message() {
    let mut worker = Worker::spawn();
    worker.created(true);
    worker.next(Received::Empty);
    worker.request_stop();
    assert!(!worker.ready());
    assert_eq!(worker.next(Received::Message), WorkerStep::Finish);
    assert_eq!(worker.phase, WorkerPhase::Finished);
}

#[test]
fn a_worker_without_an_engine_or_senders_ends() {
    let mut failed = Worker::spawn();
    failed.created(false);
    assert!(!failed.ready());
    assert_eq!(failed.next(Received::Message), WorkerStep::Finish);
    let mut left = Worker::spawn();
    left.created(true);
    left.next(Received::Empty);
    assert_eq!(left.next(Received::Disconnected), WorkerStep::Finish);
}

#[test]
fn a_panic_is_reported() {
    assert_eq!(shutdown(Some(Ok(()))), Ok(()));
    assert_eq!(shutdown(Some(Err("x".into()))), Err("x".into()));
    assert_eq!(shutdown(None), Err("engine thread panicked".into()));
}
