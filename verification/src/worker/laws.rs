//! What the engine's thread does with its messages.
#[allow(unused_imports)]
use super::{is_ready, worker_next, Received, Worker, WorkerPhase, WorkerStep};
use vstd::prelude::*;

verus! {

/// A message that was received is processed, unless the thread is to stop; an empty mailbox
/// leads over maintenance to sleep, and one that nobody can send to leads to the end.
pub proof fn law_received_messages_are_processed(stopping: bool, any: Received)
    ensures
        worker_next(WorkerPhase::Receiving, Received::Message, false).1 == WorkerStep::Process,
        worker_next(WorkerPhase::Receiving, Received::Message, true).1 == WorkerStep::Finish,
        worker_next(WorkerPhase::Receiving, Received::Disconnected, stopping).1
            == WorkerStep::Finish,
        worker_next(WorkerPhase::Receiving, Received::Empty, stopping).1 == WorkerStep::Idle,
        worker_next(
            worker_next(WorkerPhase::Receiving, Received::Empty, false).0,
            any,
            false,
        ).1 == WorkerStep::Park,
{
}

/// After a message and its maintenance the mailbox is looked into again, without sleep, as
/// it is when the thread wakes up.
pub proof fn law_mailbox_is_looked_into_again(first: Received, second: Received)
    ensures
        ({
            let (idling, maintained) = worker_next(WorkerPhase::Processing, first, false);
            let (looking, step) = worker_next(idling, second, false);
            &&& maintained == WorkerStep::Idle
            &&& step == WorkerStep::Receive
            &&& looking == WorkerPhase::Receiving
        }),
        worker_next(WorkerPhase::Parked, first, false) == (
            WorkerPhase::Receiving,
            WorkerStep::Receive,
        ),
        worker_next(WorkerPhase::Polling, first, false) == (
            WorkerPhase::Receiving,
            WorkerStep::Receive,
        ),
{
}

/// A thread that has ended stays at its end, whatever comes.
pub proof fn law_end_is_the_end(received: Received, stopping: bool)
    ensures
        worker_next(WorkerPhase::Finished, received, stopping) == (
            WorkerPhase::Finished,
            WorkerStep::Finish,
        ),
{
}

/// The engine takes messages from its creation up to the request to stop or the end.
pub proof fn law_engine_is_ready_in_between(w: Worker)
    ensures
        !w.created || w.stopping || w.phase == WorkerPhase::Finished ==> !is_ready(w),
        w.created && !w.stopping && w.phase != WorkerPhase::Finished ==> is_ready(w),
{
}

} // verus!
