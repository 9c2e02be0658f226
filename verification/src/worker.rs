//! The thread that owns the engine: what it does next, and how it ends.
use vstd::prelude::*;

pub mod laws;

verus! {

/// Where the thread stands.
#[derive(Clone, Copy, Debug, PartialEq, Eq, Structural)]
pub enum WorkerPhase {
    /// A round begins.
    Polling,
    /// The mailbox is being looked into.
    Receiving,
    /// A message is being processed.
    Processing,
    /// Maintenance is being done; afterwards the thread may sleep.
    Idling { park: bool },
    /// The thread sleeps until it is woken.
    Parked,
    /// The engine is gone.
    Finished,
}

/// What the mailbox held.
#[derive(Clone, Copy, Debug, PartialEq, Eq, Structural)]
pub enum Received {
    Message,
    Empty,
    /// Nobody can send any more.
    Disconnected,
}

/// What the thread does next.
#[derive(Clone, Copy, Debug, PartialEq, Eq, Structural)]
pub enum WorkerStep {
    /// Look into the mailbox.
    Receive,
    /// Process the message.
    Process,
    /// Do maintenance.
    Idle,
    /// Sleep until woken.
    Park,
    /// Drop the engine, and report the end.
    Finish,
}

/// How a round begins.
pub open spec fn polled(stopping: bool) -> (WorkerPhase, WorkerStep) {
    if stopping {
        (WorkerPhase::Finished, WorkerStep::Finish)
    } else {
        (WorkerPhase::Receiving, WorkerStep::Receive)
    }
}

/// What follows each phase. A request to stop is seen before every message, and
/// needs no place in the mailbox.
pub open spec fn worker_next(phase: WorkerPhase, received: Received, stopping: bool) -> (
    WorkerPhase,
    WorkerStep,
) {
    match phase {
        WorkerPhase::Polling | WorkerPhase::Parked => polled(stopping),
        WorkerPhase::Receiving => match received {
            Received::Message => if stopping {
                (WorkerPhase::Finished, WorkerStep::Finish)
            } else {
                (WorkerPhase::Processing, WorkerStep::Process)
            },
            Received::Empty => (WorkerPhase::Idling { park: true }, WorkerStep::Idle),
            Received::Disconnected => (WorkerPhase::Finished, WorkerStep::Finish),
        },
        WorkerPhase::Processing => (WorkerPhase::Idling { park: false }, WorkerStep::Idle),
        WorkerPhase::Idling { park } => if park && !stopping {
            (WorkerPhase::Parked, WorkerStep::Park)
        } else {
            polled(stopping)
        },
        WorkerPhase::Finished => (WorkerPhase::Finished, WorkerStep::Finish),
    }
}

/// The thread that owns the engine.
#[derive(Clone, Copy, Debug, PartialEq, Eq, Structural)]
pub struct Worker {
    pub phase: WorkerPhase,
    /// Whether the engine was created.
    pub created: bool,
    /// Whether the thread was asked to stop.
    pub stopping: bool,
}

/// Whether the engine takes messages.
pub open spec fn is_ready(w: Worker) -> bool {
    w.created && !w.stopping && w.phase != WorkerPhase::Finished
}

impl Worker {
    /// A thread that creates its engine.
    pub fn spawn() -> (r: Self)
        ensures
            r == (Worker { phase: WorkerPhase::Polling, created: false, stopping: false }),
            !is_ready(r),
    {
        Worker { phase: WorkerPhase::Polling, created: false, stopping: false }
    }

    /// Takes the outcome of creating the engine: the first step, or the end.
    pub fn created(&mut self, created: bool)
        ensures
            *final(self) == (Worker {
                phase: if created {
                    old(self).phase
                } else {
                    WorkerPhase::Finished
                },
                created,
                ..*old(self)
            }),
    {
        self.created = created;
        if !created {
            self.phase = WorkerPhase::Finished;
        }
    }

    /// What the thread does next; `received` is what the mailbox held, where it was
    /// looked into.
    pub fn next(&mut self, received: Received) -> (r: WorkerStep)
        ensures
            (final(self).phase, r) == worker_next(old(self).phase, received, old(self).stopping),
            final(self).created == old(self).created,
            final(self).stopping == old(self).stopping,
    {
        let (phase, step): (WorkerPhase, WorkerStep) = match self.phase {
            WorkerPhase::Polling | WorkerPhase::Parked => Self::poll(self.stopping),
            WorkerPhase::Receiving => match received {
                Received::Message => if self.stopping {
                    (WorkerPhase::Finished, WorkerStep::Finish)
                } else {
                    (WorkerPhase::Processing, WorkerStep::Process)
                },
                Received::Empty => (WorkerPhase::Idling { park: true }, WorkerStep::Idle),
                Received::Disconnected => (WorkerPhase::Finished, WorkerStep::Finish),
            },
            WorkerPhase::Processing => (WorkerPhase::Idling { park: false }, WorkerStep::Idle),
            WorkerPhase::Idling { park } => if park && !self.stopping {
                (WorkerPhase::Parked, WorkerStep::Park)
            } else {
                Self::poll(self.stopping)
            },
            WorkerPhase::Finished => (WorkerPhase::Finished, WorkerStep::Finish),
        };
        self.phase = phase;
        step
    }

    /// How a round begins.
    fn poll(stopping: bool) -> (r: (WorkerPhase, WorkerStep))
        ensures
            r == polled(stopping),
    {
        if stopping {
            (WorkerPhase::Finished, WorkerStep::Finish)
        } else {
            (WorkerPhase::Receiving, WorkerStep::Receive)
        }
    }

    /// Asks the thread to stop. What still waits in the mailbox is dropped.
    pub fn request_stop(&mut self)
        ensures
            *final(self) == (Worker { stopping: true, ..*old(self) }),
            !is_ready(*final(self)),
    {
        self.stopping = true;
    }

    /// Whether the engine takes messages.
    pub fn ready(&self) -> (r: bool)
        ensures
            r == is_ready(*self),
    {
        self.created && !self.stopping && self.phase != WorkerPhase::Finished
    }
}

/// How the thread ended: by what it reported, or with a panic.
pub fn shutdown(joined: Option<Result<(), String>>) -> (r: Result<(), String>)
    ensures
        match joined {
            Some(result) => r == result,
            None => r matches Err(error) && error@ == "engine thread panicked"@,
        },
{
    match joined {
        Some(result) => result,
        None => Err("engine thread panicked".to_owned()),
    }
}

/// Once the thread was asked to stop, no further message is processed, and it does
/// not fall asleep.
pub proof fn law_stop_needs_no_mailbox(phase: WorkerPhase, received: Received)
    ensures
        worker_next(phase, received, true).1 != WorkerStep::Process,
        worker_next(phase, received, true).1 != WorkerStep::Park,
        worker_next(phase, received, true).1 != WorkerStep::Receive,
{
}

/// Maintenance follows every message, and comes before the thread falls asleep.
pub proof fn law_maintenance_follows_every_message(
    phase: WorkerPhase,
    received: Received,
    stopping: bool,
)
    ensures
        worker_next(phase, received, stopping).1 == WorkerStep::Process ==> worker_next(
            worker_next(phase, received, stopping).0,
            received,
            stopping,
        ).1 == WorkerStep::Idle,
        worker_next(phase, received, stopping).1 == WorkerStep::Park ==> phase
            == (WorkerPhase::Idling { park: true }),
{
}

/// A thread that is asked to stop ends after at most two steps.
pub proof fn law_stop_ends_the_thread(phase: WorkerPhase, first: Received, second: Received)
    ensures
        ({
            let (middle, step) = worker_next(phase, first, true);
            step == WorkerStep::Finish || worker_next(middle, second, true).1
                == WorkerStep::Finish
        }),
{
}

} // verus!
