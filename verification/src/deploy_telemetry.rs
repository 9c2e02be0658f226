//! What a deployment reports to the process that started it: output while there is
//! room for it, and in any case how it ended.
use crate::deploy_job::DeployComplete;
use std::collections::VecDeque;
use vstd::prelude::*;

verus! {

/// Number of pieces of output that may wait to be written.
pub const LOG_CAPACITY: usize = 64;

/// How long the end of a deployment may take to be written, in milliseconds.
pub const FINISH_TIMEOUT: u64 = 2000;

/// A piece of output.
#[derive(Debug, PartialEq, Eq)]
pub struct DeployLog {
    pub stream: String,
    pub text: String,
}

/// What waits to be written.
pub struct Telemetry {
    pub logs: VecDeque<DeployLog>,
    pub capacity: usize,
    pub completion: Option<DeployComplete>,
    /// Whether nothing more will be reported.
    pub closed: bool,
    /// Whether nothing more will be written.
    pub ended: bool,
}

/// What the writer does next.
#[derive(Debug, PartialEq, Eq)]
pub enum WriterStep {
    /// Write the end of the deployment, which is the last thing written.
    Complete(DeployComplete),
    Log(DeployLog),
    /// Sleep until something is reported.
    Park,
    End,
}

impl Telemetry {
    /// Nothing waits.
    pub fn spawn_writer(capacity: usize) -> (r: Self)
        ensures
            r.logs@ == Seq::<DeployLog>::empty(),
            r.capacity == capacity,
            r.completion is None,
            !r.closed,
            !r.ended,
    {
        Telemetry {
            logs: VecDeque::new(),
            capacity,
            completion: None,
            closed: false,
            ended: false,
        }
    }

    /// Reports output; where there is no room for it, or nobody writes it, it is
    /// dropped.
    pub fn log(&mut self, stream: &str, text: String)
        ensures
            if old(self).ended || old(self).logs@.len() >= old(self).capacity {
                final(self).logs@ == old(self).logs@
            } else {
                &&& final(self).logs@.len() == old(self).logs@.len() + 1
                &&& final(self).logs@.drop_last() == old(self).logs@
                &&& final(self).logs@.last().stream@ == stream@
                &&& final(self).logs@.last().text == text
            },
            final(self).capacity == old(self).capacity,
            final(self).completion == old(self).completion,
            final(self).closed == old(self).closed,
            final(self).ended == old(self).ended,
    {
        if self.ended || self.logs.len() >= self.capacity {
            return;
        }
        let ghost before = self.logs@;
        self.logs.push_back(DeployLog { stream: stream.to_owned(), text });
        assert(self.logs@.drop_last() =~= before);
    }

    /// Reports how the deployment ended, in place of what was reported before and
    /// not written.
    pub fn finish(&mut self, done: DeployComplete)
        ensures
            final(self).completion == Some(done),
            final(self).logs == old(self).logs,
            final(self).capacity == old(self).capacity,
            final(self).closed == old(self).closed,
            final(self).ended == old(self).ended,
    {
        self.completion = Some(done);
    }

    /// Nothing more will be reported.
    pub fn close(&mut self)
        ensures
            final(self).closed,
            final(self).logs == old(self).logs,
            final(self).capacity == old(self).capacity,
            final(self).completion == old(self).completion,
            final(self).ended == old(self).ended,
    {
        self.closed = true;
    }

    /// What the writer does next: the end of the deployment comes before any output
    /// that waits, and is the last thing written.
    pub fn next(&mut self) -> (r: WriterStep)
        ensures
            final(self).capacity == old(self).capacity,
            final(self).closed == old(self).closed,
            if old(self).ended {
                &&& r is End
                &&& final(self).ended
                &&& final(self).logs == old(self).logs
                &&& final(self).completion == old(self).completion
            } else {
                match old(self).completion {
                    Some(done) => r == WriterStep::Complete(done) && final(self).completion is None
                        && final(self).ended && final(self).logs == old(self).logs,
                    None => final(self).completion is None && (if old(self).logs@.len() > 0 {
                        &&& r == WriterStep::Log(old(self).logs@[0])
                        &&& final(self).logs@ == old(self).logs@.drop_first()
                        &&& !final(self).ended
                    } else if old(self).closed {
                        r is End && final(self).ended && final(self).logs@ == old(self).logs@
                    } else {
                        r is Park && !final(self).ended && final(self).logs@ == old(self).logs@
                    }),
                }
            },
    {
        if self.ended {
            return WriterStep::End;
        }
        if let Some(done) = self.completion.take() {
            self.ended = true;
            return WriterStep::Complete(done);
        }
        let ghost before = self.logs@;
        match self.logs.pop_front() {
            Some(log) => {
                assert(self.logs@ =~= before.drop_first());
                WriterStep::Log(log)
            },
            None => {
                if self.closed {
                    self.ended = true;
                    WriterStep::End
                } else {
                    WriterStep::Park
                }
            },
        }
    }

    /// Takes whether something could be written; where not, nothing more is. The
    /// result is whether the end of the deployment is now known to its reader.
    pub fn written(&mut self, complete: bool, ok: bool) -> (finished: bool)
        ensures
            finished == (complete && ok),
            final(self).ended == (old(self).ended || !ok || complete),
            final(self).logs == old(self).logs,
            final(self).capacity == old(self).capacity,
            final(self).completion == old(self).completion,
            final(self).closed == old(self).closed,
    {
        if !ok || complete {
            self.ended = true;
        }
        complete && ok
    }
}

} // verus!
