//! Shutdown policy of a measurement session.
//!
//! A session runs three tasks: the stream reader, the ticker and the
//! aggregator. As soon as any of them exits, the other two are told to stop,
//! and the session ends only once all three have exited, so that none of
//! them outlives it. Its result is the first failure reported, if any; a
//! task that stops because it was cancelled, or because the bus closed,
//! has not failed.

use vstd::prelude::*;

verus! {

#[derive(Clone, Copy, Debug, PartialEq, Eq, Structural)]
pub enum Task {
    Reader,
    Ticker,
    Aggregator,
}

/// What the session's driver must do after a task has exited.
#[derive(Clone, Copy, Debug, PartialEq, Eq, Structural)]
pub enum SessionAction {
    /// Tell the tasks still running to stop, then keep waiting.
    CancelOthers,
    /// Keep waiting for the tasks still running.
    Wait,
    /// All tasks have exited: end the session, failed by the given task's
    /// error if there is one.
    Finish(Option<Task>),
}

/// Which tasks have exited, whether the others were told to stop, and the
/// first task that failed.
#[derive(Clone, Copy, Debug, PartialEq, Eq, Structural)]
pub struct Session {
    pub reader_exited: bool,
    pub ticker_exited: bool,
    pub aggregator_exited: bool,
    pub cancel_sent: bool,
    pub first_failure: Option<Task>,
}

impl Session {
    pub open spec fn has_exited(self, t: Task) -> bool {
        match t {
            Task::Reader => self.reader_exited,
            Task::Ticker => self.ticker_exited,
            Task::Aggregator => self.aggregator_exited,
        }
    }

    pub open spec fn all_exited(self) -> bool {
        self.reader_exited && self.ticker_exited && self.aggregator_exited
    }

    /// The session with `t` marked as exited, and, if it failed and none
    /// failed before, recorded as the first failure.
    pub open spec fn record(self, t: Task, failed: bool) -> Session {
        Session {
            reader_exited: self.reader_exited || t == Task::Reader,
            ticker_exited: self.ticker_exited || t == Task::Ticker,
            aggregator_exited: self.aggregator_exited || t == Task::Aggregator,
            cancel_sent: self.cancel_sent,
            first_failure: if failed && self.first_failure is None {
                Some(t)
            } else {
                self.first_failure
            },
        }
    }

    /// The session and the action after task `t` reports that it exited.
    /// A second report from the same task changes nothing.
    pub open spec fn step(self, t: Task, failed: bool) -> (Session, SessionAction) {
        if self.has_exited(t) {
            (self, SessionAction::Wait)
        } else {
            let s = self.record(t, failed);
            if s.all_exited() {
                (s, SessionAction::Finish(s.first_failure))
            } else if !s.cancel_sent {
                (Session { cancel_sent: true, ..s }, SessionAction::CancelOthers)
            } else {
                (s, SessionAction::Wait)
            }
        }
    }

    /// A session whose three tasks are all running.
    pub fn new() -> (r: Session)
        ensures
            !r.reader_exited,
            !r.ticker_exited,
            !r.aggregator_exited,
            !r.cancel_sent,
            r.first_failure is None,
    {
        Session {
            reader_exited: false,
            ticker_exited: false,
            aggregator_exited: false,
            cancel_sent: false,
            first_failure: None,
        }
    }

    /// Records that task `t` has exited, with or without failure, and says
    /// what to do next.
    pub fn on_exit(&mut self, t: Task, failed: bool) -> (r: SessionAction)
        ensures
            (*final(self), r) == old(self).step(t, failed),
    {
        let already = match t {
            Task::Reader => self.reader_exited,
            Task::Ticker => self.ticker_exited,
            Task::Aggregator => self.aggregator_exited,
        };
        if already {
            return SessionAction::Wait;
        }
        match t {
            Task::Reader => self.reader_exited = true,
            Task::Ticker => self.ticker_exited = true,
            Task::Aggregator => self.aggregator_exited = true,
        }
        if failed && self.first_failure.is_none() {
            self.first_failure = Some(t);
        }
        if self.reader_exited && self.ticker_exited && self.aggregator_exited {
            SessionAction::Finish(self.first_failure)
        } else if !self.cancel_sent {
            self.cancel_sent = true;
            SessionAction::CancelOthers
        } else {
            SessionAction::Wait
        }
    }
}

/// The first failed task among three exit reports, in report order.
pub open spec fn first_failed(t1: Task, f1: bool, t2: Task, f2: bool, t3: Task, f3: bool) -> Option<Task> {
    if f1 {
        Some(t1)
    } else if f2 {
        Some(t2)
    } else if f3 {
        Some(t3)
    } else {
        None
    }
}

/// In a fresh session, whatever the order in which the three tasks exit,
/// the first exit cancels the other two, the second waits, and the third
/// ends the session with the first failure reported.
pub proof fn lemma_session_shutdown(t1: Task, f1: bool, t2: Task, f2: bool, t3: Task, f3: bool)
    requires
        t1 != t2,
        t2 != t3,
        t1 != t3,
    ensures
        ({
            let s0 = Session {
                reader_exited: false,
                ticker_exited: false,
                aggregator_exited: false,
                cancel_sent: false,
                first_failure: None,
            };
            let (s1, a1) = s0.step(t1, f1);
            let (s2, a2) = s1.step(t2, f2);
            let (s3, a3) = s2.step(t3, f3);
            &&& a1 == SessionAction::CancelOthers
            &&& a2 == SessionAction::Wait
            &&& a3 == SessionAction::Finish(first_failed(t1, f1, t2, f2, t3, f3))
            &&& s3.all_exited()
        }),
{
}

} // verus!
