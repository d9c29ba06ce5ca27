//! The stack poller: a bounded-wait primitive that repeatedly queries an
//! asynchronous resource until it reaches a target status or a wall-clock
//! budget is spent.  The decision logic lives here; a driver performs the
//! actual query and the fixed-interval sleep between attempts.

use vstd::prelude::*;

verus! {

/// The lifecycle status of a stack, as reported by the stack orchestration
/// service.
#[derive(Clone, Copy, Debug, PartialEq, Eq, Structural)]
pub enum StackStatus {
    CreateInProgress,
    CreateComplete,
    CreateFailed,
    RollbackInProgress,
    RollbackComplete,
    DeleteInProgress,
    DeleteComplete,
    Unknown,
}

/// What the poller decides after one status query.
#[derive(Clone, Copy, Debug, PartialEq, Eq, Structural)]
pub enum PollVerdict {
    /// The target status was observed: polling succeeded.
    Ready,
    /// Not there yet and time remains: sleep one interval and query again.
    Wait,
    /// The budget is spent without reaching the target status.
    TimedOut,
}

/// The poller's state: a fixed target, budget and interval, plus the time
/// charged so far and the number of queries made.
pub struct Poller {
    pub target: StackStatus,
    pub timeout_secs: u64,
    pub interval_secs: u64,
    pub elapsed_secs: u64,
    pub queries: u64,
}

impl Poller {
    /// The poller's configuration is usable and its counters are within the
    /// bound it promises: the charged time never exceeds one interval past
    /// the budget.
    pub open spec fn wf(&self) -> bool {
        &&& self.interval_secs >= 1
        &&& self.timeout_secs + self.interval_secs < u64::MAX
        &&& self.elapsed_secs <= self.timeout_secs + self.interval_secs
    }

    /// A fresh poller: nothing observed, nothing charged.
    pub fn new(target: StackStatus, timeout_secs: u64, interval_secs: u64) -> (r: Poller)
        requires
            interval_secs >= 1,
            timeout_secs + interval_secs < u64::MAX,
        ensures
            r.wf(),
            r.target == target,
            r.timeout_secs == timeout_secs,
            r.interval_secs == interval_secs,
            r.elapsed_secs == 0,
            r.queries == 0,
    {
        Poller { target, timeout_secs, interval_secs, elapsed_secs: 0, queries: 0 }
    }

    /// Decides on one observed status: success exactly on the target status;
    /// timeout exactly when the observed status misses the target after the
    /// budget is spent; otherwise one more interval is charged and the caller
    /// sleeps it and queries again.  The charged time never exceeds
    /// `timeout_secs + interval_secs`, so a source that never reaches the
    /// target fails after at most that much waiting.
    pub fn observe(&mut self, observed: StackStatus) -> (v: PollVerdict)
        requires
            old(self).wf(),
            old(self).queries * old(self).interval_secs <= old(self).elapsed_secs,
        ensures
            final(self).wf(),
            final(self).target == old(self).target,
            final(self).timeout_secs == old(self).timeout_secs,
            final(self).interval_secs == old(self).interval_secs,
            final(self).queries == old(self).queries + 1,
            v == PollVerdict::Ready <==> observed == old(self).target,
            v == PollVerdict::TimedOut <==> observed != old(self).target && old(self).elapsed_secs
                > old(self).timeout_secs,
            v == PollVerdict::Wait <==> observed != old(self).target && old(self).elapsed_secs
                <= old(self).timeout_secs,
            final(self).elapsed_secs == (if v == PollVerdict::Wait {
                old(self).elapsed_secs + old(self).interval_secs
            } else {
                old(self).elapsed_secs as int
            }),
            final(self).elapsed_secs <= final(self).timeout_secs + final(self).interval_secs,
            v == PollVerdict::Wait ==> final(self).queries * final(self).interval_secs
                <= final(self).elapsed_secs,
    {
        proof {
            let q = old(self).queries as int;
            let iv = old(self).interval_secs as int;
            assert((q + 1) * iv == q * iv + iv) by (nonlinear_arith);
            assert(q * iv >= q) by (nonlinear_arith)
                requires
                    q >= 0,
                    iv >= 1,
            ;
        }
        self.queries = self.queries + 1;
        if observed == self.target {
            PollVerdict::Ready
        } else if self.elapsed_secs > self.timeout_secs {
            PollVerdict::TimedOut
        } else {
            self.elapsed_secs = self.elapsed_secs + self.interval_secs;
            PollVerdict::Wait
        }
    }
}

} // verus!
