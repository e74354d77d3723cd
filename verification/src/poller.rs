//! The tick scheduler's state machine.
//!
//! The poller runs the same task set every tick under a global concurrency
//! bound. The loop that performs the network calls lives outside the
//! library; it drives this state machine, which makes every admission and
//! completion decision: a task is admitted only while a permit is free,
//! tasks are admitted in interleaved order, and a new tick may begin only
//! once every task of the current tick has finished.

use vstd::prelude::*;

verus! {

/// Admission and completion state of the tick scheduler. `admitted` and
/// `completed` count tasks of the current tick; a task holds a permit from
/// its admission until its completion.
#[derive(Debug, Clone, Copy)]
pub struct Poller {
    pub concurrency: usize,
    pub total_tasks: usize,
    pub ticks_started: u64,
    pub admitted: usize,
    pub completed: usize,
}

impl Poller {
    /// Tasks of the current tick that hold an unreleased permit.
    pub open spec fn permits_in_use(self) -> int {
        self.admitted - self.completed
    }

    /// Every reachable state satisfies this: tasks complete only after
    /// admission, no more tasks are admitted than the tick has, and at
    /// most `concurrency` permits are ever out at once.
    pub open spec fn wf(self) -> bool {
        &&& self.concurrency >= 1
        &&& self.completed <= self.admitted <= self.total_tasks
        &&& self.admitted - self.completed <= self.concurrency
    }

    /// Every task of the current tick has finished; also holds before the
    /// first tick begins.
    pub open spec fn spec_tick_done(self) -> bool {
        self.admitted == self.total_tasks && self.completed == self.total_tasks
    }

    /// A fresh scheduler for a task set of `total_tasks` tasks per tick,
    /// with no tick running yet.
    pub fn new(concurrency: usize, total_tasks: usize) -> (p: Poller)
        requires
            concurrency >= 1,
        ensures
            p.wf(),
            p.spec_tick_done(),
            p.ticks_started == 0,
            p.concurrency == concurrency,
            p.total_tasks == total_tasks,
    {
        Poller {
            concurrency,
            total_tasks,
            ticks_started: 0,
            admitted: total_tasks,
            completed: total_tasks,
        }
    }

    /// Whether the current tick has fully drained.
    pub fn tick_done(&self) -> (r: bool)
        ensures
            r == self.spec_tick_done(),
    {
        self.admitted == self.total_tasks && self.completed == self.total_tasks
    }

    /// Begins the next tick. Ticks are atomic: this demands that every
    /// task of the current tick has completed, so no task of tick N+1 can
    /// be admitted before the last task of tick N has finished.
    pub fn begin_tick(&mut self)
        requires
            old(self).wf(),
            old(self).spec_tick_done(),
            old(self).ticks_started < u64::MAX,
        ensures
            final(self).wf(),
            final(self).ticks_started == old(self).ticks_started + 1,
            final(self).admitted == 0,
            final(self).completed == 0,
            final(self).permits_in_use() == 0,
            final(self).concurrency == old(self).concurrency,
            final(self).total_tasks == old(self).total_tasks,
    {
        self.ticks_started = self.ticks_started + 1;
        self.admitted = 0;
        self.completed = 0;
    }

    /// Admits the next task of the tick if one remains and a permit is
    /// free, handing back its position in the interleaved order; admission
    /// order is therefore exactly that order. Never lets more than
    /// `concurrency` permits out at once.
    pub fn try_admit(&mut self) -> (r: Option<usize>)
        requires
            old(self).wf(),
        ensures
            final(self).wf(),
            final(self).concurrency == old(self).concurrency,
            final(self).total_tasks == old(self).total_tasks,
            final(self).ticks_started == old(self).ticks_started,
            final(self).completed == old(self).completed,
            r is Some <==> (old(self).admitted < old(self).total_tasks
                && old(self).permits_in_use() < old(self).concurrency),
            r matches Some(k) ==> k == old(self).admitted && final(self).admitted == old(
                self,
            ).admitted + 1,
            r is None ==> *final(self) == *old(self),
            final(self).permits_in_use() <= final(self).concurrency,
    {
        if self.admitted < self.total_tasks && self.admitted - self.completed < self.concurrency {
            let k = self.admitted;
            self.admitted = self.admitted + 1;
            Some(k)
        } else {
            None
        }
    }

    /// Records that one admitted task finished, releasing its permit. A
    /// task's failure is invisible here: completion is counted the same
    /// for every outcome kind.
    pub fn complete_task(&mut self)
        requires
            old(self).wf(),
            old(self).permits_in_use() > 0,
        ensures
            final(self).wf(),
            final(self).completed == old(self).completed + 1,
            final(self).permits_in_use() == old(self).permits_in_use() - 1,
            final(self).admitted == old(self).admitted,
            final(self).concurrency == old(self).concurrency,
            final(self).total_tasks == old(self).total_tasks,
            final(self).ticks_started == old(self).ticks_started,
    {
        self.completed = self.completed + 1;
    }
}

/// Concurrency bound: in every well-formed scheduler state — and every
/// method keeps states well formed — at most `concurrency` tasks hold an
/// unreleased permit.
pub proof fn lemma_concurrency_bound(p: Poller)
    requires
        p.wf(),
    ensures
        p.permits_in_use() <= p.concurrency,
{
}

/// Tick atomicity: any state from which a new tick may begin has every
/// task of the current tick completed and no permit outstanding, so the
/// first admission of tick N+1 comes after the last completion of tick N.
pub proof fn lemma_tick_atomicity(p: Poller)
    requires
        p.wf(),
        p.spec_tick_done(),
    ensures
        p.completed == p.total_tasks,
        p.permits_in_use() == 0,
{
}

/// An empty task set keeps ticking: with no tasks, a tick is done the
/// moment it begins, so the scheduler may begin the next tick on schedule
/// and never stalls or divides by anything.
pub proof fn lemma_empty_tick(p: Poller)
    requires
        p.wf(),
        p.total_tasks == 0,
    ensures
        p.spec_tick_done(),
{
}

} // verus!
