use vstd::prelude::*;

verus! {

/// Admission of a fixed list of `total` tasks, numbered from zero in order,
/// with at most `limit` of them running at once: a task starts only while
/// fewer than `limit` run, and the next one waits for a running one to finish.
#[derive(Debug)]
pub struct FanOut {
    limit: usize,
    total: usize,
    started: usize,
    finished: usize,
}

impl FanOut {
    pub closed spec fn limit(&self) -> int {
        self.limit as int
    }

    pub closed spec fn total(&self) -> int {
        self.total as int
    }

    /// How many tasks have started so far.
    pub closed spec fn started(&self) -> int {
        self.started as int
    }

    /// How many started tasks have finished.
    pub closed spec fn finished(&self) -> int {
        self.finished as int
    }

    pub open spec fn in_flight(&self) -> int {
        self.started() - self.finished()
    }

    /// At least one task may run, and never more run than `limit`.
    pub open spec fn wf(&self) -> bool {
        &&& 1 <= self.limit()
        &&& 0 <= self.finished() <= self.started() <= self.total()
        &&& self.in_flight() <= self.limit()
    }

    pub fn new(limit: usize, total: usize) -> (f: FanOut)
        requires
            limit >= 1,
        ensures
            f.wf(),
            f.limit() == limit,
            f.total() == total,
            f.started() == 0,
            f.finished() == 0,
    {
        FanOut { limit, total, started: 0, finished: 0 }
    }

    /// Starts the next task when one is left and a slot is free, returning its
    /// number; else `None` and nothing changes.
    pub fn try_start(&mut self) -> (r: Option<usize>)
        requires
            old(self).wf(),
        ensures
            final(self).wf(),
            final(self).limit() == old(self).limit(),
            final(self).total() == old(self).total(),
            final(self).finished() == old(self).finished(),
            final(self).in_flight() <= final(self).limit(),
            if old(self).started() < old(self).total() && old(self).in_flight() < old(self).limit() {
                &&& r == Some(old(self).started() as usize)
                &&& final(self).started() == old(self).started() + 1
            } else {
                &&& r is None
                &&& final(self).started() == old(self).started()
            },
    {
        if self.started < self.total && self.started - self.finished < self.limit {
            let n = self.started;
            self.started = self.started + 1;
            Some(n)
        } else {
            None
        }
    }

    /// Appends one task to the list, numbered after all others, unless the
    /// list is as long as a count can be. Returns whether it was appended.
    pub fn add(&mut self) -> (r: bool)
        requires
            old(self).wf(),
        ensures
            final(self).wf(),
            final(self).limit() == old(self).limit(),
            final(self).started() == old(self).started(),
            final(self).finished() == old(self).finished(),
            r == (old(self).total() < usize::MAX),
            final(self).total() == old(self).total() + if r {
                1int
            } else {
                0int
            },
    {
        if self.total < usize::MAX {
            self.total = self.total + 1;
            true
        } else {
            false
        }
    }

    /// Records that one running task has finished, which frees its slot.
    pub fn finish(&mut self)
        requires
            old(self).wf(),
            old(self).in_flight() > 0,
        ensures
            final(self).wf(),
            final(self).limit() == old(self).limit(),
            final(self).total() == old(self).total(),
            final(self).started() == old(self).started(),
            final(self).finished() == old(self).finished() + 1,
    {
        self.finished = self.finished + 1;
    }

    /// How many tasks run now.
    pub fn running(&self) -> (r: usize)
        requires
            self.wf(),
        ensures
            r == self.in_flight(),
    {
        self.started - self.finished
    }

    /// Every task has started and finished.
    pub fn is_done(&self) -> (r: bool)
        requires
            self.wf(),
        ensures
            r == (self.finished() == self.total()),
    {
        self.finished == self.total
    }
}

} // verus!
