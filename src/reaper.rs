//! Registry of request tasks and their deadlines. Whoever runs the tasks
//! registers each one, reports those that finish, and at each sweep cancels
//! the ones the registry hands back as overdue.
use vstd::prelude::*;

verus! {

/// How long one request task may run, in milliseconds.
pub const REQUEST_TIMEOUT_MS: u64 = 10_000;

/// The deadline of a task spawned at `now`, `None` where it would not fit in a `u64`.
pub fn request_deadline(now: u64) -> (r: Option<u64>)
    ensures
        r == (if now + REQUEST_TIMEOUT_MS <= u64::MAX {
            Some((now + REQUEST_TIMEOUT_MS) as u64)
        } else {
            None::<u64>
        }),
{
    now.checked_add(REQUEST_TIMEOUT_MS)
}

/// Tasks of `s` whose deadline has come at `now`, in registration order.
pub open spec fn expired(s: Seq<(u64, u64)>, now: u64) -> Seq<u64>
    decreases s.len(),
{
    if s.len() == 0 {
        Seq::empty()
    } else if s.last().1 <= now {
        expired(s.drop_last(), now).push(s.last().0)
    } else {
        expired(s.drop_last(), now)
    }
}

/// Entries of `s` whose deadline is still ahead at `now`, in order.
pub open spec fn pending(s: Seq<(u64, u64)>, now: u64) -> Seq<(u64, u64)>
    decreases s.len(),
{
    if s.len() == 0 {
        Seq::empty()
    } else if s.last().1 <= now {
        pending(s.drop_last(), now)
    } else {
        pending(s.drop_last(), now).push(s.last())
    }
}

/// Entries of `s` other than those of `task`, in order.
pub open spec fn without(s: Seq<(u64, u64)>, task: u64) -> Seq<(u64, u64)>
    decreases s.len(),
{
    if s.len() == 0 {
        Seq::empty()
    } else if s.last().0 == task {
        without(s.drop_last(), task)
    } else {
        without(s.drop_last(), task).push(s.last())
    }
}

/// Registered tasks, as (task, deadline) pairs in order of registration.
pub struct Reaper {
    entries: Vec<(u64, u64)>,
}

impl View for Reaper {
    type V = Seq<(u64, u64)>;

    closed spec fn view(&self) -> Seq<(u64, u64)> {
        self.entries@
    }
}

impl Reaper {
    pub fn new() -> (r: Reaper)
        ensures
            r@ == Seq::<(u64, u64)>::empty(),
    {
        Reaper { entries: Vec::new() }
    }

    pub fn len(&self) -> (r: usize)
        ensures
            r == self@.len(),
    {
        self.entries.len()
    }

    /// Registers `task`, to be cancelled once `deadline` has come.
    pub fn add(&mut self, task: u64, deadline: u64)
        ensures
            final(self)@ == old(self)@.push((task, deadline)),
    {
        self.entries.push((task, deadline));
    }

    /// Forgets `task`, which has finished.
    pub fn finished(&mut self, task: u64)
        ensures
            final(self)@ == without(old(self)@, task),
    {
        let mut kept: Vec<(u64, u64)> = Vec::new();
        let mut i: usize = 0;
        while i < self.entries.len()
            invariant
                i <= self.entries@.len(),
                kept@ == without(self.entries@.subrange(0, i as int), task),
            decreases self.entries@.len() - i,
        {
            let e = self.entries[i];
            proof {
                let s = self.entries@.subrange(0, i + 1);
                assert(s.drop_last() =~= self.entries@.subrange(0, i as int));
            }
            if e.0 != task {
                kept.push(e);
            }
            i += 1;
        }
        assert(self.entries@.subrange(0, self.entries@.len() as int) =~= self.entries@);
        self.entries = kept;
    }

    /// Removes and returns the tasks whose deadline has come at `now`; they
    /// are to be cancelled.
    pub fn sweep(&mut self, now: u64) -> (r: Vec<u64>)
        ensures
            r@ == expired(old(self)@, now),
            final(self)@ == pending(old(self)@, now),
    {
        let mut due: Vec<u64> = Vec::new();
        let mut kept: Vec<(u64, u64)> = Vec::new();
        let mut i: usize = 0;
        while i < self.entries.len()
            invariant
                i <= self.entries@.len(),
                due@ == expired(self.entries@.subrange(0, i as int), now),
                kept@ == pending(self.entries@.subrange(0, i as int), now),
            decreases self.entries@.len() - i,
        {
            let e = self.entries[i];
            proof {
                let s = self.entries@.subrange(0, i + 1);
                assert(s.drop_last() =~= self.entries@.subrange(0, i as int));
            }
            if e.1 <= now {
                due.push(e.0);
            } else {
                kept.push(e);
            }
            i += 1;
        }
        assert(self.entries@.subrange(0, self.entries@.len() as int) =~= self.entries@);
        self.entries = kept;
        due
    }
}

} // verus!
