//! The drain barrier: a close-then-join latch over a dynamically growing set
//! of background units of work. Registration is rejected once the barrier is
//! closed, and a shutdown waiter is released only when the barrier is closed
//! and every unit ever registered has finished.

use vstd::prelude::*;

verus! {

/// Mathematical view of the barrier: the closed flag together with one
/// completion flag per registered unit of work, in registration order.
#[verifier::ext_equal]
pub struct DrainModel {
    /// Whether the barrier has been closed against further registration.
    pub closed: bool,
    /// One flag per registered unit, true once that unit has finished.
    pub finished: Seq<bool>,
}

/// Every registered unit of work has finished.
pub open spec fn all_finished(m: DrainModel) -> bool {
    forall|i: int| 0 <= i < m.finished.len() ==> m.finished[i]
}

/// The condition that releases a waiter: the barrier is closed and no
/// registered unit of work is still outstanding.
pub open spec fn drained(m: DrainModel) -> bool {
    m.closed && all_finished(m)
}

/// Effect of registering one unit of work on an open barrier.
pub open spec fn register_model(m: DrainModel) -> DrainModel {
    DrainModel { closed: m.closed, finished: m.finished.push(false) }
}

/// Effect of unit `i` finishing.
pub open spec fn complete_model(m: DrainModel, i: int) -> DrainModel {
    DrainModel { closed: m.closed, finished: m.finished.update(i, true) }
}

/// Effect of closing the barrier.
pub open spec fn close_model(m: DrainModel) -> DrainModel {
    DrainModel { closed: true, finished: m.finished }
}

/// The barrier itself.
pub struct DrainBarrier {
    closed: bool,
    finished: Vec<bool>,
}

impl View for DrainBarrier {
    type V = DrainModel;

    closed spec fn view(&self) -> DrainModel {
        DrainModel { closed: self.closed, finished: self.finished@ }
    }
}

impl DrainBarrier {
    /// A fresh barrier: open, with nothing registered.
    pub fn new() -> (b: Self)
        ensures
            b@ == (DrainModel { closed: false, finished: Seq::<bool>::empty() }),
    {
        DrainBarrier { closed: false, finished: Vec::new() }
    }

    /// Register one unit of work. While the barrier is open this yields the
    /// unit's identifier; once the barrier is closed, registration is
    /// rejected and the barrier is left untouched, so a rejected unit can
    /// never be awaited.
    pub fn register(&mut self) -> (r: Option<usize>)
        ensures
            old(self)@.closed ==> r is None && final(self)@ == old(self)@,
            !old(self)@.closed ==> (r matches Some(id) && id == old(self)@.finished.len())
                && final(self)@ == register_model(old(self)@),
    {
        if self.closed {
            None
        } else {
            let id = self.finished.len();
            self.finished.push(false);
            Some(id)
        }
    }

    /// Record that the registered unit `id` has finished. Finishing is
    /// terminal: recording it twice changes nothing further.
    pub fn complete(&mut self, id: usize)
        requires
            id < old(self)@.finished.len(),
        ensures
            final(self)@ == complete_model(old(self)@, id as int),
    {
        self.finished[id] = true;
    }

    /// Close the barrier: no further unit of work may be registered. The
    /// units already registered are unaffected.
    pub fn close(&mut self)
        ensures
            final(self)@ == close_model(old(self)@),
    {
        self.closed = true;
    }

    /// Whether a waiter would be released now: in the running system the
    /// wait suspends the caller until exactly this condition holds.
    pub fn wait_ready(&self) -> (r: bool)
        ensures
            r == drained(self@),
    {
        if !self.closed {
            return false;
        }
        let mut i: usize = 0;
        while i < self.finished.len()
            invariant
                i <= self.finished@.len(),
                self@.closed,
                forall|j: int| 0 <= j < i ==> self.finished@[j],
            decreases self.finished@.len() - i,
        {
            if !self.finished[i] {
                assert(!self@.finished[i as int]);
                return false;
            }
            i += 1;
        }
        true
    }

    /// How many units of work have been registered over the barrier's life.
    pub fn task_count(&self) -> (n: usize)
        ensures
            n == self@.finished.len(),
    {
        self.finished.len()
    }

    /// Whether the barrier has been closed.
    pub fn is_closed(&self) -> (r: bool)
        ensures
            r == self@.closed,
    {
        self.closed
    }
}

/// A released waiter really saw the whole drain: once `drained` holds, every
/// unit of work ever registered — however long after construction and however
/// close to the closing it was registered — has finished.
pub proof fn lemma_drained_implies_every_task_finished(m: DrainModel, id: int)
    requires
        drained(m),
        0 <= id < m.finished.len(),
    ensures
        m.closed,
        m.finished[id],
{
}

/// Closing loses no unit of work and finishes none by itself: the completion
/// flags after closing are exactly those before.
pub proof fn lemma_close_preserves_tasks(m: DrainModel)
    ensures
        close_model(m).finished == m.finished,
        close_model(m).closed,
{
}

} // verus!
