//! The cancellation hierarchy: one root signal for the whole server and one
//! child scope per accepted connection. Cancelling the root is observed by
//! every child; cancelling a child touches neither the root nor any sibling.

use vstd::prelude::*;

verus! {

/// Mathematical view of a cancellation hierarchy: the root flag together
/// with each child scope's own flag, in the order the scopes were derived.
#[verifier::ext_equal]
pub struct SignalModel {
    /// Whether the root signal has been cancelled.
    pub root: bool,
    /// Each child scope's own flag, true once that scope itself was cancelled.
    pub kids: Seq<bool>,
}

/// A child scope reports cancelled exactly when the root has been cancelled
/// or the scope itself has: the hierarchy is wired by construction, the root
/// never calls back into its children.
pub open spec fn child_cancelled(m: SignalModel, i: int) -> bool {
    m.root || m.kids[i]
}

/// Effect of cancelling the root signal: a one-way transition of the root
/// flag; the children's own flags are untouched.
pub open spec fn cancel_root(m: SignalModel) -> SignalModel {
    SignalModel { root: true, kids: m.kids }
}

/// Effect of cancelling the child scope `i` alone.
pub open spec fn cancel_kid(m: SignalModel, i: int) -> SignalModel {
    SignalModel { root: m.root, kids: m.kids.update(i, true) }
}

/// Effect of deriving a fresh child scope: its own flag starts clear, so it
/// reports exactly the root's state until it is cancelled itself.
pub open spec fn new_kid(m: SignalModel) -> SignalModel {
    SignalModel { root: m.root, kids: m.kids.push(false) }
}

/// The cancellation hierarchy itself. Children hold no state of their own
/// beyond one flag: what a child reports is always recomputed from the root
/// flag and its own, so root cancellation needs no traversal to propagate.
pub struct SignalHierarchy {
    root_cancelled: bool,
    child_flags: Vec<bool>,
}

impl View for SignalHierarchy {
    type V = SignalModel;

    closed spec fn view(&self) -> SignalModel {
        SignalModel { root: self.root_cancelled, kids: self.child_flags@ }
    }
}

impl SignalHierarchy {
    /// A fresh hierarchy: root not cancelled, no child scopes yet.
    pub fn new() -> (s: Self)
        ensures
            s@ == (SignalModel { root: false, kids: Seq::<bool>::empty() }),
    {
        SignalHierarchy { root_cancelled: false, child_flags: Vec::new() }
    }

    /// How many child scopes have been derived so far.
    pub fn child_count(&self) -> (n: usize)
        ensures
            n == self@.kids.len(),
    {
        self.child_flags.len()
    }

    /// Cancel the root signal. Irreversible: no operation of the hierarchy
    /// clears a flag again.
    pub fn cancel(&mut self)
        ensures
            final(self)@ == cancel_root(old(self)@),
    {
        self.root_cancelled = true;
    }

    /// Derive a fresh child scope from the root and return its index.
    pub fn child_scope(&mut self) -> (id: usize)
        ensures
            final(self)@ == new_kid(old(self)@),
            id == old(self)@.kids.len(),
    {
        let id = self.child_flags.len();
        self.child_flags.push(false);
        id
    }

    /// Cancel one child scope only, for single-connection teardown.
    pub fn cancel_child(&mut self, id: usize)
        requires
            id < old(self)@.kids.len(),
        ensures
            final(self)@ == cancel_kid(old(self)@, id as int),
    {
        self.child_flags[id] = true;
    }

    /// Whether the root signal has been cancelled.
    pub fn is_cancelled(&self) -> (r: bool)
        ensures
            r == self@.root,
    {
        self.root_cancelled
    }

    /// Whether the child scope `id` observes cancellation, through the root
    /// or through its own flag.
    pub fn child_is_cancelled(&self, id: usize) -> (r: bool)
        requires
            id < self@.kids.len(),
        ensures
            r == child_cancelled(self@, id as int),
    {
        self.root_cancelled || self.child_flags[id]
    }
}

/// Cancelling the root signal is observed by every child scope, however many
/// are active and even though each was derived independently.
pub proof fn lemma_cancel_reaches_all_children(m: SignalModel, i: int)
    requires
        0 <= i < m.kids.len(),
    ensures
        child_cancelled(cancel_root(m), i),
{
}

/// Cancelling one child scope affects neither the root nor any sibling:
/// every other scope reports exactly what it reported before.
pub proof fn lemma_child_cancel_is_scoped(m: SignalModel, i: int, j: int)
    requires
        0 <= i < m.kids.len(),
        0 <= j < m.kids.len(),
        j != i,
    ensures
        cancel_kid(m, i).root == m.root,
        child_cancelled(cancel_kid(m, i), j) == child_cancelled(m, j),
{
}

/// Root cancellation is terminal: once the root flag is set, no operation of
/// the hierarchy clears it again.
pub proof fn lemma_cancellation_is_terminal(m: SignalModel, i: int)
    requires
        m.root,
    ensures
        cancel_root(m).root,
        cancel_kid(m, i).root,
        new_kid(m).root,
{
}

} // verus!
