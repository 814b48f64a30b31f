//! The connection acceptor: a single long-running loop with two wake
//! sources, raced each iteration — the root cancellation signal and the
//! listening socket. The decisions of one iteration are a function from the
//! acceptor's state and the observed event to the next state and an action;
//! the application performs the action (spawning the connection's tasks,
//! logging a transient failure, terminating) and hands back the next event.

use vstd::arithmetic::div_mod::{
    lemma_add_mod_noop, lemma_mod_bound, lemma_mod_equivalence, lemma_mod_self_0, lemma_small_mod,
};
use vstd::prelude::*;

use crate::signal::{new_kid, SignalHierarchy};

verus! {

/// Number of distinct client identifiers: identifiers are assigned from an
/// unsigned 32-bit counter and wrap around once it is exhausted.
pub const ID_SPACE: u64 = 0x1_0000_0000;

/// What one iteration of the accept loop observed, whichever of the two wake
/// sources was ready first.
#[derive(Clone, Copy, Debug)]
pub enum AcceptEvent {
    /// The root cancellation signal was observed.
    Cancelled,
    /// A new inbound connection was accepted.
    Incoming,
    /// A single accept call failed with a transient error.
    AcceptFailed,
}

/// What the accept loop decides to do in response.
#[derive(Clone, Copy, Debug, PartialEq, Eq)]
pub enum AcceptAction {
    /// Leave the loop, await the simulation loop's completion, and finish.
    Terminate,
    /// Log the transient failure and return to the loop head; accept
    /// failures are never fatal to the server.
    Retry,
    /// Tune the socket for low latency (non-fatal if that fails), construct
    /// the connection actor, and start its outbound and inbound tasks, both
    /// registered with the drain barrier and both observing child scope
    /// `child_signal`.
    Spawn { client_id: u32, child_signal: usize },
}

/// Mathematical view of the acceptor: whether the loop has terminated, and
/// the identifiers handed out so far, in acceptance order.
#[verifier::ext_equal]
pub struct AcceptorModel {
    /// Whether cancellation has been observed and the loop has exited.
    pub done: bool,
    /// Every client identifier assigned so far, in acceptance order.
    pub accepted: Seq<u32>,
}

/// The identifier the next accepted connection receives: the acceptance
/// count, reduced modulo the identifier space.
pub open spec fn next_client_id_of(accepted: Seq<u32>) -> u32 {
    (accepted.len() as int % (ID_SPACE as int)) as u32
}

/// The acceptor's state when the loop starts: running, nothing accepted.
pub open spec fn accept_init() -> AcceptorModel {
    AcceptorModel { done: false, accepted: Seq::<u32>::empty() }
}

/// One iteration of the accept loop, as a transition on the model.
pub open spec fn accept_step(m: AcceptorModel, e: AcceptEvent) -> AcceptorModel {
    if m.done {
        m
    } else {
        match e {
            AcceptEvent::Cancelled => AcceptorModel { done: true, accepted: m.accepted },
            AcceptEvent::Incoming => AcceptorModel {
                done: false,
                accepted: m.accepted.push(next_client_id_of(m.accepted)),
            },
            AcceptEvent::AcceptFailed => m,
        }
    }
}

/// A whole run of the accept loop over a sequence of observed events.
pub open spec fn accept_run(m: AcceptorModel, es: Seq<AcceptEvent>) -> AcceptorModel
    decreases es.len(),
{
    if es.len() == 0 {
        m
    } else {
        accept_run(accept_step(m, es[0]), es.drop_first())
    }
}

/// The acceptor itself: the wrapping identifier counter and the loop flag.
/// The identifiers already handed out are carried as ghost history so the
/// contracts can speak about the whole run.
pub struct Acceptor {
    next_client_id: u32,
    done: bool,
    accepted: Ghost<Seq<u32>>,
}

impl View for Acceptor {
    type V = AcceptorModel;

    closed spec fn view(&self) -> AcceptorModel {
        AcceptorModel { done: self.done, accepted: self.accepted@ }
    }
}

impl Acceptor {
    /// The counter agrees with the history: it always holds the identifier
    /// the next accepted connection will receive.
    pub closed spec fn wf(self) -> bool {
        self.next_client_id as int == self@.accepted.len() as int % (ID_SPACE as int)
    }

    /// A fresh acceptor: running, nothing accepted, identifiers from zero.
    pub fn new() -> (a: Self)
        ensures
            a@ == accept_init(),
            a.wf(),
    {
        proof {
            lemma_small_mod(0, ID_SPACE as nat);
        }
        Acceptor { next_client_id: 0, done: false, accepted: Ghost(Seq::empty()) }
    }

    /// Whether cancellation has been observed and the loop has exited.
    pub fn is_done(&self) -> (r: bool)
        ensures
            r == self@.done,
    {
        self.done
    }

    /// The identifier the next accepted connection will receive.
    pub fn next_client_id(&self) -> (r: u32)
        requires
            self.wf(),
        ensures
            r == next_client_id_of(self@.accepted),
    {
        self.next_client_id
    }

    /// One iteration of the accept loop. On acceptance this assigns the next
    /// client identifier (post-increment, wraparound allowed) and derives a
    /// child cancellation scope from the root; on observed cancellation it
    /// terminates regardless of pending accepts; on a transient accept
    /// failure it changes nothing and the loop goes on.
    pub fn handle_event(&mut self, signals: &mut SignalHierarchy, event: AcceptEvent) -> (action:
        AcceptAction)
        requires
            old(self).wf(),
            !old(self)@.done,
        ensures
            final(self).wf(),
            final(self)@ == accept_step(old(self)@, event),
            event is Cancelled ==> final(signals)@ == old(signals)@ && action
                == AcceptAction::Terminate,
            event is AcceptFailed ==> final(signals)@ == old(signals)@ && action
                == AcceptAction::Retry,
            event is Incoming ==> final(signals)@ == new_kid(old(signals)@) && action
                == (AcceptAction::Spawn {
                client_id: next_client_id_of(old(self)@.accepted),
                child_signal: old(signals)@.kids.len() as usize,
            }),
    {
        match event {
            AcceptEvent::Cancelled => {
                self.done = true;
                AcceptAction::Terminate
            },
            AcceptEvent::AcceptFailed => AcceptAction::Retry,
            AcceptEvent::Incoming => {
                let id = self.next_client_id;
                let child = signals.child_scope();
                self.next_client_id = if id == 0xFFFF_FFFFu32 {
                    0
                } else {
                    id + 1
                };
                proof {
                    let w = ID_SPACE as int;
                    let l = old(self)@.accepted.len() as int;
                    lemma_add_mod_noop(l, 1, w);
                    lemma_small_mod(1, ID_SPACE as nat);
                    if id == 0xFFFF_FFFFu32 {
                        lemma_mod_self_0(w);
                    } else {
                        lemma_small_mod((l % w + 1) as nat, ID_SPACE as nat);
                    }
                }
                self.accepted = Ghost(self.accepted@.push(id));
                AcceptAction::Spawn { client_id: id, child_signal: child }
            },
        }
    }
}

/// The identifiers a run hands out are canonical: position `i` of the
/// history always carries identifier `i` reduced modulo the identifier
/// space.
pub open spec fn ids_canonical(ids: Seq<u32>) -> bool {
    forall|i: int| 0 <= i < ids.len() ==> ids[i] as int == i % (ID_SPACE as int)
}

/// One iteration preserves canonical identifiers.
pub proof fn lemma_step_preserves_canonical(m: AcceptorModel, e: AcceptEvent)
    requires
        ids_canonical(m.accepted),
    ensures
        ids_canonical(accept_step(m, e).accepted),
{
    let ids = accept_step(m, e).accepted;
    if !m.done && e is Incoming {
        let l = m.accepted.len() as int;
        lemma_mod_bound(l, ID_SPACE as int);
        assert forall|i: int| 0 <= i < ids.len() implies ids[i] as int == i % (
        ID_SPACE as int) by {
            if i < l {
                assert(ids[i] == m.accepted[i]);
            }
        }
    }
}

/// For every sequence of observed events, the identifiers the accept loop
/// hands out are canonical — the ground fact behind uniqueness and ordering.
pub proof fn lemma_run_ids_canonical(m: AcceptorModel, es: Seq<AcceptEvent>)
    requires
        ids_canonical(m.accepted),
    ensures
        ids_canonical(accept_run(m, es).accepted),
    decreases es.len(),
{
    if es.len() > 0 {
        lemma_step_preserves_canonical(m, es[0]);
        lemma_run_ids_canonical(accept_step(m, es[0]), es.drop_first());
    }
}

/// Client identifiers are assigned in strictly increasing order modulo
/// wraparound: each accepted connection's identifier is its predecessor's
/// plus one, reduced modulo the identifier space.
pub proof fn lemma_client_ids_strictly_increasing(ids: Seq<u32>, i: int)
    requires
        ids_canonical(ids),
        0 <= i,
        i + 1 < ids.len(),
    ensures
        ids[i + 1] as int == (ids[i] as int + 1) % (ID_SPACE as int),
{
    let w = ID_SPACE as int;
    lemma_add_mod_noop(i, 1, w);
    lemma_small_mod(1, ID_SPACE as nat);
}

/// No two connections of a single run that have not wrapped share an
/// identifier: any two acceptance positions less than the identifier space
/// apart receive distinct identifiers.
pub proof fn lemma_client_ids_unique_before_wraparound(ids: Seq<u32>, i: int, j: int)
    requires
        ids_canonical(ids),
        0 <= i < j < ids.len(),
        j - i < ID_SPACE,
    ensures
        ids[i] != ids[j],
{
    let w = ID_SPACE as int;
    if ids[i] == ids[j] {
        lemma_mod_equivalence(j, i, w);
        lemma_small_mod((j - i) as nat, ID_SPACE as nat);
        assert(false);
    }
}

/// Cancellation observed before any connection has been accepted terminates
/// the acceptor without it having accepted any connection.
pub proof fn lemma_cancelled_before_any_accept(m: AcceptorModel)
    requires
        m.accepted.len() == 0,
    ensures
        accept_step(m, AcceptEvent::Cancelled).done,
        accept_step(m, AcceptEvent::Cancelled).accepted.len() == 0,
{
}

/// A transient accept failure is never fatal: it leaves the acceptor's state
/// untouched, the loop running, and any later event is handled exactly as if
/// the failure had not happened.
pub proof fn lemma_accept_failure_is_transient(m: AcceptorModel, e: AcceptEvent)
    requires
        !m.done,
    ensures
        accept_step(m, AcceptEvent::AcceptFailed) == m,
        !accept_step(m, AcceptEvent::AcceptFailed).done,
        accept_step(accept_step(m, AcceptEvent::AcceptFailed), e) == accept_step(m, e),
{
}

} // verus!
