//! The lifecycle controller: the top-level object owning the root
//! cancellation signal and the bind address. `start` decides what the
//! startup spawns once the bind outcome is known — binding itself is socket
//! work the application performs — and `stop` signals the root, idempotently.

use vstd::prelude::*;

use crate::acceptor::{accept_init, Acceptor};
use crate::drain::{register_model, DrainBarrier};
use crate::signal::{cancel_root, SignalHierarchy, SignalModel};

verus! {

/// Mathematical view of the controller: the cancellation hierarchy and the
/// configured bind port.
#[verifier::ext_equal]
pub struct ServerModel {
    /// The root cancellation signal and its per-connection child scopes.
    pub signals: SignalModel,
    /// The configured listen port; the listen address itself is fixed to the
    /// unspecified interface.
    pub port: u16,
}

/// Effect of `stop`: the root signal is cancelled; nothing else changes.
pub open spec fn stop_model(m: ServerModel) -> ServerModel {
    ServerModel { signals: cancel_root(m.signals), port: m.port }
}

/// A fatal startup error, surfaced to the caller.
#[derive(Clone, Copy, Debug, PartialEq, Eq)]
pub enum StartError {
    /// The listening socket could not be bound at the configured address.
    BindFailed,
}

/// The lifecycle controller. The shared server-state collaborator that the
/// simulation loop and the connection actors read is external to this core
/// and stays with the application; the controller owns what the core
/// decides over: the signal hierarchy and the bind port.
pub struct SteelServer {
    /// The root cancellation signal and its child scopes, for graceful
    /// shutdown.
    pub signals: SignalHierarchy,
    /// The port of the server's listen address.
    pub bind_port: u16,
}

impl View for SteelServer {
    type V = ServerModel;

    open spec fn view(&self) -> ServerModel {
        ServerModel { signals: self.signals@, port: self.bind_port }
    }
}

impl SteelServer {
    /// Construct the controller: creates the root cancellation signal. Does
    /// not bind a socket and does not start accepting.
    pub fn new(bind_port: u16) -> (s: Self)
        ensures
            s@ == (ServerModel {
                signals: SignalModel { root: false, kids: Seq::<bool>::empty() },
                port: bind_port,
            }),
    {
        SteelServer { signals: SignalHierarchy::new(), bind_port }
    }

    /// Decide the startup once the bind outcome is known. On a successful
    /// bind, the simulation loop is registered with the drain barrier as a
    /// background unit of work and the acceptor is handed back for the
    /// application to drive — `start` returns once that is done, without
    /// waiting for the server to finish initializing. A failed bind is
    /// fatal: startup aborts with an error, no acceptor exists, and neither
    /// the controller nor the barrier has changed.
    pub fn start(&mut self, barrier: &mut DrainBarrier, bind_ok: bool) -> (r: Result<
        (Acceptor, usize),
        StartError,
    >)
        requires
            !old(barrier)@.closed,
        ensures
            r is Ok <==> bind_ok,
            !bind_ok ==> r == Result::<(Acceptor, usize), StartError>::Err(StartError::BindFailed)
                && final(self)@ == old(self)@ && final(barrier)@ == old(barrier)@,
            r matches Ok((acceptor, sim_task)) ==> acceptor@ == accept_init() && acceptor.wf()
                && sim_task == old(barrier)@.finished.len() && final(barrier)@ == register_model(
                old(barrier)@,
            ) && final(self)@ == old(self)@,
    {
        if !bind_ok {
            return Err(StartError::BindFailed);
        }
        let sim_task = match barrier.register() {
            Some(id) => id,
            None => {
                // The barrier is open by precondition; registration cannot
                // have been rejected.
                assert(false);
                0
            },
        };
        Ok((Acceptor::new(), sim_task))
    }

    /// Signal the root cancellation signal. Idempotent: calling it again, or
    /// before `start`, has no effect beyond leaving the signal cancelled. It
    /// never fails and does not block; confirmation of full shutdown is the
    /// drain barrier's business.
    pub fn stop(&mut self)
        ensures
            final(self)@ == stop_model(old(self)@),
    {
        self.signals.cancel();
    }

    /// Whether the root signal has been cancelled.
    pub fn is_stopping(&self) -> (r: bool)
        ensures
            r == self@.signals.root,
    {
        self.signals.is_cancelled()
    }
}

/// `stop` is idempotent: stopping an already stopped controller changes
/// nothing — same signal state, same children, same port.
pub proof fn lemma_stop_is_idempotent(m: ServerModel)
    ensures
        stop_model(stop_model(m)) == stop_model(m),
{
}

} // verus!
