use steel::acceptor::{AcceptAction, AcceptEvent, Acceptor};
use steel::drain::DrainBarrier;
use steel::server::StartError;
use steel::SteelServer;

fn accept_one(server: &mut SteelServer, acceptor: &mut Acceptor) -> AcceptAction {
    acceptor.handle_event(&mut server.signals, AcceptEvent::Incoming)
}

#[test]
fn bind_unavailable_aborts_start() {
    let mut server = SteelServer::new(25565);
    let mut barrier = DrainBarrier::new();
    let r = server.start(&mut barrier, false);
    assert_eq!(r.err(), Some(StartError::BindFailed));
    // No accept loop was spawned and nothing was registered.
    assert_eq!(barrier.task_count(), 0);
    assert!(!barrier.is_closed());
    assert!(!server.is_stopping());
}

#[test]
fn three_connections_get_sequential_ids() {
    let mut server = SteelServer::new(25565);
    let mut barrier = DrainBarrier::new();
    let (mut acceptor, sim_task) = server.start(&mut barrier, true).unwrap();
    assert_eq!(sim_task, 0);
    for expected in 0u32..3u32 {
        let action = accept_one(&mut server, &mut acceptor);
        assert_eq!(
            action,
            AcceptAction::Spawn { client_id: expected, child_signal: expected as usize }
        );
    }
    assert_eq!(acceptor.next_client_id(), 3);
    assert!(!acceptor.is_done());
}

#[test]
fn stop_twice_is_a_noop() {
    let mut server = SteelServer::new(25565);
    let _ = server.signals.child_scope();
    server.stop();
    assert!(server.is_stopping());
    server.stop();
    assert!(server.is_stopping());
    assert_eq!(server.signals.child_count(), 1);
}

#[test]
fn stop_before_start_only_leaves_signal_cancelled() {
    let mut server = SteelServer::new(25565);
    server.stop();
    assert!(server.is_stopping());
    let mut barrier = DrainBarrier::new();
    let r = server.start(&mut barrier, true);
    assert!(r.is_ok());
}

#[test]
fn cancellation_before_any_accept_terminates_with_none() {
    let mut server = SteelServer::new(25565);
    let mut barrier = DrainBarrier::new();
    let (mut acceptor, _sim) = server.start(&mut barrier, true).unwrap();
    server.stop();
    let action = acceptor.handle_event(&mut server.signals, AcceptEvent::Cancelled);
    assert_eq!(action, AcceptAction::Terminate);
    assert!(acceptor.is_done());
    // No identifier was ever handed out.
    assert_eq!(server.signals.child_count(), 0);
}

#[test]
fn transient_accept_failure_does_not_stop_later_accepts() {
    let mut server = SteelServer::new(25565);
    let mut acceptor = Acceptor::new();
    let a = acceptor.handle_event(&mut server.signals, AcceptEvent::AcceptFailed);
    assert_eq!(a, AcceptAction::Retry);
    assert!(!acceptor.is_done());
    let b = accept_one(&mut server, &mut acceptor);
    assert_eq!(b, AcceptAction::Spawn { client_id: 0, child_signal: 0 });
    let c = acceptor.handle_event(&mut server.signals, AcceptEvent::AcceptFailed);
    assert_eq!(c, AcceptAction::Retry);
    let d = accept_one(&mut server, &mut acceptor);
    assert_eq!(d, AcceptAction::Spawn { client_id: 1, child_signal: 1 });
}

#[test]
fn identifiers_are_unique_across_a_long_run() {
    let mut server = SteelServer::new(25565);
    let mut acceptor = Acceptor::new();
    let mut seen = Vec::new();
    for expected in 0u32..500u32 {
        match accept_one(&mut server, &mut acceptor) {
            AcceptAction::Spawn { client_id, child_signal } => {
                assert_eq!(client_id, expected);
                assert_eq!(child_signal, expected as usize);
                seen.push(client_id);
            }
            other => panic!("expected a spawn, got {other:?}"),
        }
    }
    seen.sort_unstable();
    seen.dedup();
    assert_eq!(seen.len(), 500);
}

#[test]
fn acceptor_terminates_regardless_of_progress() {
    let mut server = SteelServer::new(25565);
    let mut acceptor = Acceptor::new();
    let _ = accept_one(&mut server, &mut acceptor);
    let _ = accept_one(&mut server, &mut acceptor);
    let action = acceptor.handle_event(&mut server.signals, AcceptEvent::Cancelled);
    assert_eq!(action, AcceptAction::Terminate);
    assert!(acceptor.is_done());
}
