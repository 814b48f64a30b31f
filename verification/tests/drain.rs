use steel::drain::DrainBarrier;

#[test]
fn wait_releases_only_after_every_task_finished() {
    let mut barrier = DrainBarrier::new();
    // The simulation loop plus one connection's outbound and inbound tasks.
    let sim = barrier.register().unwrap();
    let outbound = barrier.register().unwrap();
    let inbound = barrier.register().unwrap();
    assert!(!barrier.wait_ready());
    barrier.close();
    assert!(!barrier.wait_ready());
    barrier.complete(outbound);
    barrier.complete(inbound);
    assert!(!barrier.wait_ready());
    barrier.complete(sim);
    assert!(barrier.wait_ready());
}

#[test]
fn wait_does_not_release_while_open() {
    let mut barrier = DrainBarrier::new();
    assert!(!barrier.wait_ready());
    let t = barrier.register().unwrap();
    barrier.complete(t);
    // Every task has finished, but the barrier was never closed.
    assert!(!barrier.wait_ready());
}

#[test]
fn registration_after_close_is_rejected() {
    let mut barrier = DrainBarrier::new();
    let t = barrier.register().unwrap();
    barrier.close();
    assert_eq!(barrier.register(), None);
    assert_eq!(barrier.task_count(), 1);
    barrier.complete(t);
    assert!(barrier.wait_ready());
    // Still rejected once drained.
    assert_eq!(barrier.register(), None);
}

#[test]
fn tasks_registered_just_before_close_are_awaited() {
    let mut barrier = DrainBarrier::new();
    let early = barrier.register().unwrap();
    let late = barrier.register().unwrap();
    barrier.close();
    barrier.complete(early);
    assert!(!barrier.wait_ready());
    barrier.complete(late);
    assert!(barrier.wait_ready());
}

#[test]
fn completing_a_task_twice_changes_nothing() {
    let mut barrier = DrainBarrier::new();
    let t = barrier.register().unwrap();
    barrier.complete(t);
    barrier.complete(t);
    barrier.close();
    assert!(barrier.wait_ready());
}
