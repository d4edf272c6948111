use arbiter_core::environment::worker_loop;
use arbiter_core::manager::Manager;
use arbiter_core::manager::StartEffect;

// The worker loop normally runs on a thread of the embedding runtime; these
// tests drive it on the test thread, in situations where it terminates.

#[test]
fn worker_exits_once_stopped() {
    let mut manager = Manager::new();
    let alpha = "alpha".to_string();
    manager.add_environment(&alpha, 0, 42).unwrap();
    let link = match manager.start_environment(&alpha).unwrap() {
        StartEffect::Spawn(link) => link,
        StartEffect::Resumed => panic!("expected a spawn, not a resume"),
    };
    manager.stop_environment(&alpha).unwrap();
    // The shared cell already holds the stop byte: the worker observes it
    // on its first poll and returns at once, doing no work.
    worker_loop(link);
    assert_eq!(manager.environments[0].ticks_now(), 0);
}

#[test]
fn resume_notification_reaches_an_empty_signal() {
    let mut manager = Manager::new();
    let alpha = "alpha".to_string();
    manager.add_environment(&alpha, 0, 42).unwrap();
    manager.start_environment(&alpha).unwrap();
    manager.pause_environment(&alpha).unwrap();
    // Resuming notifies the pause signal under its mutex; with no waiter
    // blocked this must simply return, leaving the environment running.
    assert!(matches!(
        manager.start_environment(&alpha),
        Ok(StartEffect::Resumed)
    ));
    manager.stop_environment(&alpha).unwrap();
}
