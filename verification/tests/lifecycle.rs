use arbiter_core::agent::Agent;
use arbiter_core::errors::ManagerError;
use arbiter_core::manager::Manager;
use arbiter_core::manager::StartEffect;
use arbiter_core::state::state_byte;
use arbiter_core::state::LifecycleState;

#[test]
fn new_manager() {
    let manager = Manager::new();
    assert!(manager.environments.is_empty());
}

#[test]
fn default_manager_is_empty() {
    let manager = Manager::default();
    assert!(manager.environments.is_empty());
    assert!(manager.worker_labels.is_empty());
}

#[test]
fn add_environment_stores_configuration() {
    let mut manager = Manager::new();
    let bits = (1.5f64).to_bits();
    assert!(manager
        .add_environment(&"alpha".to_string(), bits, 42)
        .is_ok());
    assert_eq!(manager.environments.len(), 1);
    let env = &manager.environments[0];
    assert_eq!(env.label, "alpha");
    assert_eq!(env.phase, LifecycleState::Initialization);
    assert_eq!(env.block_rate_bits, bits);
    assert_eq!(f64::from_bits(env.block_rate_bits), 1.5f64);
    assert_eq!(env.seed, 42);
    assert!(env.agents.is_empty());
}

#[test]
fn duplicate_label_rejected_and_first_unaffected() {
    let mut manager = Manager::new();
    assert!(manager
        .add_environment(&"alpha".to_string(), 7, 42)
        .is_ok());
    let second = manager.add_environment(&"alpha".to_string(), 99, 1);
    assert_eq!(second, Err(ManagerError::AlreadyExists));
    assert_eq!(manager.environments.len(), 1);
    assert_eq!(manager.environments[0].block_rate_bits, 7);
    assert_eq!(manager.environments[0].seed, 42);
}

#[test]
fn alpha_lifecycle_scenario() {
    let mut manager = Manager::new();
    let alpha = "alpha".to_string();
    let bits = (1.0f64).to_bits();
    assert!(manager.add_environment(&alpha, bits, 42).is_ok());

    let started = manager.start_environment(&alpha);
    assert!(matches!(started, Ok(StartEffect::Spawn(_))));
    assert_eq!(manager.environments[0].phase, LifecycleState::Running);

    let again = manager.start_environment(&alpha);
    assert!(matches!(again, Err(ManagerError::AlreadyRunning)));

    assert_eq!(manager.pause_environment(&alpha), Ok(()));
    assert_eq!(manager.environments[0].phase, LifecycleState::Paused);

    let paused_again = manager.pause_environment(&alpha);
    assert_eq!(paused_again, Err(ManagerError::AlreadyPaused));

    let resumed = manager.start_environment(&alpha);
    assert!(matches!(resumed, Ok(StartEffect::Resumed)));
    assert_eq!(manager.environments[0].phase, LifecycleState::Running);

    assert_eq!(manager.stop_environment(&alpha), Ok(()));
    assert_eq!(manager.environments[0].phase, LifecycleState::Stopped);
    assert!(manager.worker_labels.is_empty());

    let stopped_again = manager.stop_environment(&alpha);
    assert_eq!(stopped_again, Err(ManagerError::AlreadyStopped));
}

#[test]
fn unknown_label_not_found() {
    let mut manager = Manager::new();
    let missing = "missing".to_string();
    assert!(matches!(
        manager.start_environment(&missing),
        Err(ManagerError::NotFound)
    ));
    let agent = Agent::new("scout".to_string());
    assert_eq!(
        manager.add_agent(agent, &missing),
        Err(ManagerError::NotFound)
    );
    assert_eq!(
        manager.pause_environment(&missing),
        Err(ManagerError::NotFound)
    );
    assert_eq!(
        manager.stop_environment(&missing),
        Err(ManagerError::NotFound)
    );
}

#[test]
fn pause_before_start_rejected() {
    let mut manager = Manager::new();
    let beta = "beta".to_string();
    assert!(manager.add_environment(&beta, 0, 0).is_ok());
    assert_eq!(
        manager.pause_environment(&beta),
        Err(ManagerError::NotRunning)
    );
    assert_eq!(manager.environments[0].phase, LifecycleState::Initialization);
}

#[test]
fn stop_before_start_rejected() {
    let mut manager = Manager::new();
    let beta = "beta".to_string();
    assert!(manager.add_environment(&beta, 0, 0).is_ok());
    assert_eq!(
        manager.stop_environment(&beta),
        Err(ManagerError::NotRunning)
    );
    assert_eq!(manager.environments[0].phase, LifecycleState::Initialization);
}

#[test]
fn stopped_is_terminal() {
    let mut manager = Manager::new();
    let gamma = "gamma".to_string();
    assert!(manager.add_environment(&gamma, 0, 3).is_ok());
    assert!(manager.start_environment(&gamma).is_ok());
    assert_eq!(manager.stop_environment(&gamma), Ok(()));
    assert!(matches!(
        manager.start_environment(&gamma),
        Err(ManagerError::CannotRestartStopped)
    ));
    assert_eq!(
        manager.pause_environment(&gamma),
        Err(ManagerError::CannotPauseStopped)
    );
    assert_eq!(
        manager.stop_environment(&gamma),
        Err(ManagerError::AlreadyStopped)
    );
    assert_eq!(manager.environments[0].phase, LifecycleState::Stopped);
}

#[test]
fn agents_attach_while_initializing() {
    let mut manager = Manager::new();
    let alpha = "alpha".to_string();
    assert!(manager.add_environment(&alpha, 0, 0).is_ok());
    let agent = Agent::new("scout".to_string());
    assert_eq!(manager.add_agent(agent, &alpha), Ok(()));
    assert_eq!(manager.environments[0].agents.len(), 1);
    assert_eq!(manager.environments[0].agents[0].name, "scout");
}

#[test]
fn worker_record_tracks_live_environments() {
    let mut manager = Manager::new();
    let a = "a".to_string();
    let b = "b".to_string();
    assert!(manager.add_environment(&a, 0, 1).is_ok());
    assert!(manager.add_environment(&b, 0, 2).is_ok());
    assert!(manager.worker_labels.is_empty());
    assert!(manager.start_environment(&a).is_ok());
    assert_eq!(manager.worker_labels, vec!["a".to_string()]);
    assert!(manager.start_environment(&b).is_ok());
    assert_eq!(manager.worker_labels, vec!["a".to_string(), "b".to_string()]);
    assert!(manager.pause_environment(&a).is_ok());
    assert_eq!(manager.worker_labels, vec!["a".to_string(), "b".to_string()]);
    assert_eq!(manager.stop_environment(&a), Ok(()));
    assert_eq!(manager.worker_labels, vec!["b".to_string()]);
    assert_eq!(manager.stop_environment(&b), Ok(()));
    assert!(manager.worker_labels.is_empty());
}

#[test]
fn error_descriptions_match() {
    assert_eq!(
        ManagerError::AlreadyExists.describe(),
        "Environment already exists."
    );
    assert_eq!(
        ManagerError::NotFound.describe(),
        "Environment does not exist."
    );
    assert_eq!(
        ManagerError::AlreadyRunning.describe(),
        "Environment is already running."
    );
    assert_eq!(
        ManagerError::AlreadyPaused.describe(),
        "Environment is already paused."
    );
    assert_eq!(
        ManagerError::AlreadyStopped.describe(),
        "Environment is already stopped."
    );
    assert_eq!(
        ManagerError::NotRunning.describe(),
        "Environment is not running."
    );
    assert_eq!(
        ManagerError::CannotRestartStopped.describe(),
        "Environment is stopped and cannot be restarted."
    );
    assert_eq!(
        ManagerError::CannotPauseStopped.describe(),
        "Environment is stopped and cannot be paused."
    );
}

#[test]
fn state_bytes_are_distinct() {
    let bytes = [
        state_byte(LifecycleState::Initialization),
        state_byte(LifecycleState::Running),
        state_byte(LifecycleState::Paused),
        state_byte(LifecycleState::Stopped),
    ];
    assert_eq!(bytes, [0, 1, 2, 3]);
}
