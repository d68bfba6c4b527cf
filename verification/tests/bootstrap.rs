use enron_classifier::bootstrap::backend_resource_identifier;
use enron_classifier::bootstrap::BootError;
use enron_classifier::bootstrap::BootPhase;
use enron_classifier::bootstrap::Bootstrapper;
use enron_classifier::greeting::greet;

#[test]
fn resource_identifier_names_the_bundled_backend() {
    assert_eq!(backend_resource_identifier(), "bin/flask-backend");
}

#[test]
fn successful_run_ends_spawned_and_leaves_the_handler_callable() {
    let mut boot = Bootstrapper::new();
    assert_eq!(boot.current_phase(), BootPhase::NotStarted);

    let resolved = Some(String::from("/opt/app/resources/bin/flask-backend"));
    let path = boot.on_resolution(resolved).expect("a resolved path must be accepted");
    assert_eq!(path, "/opt/app/resources/bin/flask-backend");
    assert_eq!(boot.current_phase(), BootPhase::Resolved);

    boot.on_spawn(true).expect("a successful spawn must complete startup");
    assert_eq!(boot.current_phase(), BootPhase::Spawned);

    assert_eq!(greet("Ada"), "Hello, Ada! You've been greeted from Rust!");
}

#[test]
fn unresolved_path_aborts_startup() {
    let mut boot = Bootstrapper::new();
    let outcome = boot.on_resolution(None);
    assert_eq!(outcome, Err(BootError::ResourcePathUnresolved));
    assert_eq!(boot.current_phase(), BootPhase::NotStarted);
}

#[test]
fn failed_spawn_aborts_startup() {
    let mut boot = Bootstrapper::new();
    let resolved = Some(String::from("/opt/app/resources/bin/flask-backend"));
    boot.on_resolution(resolved).expect("a resolved path must be accepted");

    let outcome = boot.on_spawn(false);
    assert_eq!(outcome, Err(BootError::SpawnFailed));
    assert_eq!(boot.current_phase(), BootPhase::Resolved);
}

#[test]
fn each_error_carries_its_diagnostic() {
    assert_eq!(
        BootError::ResourcePathUnresolved.message(),
        "Failed to resolve resource path"
    );
    assert_eq!(BootError::SpawnFailed.message(), "Failed to launch Flask backend");
}
