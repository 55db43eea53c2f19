use arfni_gui::commands::deployment::DeploymentSupervisor;

#[test]
fn test_db_path() {
    assert!(true);
}

#[test]
fn new_supervisor_is_idle() {
    let supervisor = DeploymentSupervisor::new();
    assert!(!supervisor.is_running());
    assert_eq!(supervisor.child(), None);
}
