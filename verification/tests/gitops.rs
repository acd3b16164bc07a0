use beejs::gitops::{
    default_sync_policies, default_validation_rules, BranchName, ChangeType, ConfigChange, ConfigReconciler,
    Environment, GitClient, GitOpsEngine, RepositoryUrl, SyncStatus,
};
use std::time::SystemTime;

fn client() -> GitClient {
    GitClient::new(
        RepositoryUrl("https://github.com/example/repo.git".to_string()),
        "/tmp/repo",
        BranchName("main".to_string()),
    )
}

fn change(message: &str, files: Vec<String>, change_type: ChangeType, env: Environment) -> ConfigChange {
    ConfigChange {
        id: uuid::Uuid::new_v4(),
        timestamp: SystemTime::now(),
        author: "test-user".to_string(),
        message: message.to_string(),
        files,
        change_type,
        target_environment: env,
    }
}

#[test]
fn test_git_client_creation() {
    let client = client();
    assert_eq!(client.get_path(), "/tmp/repo");
}

#[test]
fn test_gitops_engine_sync() {
    let git_client = client();
    let reconciler = ConfigReconciler::new(git_client.duplicate(), default_validation_rules(), default_sync_policies());
    let mut engine = GitOpsEngine::new(git_client, reconciler);
    let result = engine.sync_configuration("https://github.com/example/repo.git").unwrap();
    assert!(matches!(result.status, SyncStatus::Success));
    assert_eq!(engine.get_sync_history().len(), 1);
}

#[test]
fn test_validate_change() {
    let git_client = client();
    let reconciler = ConfigReconciler::new(git_client.duplicate(), default_validation_rules(), default_sync_policies());
    let c = change(
        "Test configuration change",
        vec!["config.yaml".to_string()],
        ChangeType::Update,
        Environment::Development,
    );
    let result = reconciler.validate_change(&c).unwrap();
    assert!(result.valid);
}

#[test]
fn test_create_change() {
    let git_client = client();
    let reconciler = ConfigReconciler::new(git_client.duplicate(), default_validation_rules(), default_sync_policies());
    let mut engine = GitOpsEngine::new(git_client, reconciler);
    let change_id = engine
        .create_change("test-user", "Test change", vec!["config.yaml".to_string()], ChangeType::Update, Environment::Development)
        .unwrap();
    assert!(engine.get_change(change_id).is_some());
    assert_eq!(engine.get_pending_changes().len(), 1);
}

#[test]
fn production_rules() {
    let reconciler = ConfigReconciler::new(client(), default_validation_rules(), default_sync_policies());
    let c = change("short", vec!["a".to_string()], ChangeType::Delete, Environment::Production);
    let r = reconciler.validate_change(&c).unwrap();
    assert!(!r.valid);
    assert_eq!(
        r.errors,
        vec![
            "Production environment does not allow deletions".to_string(),
            "Production changes require detailed commit messages".to_string(),
        ]
    );
}

#[test]
fn empty_changes_fail_required_files() {
    let reconciler = ConfigReconciler::new(client(), default_validation_rules(), default_sync_policies());
    let c = change("a long enough message", vec![], ChangeType::Delete, Environment::Staging);
    let r = reconciler.validate_change(&c).unwrap();
    assert_eq!(
        r.errors,
        vec![
            "Rule 'required_files' failed: Check for required configuration files".to_string(),
            "No files changed".to_string(),
        ]
    );
    assert_eq!(
        r.warnings,
        vec![
            "Rule 'environment_match' warning: Ensure environment-specific configs are correct".to_string(),
            "Rule 'resource_limits' warning: Check resource limits are within bounds".to_string(),
            "Deleting files in staging environment".to_string(),
        ]
    );
}

#[test]
fn apply_needs_approval_outside_development() {
    let reconciler = ConfigReconciler::new(client(), default_validation_rules(), default_sync_policies());
    let mut engine = GitOpsEngine::new(client(), reconciler);
    let staged = engine
        .create_change("u", "a long enough message", vec!["f".to_string()], ChangeType::Update, Environment::Staging)
        .unwrap();
    assert_eq!(engine.apply_change(staged), Err("Manual approval required".to_string()));
    let dev = engine
        .create_change("u", "a long enough message", vec!["f".to_string()], ChangeType::Update, Environment::Development)
        .unwrap();
    assert_eq!(engine.apply_change(dev), Ok(()));
    assert!(engine.get_change(dev).is_none());
    assert!(engine.get_change(staged).is_some());
    assert_eq!(engine.apply_change(dev), Err("Configuration change not found".to_string()));
    engine.rollback_change(staged).unwrap();
    assert_eq!(engine.get_pending_changes().len(), 0);
}

#[test]
fn invalid_change_is_refused_with_errors() {
    let reconciler = ConfigReconciler::new(client(), default_validation_rules(), default_sync_policies());
    let mut engine = GitOpsEngine::new(client(), reconciler);
    let id = engine.create_change("u", "m", vec![], ChangeType::Create, Environment::Development).unwrap();
    let err = engine.apply_change(id).unwrap_err();
    assert!(err.starts_with("Configuration change validation failed: ["));
    assert!(err.contains("No files changed"));
}

#[test]
fn pending_changes_are_ordered_by_id() {
    let reconciler = ConfigReconciler::new(client(), default_validation_rules(), default_sync_policies());
    let mut engine = GitOpsEngine::new(client(), reconciler);
    for _ in 0..5 {
        engine.create_change("u", "m", vec!["f".to_string()], ChangeType::Update, Environment::Development).unwrap();
    }
    let ids: Vec<u128> = engine.get_pending_changes().iter().map(|(k, _)| k.0.as_u128()).collect();
    let mut sorted = ids.clone();
    sorted.sort();
    assert_eq!(ids, sorted);
    assert_eq!(ids.len(), 5);
}

#[test]
fn sync_policy_lookup() {
    let reconciler = ConfigReconciler::new(client(), default_validation_rules(), default_sync_policies());
    assert_eq!(reconciler.get_sync_policy(&Environment::Production).unwrap().name, "production_policy");
    assert!(reconciler.get_sync_policy(&Environment::Development).unwrap().auto_sync);
}

#[test]
fn production_message_length_counts_bytes() {
    let reconciler = ConfigReconciler::new(client(), default_validation_rules(), default_sync_policies());
    let c = change("ééééé", vec!["a".to_string()], ChangeType::Update, Environment::Production);
    let r = reconciler.validate_change(&c).unwrap();
    assert!(r.valid);
    let c = change("éééé", vec!["a".to_string()], ChangeType::Update, Environment::Production);
    let r = reconciler.validate_change(&c).unwrap();
    assert_eq!(r.errors, vec!["Production changes require detailed commit messages".to_string()]);
}
