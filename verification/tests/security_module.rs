use beejs::security_module::{EncryptionAlgorithm, EncryptionConfig, SandboxConfig, SecurityModule};
use beejs::str_map::StrMap;

fn sandbox_config() -> SandboxConfig {
    SandboxConfig {
        enabled: true,
        base_dir: "/tmp/sandbox".to_string(),
        max_memory: 512 * 1024 * 1024,
        max_cpu_time: 30,
        max_processes: 4,
        max_file_size: 1024 * 1024,
        allowed_paths: vec!["/tmp".to_string()],
        blocked_paths: vec!["/etc".to_string()],
        network_enabled: false,
        env_vars: StrMap::new(),
        blocked_env_vars: vec!["AWS_SECRET_ACCESS_KEY".to_string()],
    }
}

fn encryption_config() -> EncryptionConfig {
    EncryptionConfig {
        default_algorithm: EncryptionAlgorithm::AES256GCM,
        key_rotation_interval_days: 90,
        enable_hsm: false,
        backup_keys: true,
    }
}

#[test]
fn security_module_starts_empty() {
    let m = SecurityModule::new(sandbox_config(), encryption_config(), Ok(())).unwrap();
    assert_eq!(m.sandbox.config.base_dir, "/tmp/sandbox");
    assert!(m.sandbox.active_sandboxes.is_empty());
    assert_eq!(m.sandbox.resource_usage.active_count, 0);
    assert_eq!(m.sandbox.resource_usage.peak_memory, 0);
    assert_eq!(m.kms.keys.len(), 0);
    assert_eq!(m.kms.config.key_rotation_interval_days, 90);
    assert_eq!(m.kms.config.default_algorithm, EncryptionAlgorithm::AES256GCM);
}

#[test]
fn security_module_fails_without_base_dir() {
    let r = SecurityModule::new(sandbox_config(), encryption_config(), Err("permission denied".to_string()));
    assert_eq!(r.err(), Some("Failed to create sandbox base directory: permission denied".to_string()));
}
