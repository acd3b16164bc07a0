use beejs::cluster::{K8sManager, LoadLevel};
use beejs::container::{ContainerConfig, ContainerManager, ContainerStatus, VolumeMount};
use beejs::holographic::{CompressionMode, HolographicStorage, StorageError};
use beejs::immersive::{HapticConfig, HapticError, HapticFeedback, VoiceCommand, VoiceConfig, VoiceRecognition};
use beejs::team::{BalanceLevel, KnowledgeTracker, SkillAnalyzer, TeamCollaborationOptimizer, TeamMember, WorkloadBalancer};
use beejs::tenancy::{ResourceQuota, TenancyManager, TenantId, TenantStatus, TenantUpdates};

#[test]
fn test_build_image() {
    let manager = ContainerManager::new();
    assert_eq!(manager.build_image("v0.1.0").unwrap(), "beejs:v0.1.0");
}

#[test]
fn test_start_containers() {
    let manager = ContainerManager::new();
    let config = ContainerConfig::default();
    let handles = manager.start_containers(&config).unwrap();
    assert_eq!(handles.len(), config.replicas);
    assert_eq!(handles[0].port, config.port);
    assert_eq!(handles[2].id, "beejs-container-2");
}

#[test]
fn test_get_container_status() {
    let manager = ContainerManager::new();
    assert_eq!(manager.get_container_status("beejs-container-1").unwrap(), ContainerStatus::Running);
}

#[test]
fn test_container_config_default() {
    let config = ContainerConfig::default();
    assert_eq!(config.replicas, 3);
    assert_eq!(config.port, 8080);
    assert!(config.env.contains_key("BEEJS_ENV"));
}

#[test]
fn test_mount_volume() {
    let manager = ContainerManager::new();
    let volume = VolumeMount { source: "/data/beejs".to_string(), target: "/app/data".to_string(), read_only: false };
    assert!(manager.mount_volume("beejs-container-1", &volume).is_ok());
}

#[test]
fn test_check_container_health() {
    let manager = ContainerManager::new();
    assert!(manager.check_container_health("beejs-container-1").unwrap());
}

#[test]
fn autoscaling_steps() {
    let k8s = K8sManager::new("beejs".to_string());
    assert_eq!(k8s.next_replicas(3, LoadLevel::High), 4);
    assert_eq!(k8s.next_replicas(10, LoadLevel::High), 10);
    assert_eq!(k8s.next_replicas(3, LoadLevel::Low), 2);
    assert_eq!(k8s.next_replicas(2, LoadLevel::Low), 2);
    assert_eq!(k8s.next_replicas(5, LoadLevel::Normal), 5);
    assert_eq!(k8s.update_cluster("v0.2.0"), Ok(()));
    assert_eq!(k8s.rolling_update("v0.2.0"), Ok(()));
    assert_eq!(k8s.failover("beejs-node-2"), Ok(()));
    assert_eq!(k8s.delete_cluster(), Ok(()));
}

#[test]
fn voice_commands_register_by_phrase() {
    let mut voice = VoiceRecognition::new(VoiceConfig::default()).unwrap();
    assert!(!voice.wake_word_enabled());
    voice.register_command(VoiceCommand { phrase: "open".to_string(), action: "a".to_string() });
    voice.register_command(VoiceCommand { phrase: "open".to_string(), action: "b".to_string() });
    voice.register_command(VoiceCommand { phrase: "close".to_string(), action: "c".to_string() });
    assert_eq!(voice.command_count(), 2);
    voice.unregister_command("open");
    assert_eq!(voice.command_count(), 1);
    voice.start_listening().unwrap();
    assert!(voice.is_listening());
    voice.stop_listening();
    assert!(!voice.is_listening());
}

#[test]
fn haptic_actuator_bounds() {
    let mut haptic = HapticFeedback::new(HapticConfig::default()).unwrap();
    assert_eq!(haptic.actuator_count(), 16);
    assert!(haptic.set_actuator(15).is_ok());
    assert!(matches!(haptic.set_actuator(16), Err(HapticError::InvalidActuator(16))));
    assert_eq!(HapticError::InvalidActuator(16).to_string(), "无效的执行器: 16");
    haptic.play_pattern(10).unwrap();
    assert!(!haptic.is_active());
}

#[test]
fn holographic_defaults_and_errors() {
    assert_eq!(CompressionMode::default(), CompressionMode::Intelligent);
    assert_eq!(StorageError::NotFound("x".to_string()).to_string(), "未找到: x");
}

fn member(id: &str, workload: u32, skills: &[&str]) -> TeamMember {
    TeamMember {
        id: id.to_string(),
        name: id.to_string(),
        skills: skills.iter().map(|s| s.to_string()).collect(),
        current_workload: workload,
        availability: 100,
    }
}

#[test]
fn team_workload_classes_and_skills() {
    let team = vec![member("a", 90, &["rust"]), member("b", 50, &[]), member("c", 10, &["go", "rust"])];
    let balancer = WorkloadBalancer::new();
    assert_eq!(balancer.identify_overloaded_members(&team), vec!["a".to_string()]);
    assert_eq!(balancer.identify_underutilized_members(&team), vec!["c".to_string()]);
    let task = vec!["rust".to_string(), "go".to_string(), "sql".to_string()];
    let analyzer = SkillAnalyzer::new();
    assert_eq!(analyzer.analyze_skill_gaps(&task, &team[2].skills), vec!["sql".to_string()]);
    assert_eq!(analyzer.matched_skill_count(&task, &team[0].skills), 1);
}

fn quota(max_concurrent_executions: u32) -> ResourceQuota {
    ResourceQuota {
        max_clusters: 10,
        max_replicas_per_cluster: 5,
        max_memory_mb: 8192,
        max_storage_gb: 100,
        max_concurrent_executions,
    }
}

#[test]
fn test_create_tenant() {
    let mut manager = TenancyManager::new();
    let tenant_id = manager
        .create_tenant("test-tenant".to_string(), "test@example.com".to_string(), quota(20))
        .unwrap();
    let tenant = manager.get_tenant(&tenant_id).unwrap();
    assert_eq!(tenant.name, "test-tenant");
    assert_eq!(tenant.email, "test@example.com");
    assert_eq!(tenant.status, TenantStatus::Active);
}

#[test]
fn test_execution_context_creation() {
    let mut manager = TenancyManager::new();
    let tenant_id = manager
        .create_tenant("test-tenant".to_string(), "test@example.com".to_string(), quota(2))
        .unwrap();
    let context1 = manager.create_execution_context(&tenant_id, "cluster-1".to_string()).unwrap();
    assert_eq!(context1.tenant_id, tenant_id);
    let context2 = manager.create_execution_context(&tenant_id, "cluster-2".to_string()).unwrap();
    assert_eq!(context2.tenant_id, tenant_id);
    let result = manager.create_execution_context(&tenant_id, "cluster-3".to_string());
    assert!(result.is_err());
}

#[test]
fn tenant_ids_are_hyphenated_uuids() {
    let mut manager = TenancyManager::new();
    let id = manager.create_tenant("t".to_string(), "t@example.com".to_string(), quota(1)).unwrap();
    assert_eq!(id.0.len(), 36);
    for (i, c) in id.0.chars().enumerate() {
        if i == 8 || i == 13 || i == 18 || i == 23 {
            assert_eq!(c, '-');
        } else {
            assert!(c.is_ascii_hexdigit() && !c.is_ascii_uppercase());
        }
    }
}

#[test]
fn tenant_defaults_and_updates() {
    let mut manager = TenancyManager::new();
    let id = TenantId("acme".to_string());
    manager.register_tenant(TenantId("acme".to_string()), "Acme".to_string(), "ops@acme.test".to_string(), quota(3));
    let tenant = manager.get_tenant(&id).unwrap();
    assert_eq!(tenant.security_context.allowed_apis, vec!["*".to_string()]);
    assert_eq!(tenant.security_context.resource_limits.memory_limit_per_cluster_mb, 1024);
    assert_eq!(tenant.security_context.resource_limits.storage_limit_per_cluster_gb, 10);
    assert_eq!(tenant.security_context.resource_limits.network_bandwidth_limit_mbps, 100);
    assert!(tenant.security_context.rbac_roles.is_empty());
    assert_eq!(manager.get_resource_usage(&id).unwrap().concurrent_executions, 0);

    let updates = TenantUpdates::new().with_name("Acme Corp".to_string()).with_status(TenantStatus::Suspended);
    assert_eq!(manager.update_tenant(&id, updates), Ok(()));
    let tenant = manager.get_tenant(&id).unwrap();
    assert_eq!(tenant.name, "Acme Corp");
    assert_eq!(tenant.email, "ops@acme.test");
    assert_eq!(tenant.status, TenantStatus::Suspended);

    let missing = TenantId("nobody".to_string());
    assert_eq!(
        manager.update_tenant(&missing, TenantUpdates::new()),
        Err("Tenant not found: nobody".to_string())
    );
    assert_eq!(manager.check_quota_exceeded(&missing, false), Err("Tenant not found: nobody".to_string()));
    assert_eq!(manager.list_tenants().len(), 1);

    assert_eq!(manager.delete_tenant(&id), Ok(()));
    assert!(manager.get_tenant(&id).is_none());
    assert!(manager.get_resource_usage(&id).is_none());
    assert!(manager.list_tenants().is_empty());
}

#[test]
fn executions_take_and_free_slots() {
    let mut manager = TenancyManager::new();
    let id = TenantId("acme".to_string());
    manager.register_tenant(TenantId("acme".to_string()), "Acme".to_string(), "ops@acme.test".to_string(), quota(1));
    let first = manager.open_execution(&id, "c1".to_string(), "exec-1".to_string()).unwrap();
    assert_eq!(first.execution_id, "exec-1");
    assert_eq!(first.cluster_name, "c1");
    assert_eq!(
        manager.open_execution(&id, "c2".to_string(), "exec-2".to_string()).map(|_| ()),
        Err("Maximum concurrent executions reached".to_string())
    );
    assert_eq!(manager.check_quota_exceeded(&id, false), Ok(false));
    assert_eq!(manager.check_quota_exceeded(&id, true), Ok(true));
    assert_eq!(manager.cleanup_execution("exec-1"), Ok(()));
    assert_eq!(manager.get_resource_usage(&id).unwrap().concurrent_executions, 0);
    assert_eq!(manager.cleanup_execution("exec-1"), Err("Execution not found: exec-1".to_string()));
    assert!(manager.open_execution(&id, "c2".to_string(), "exec-2".to_string()).is_ok());
    let ghost = TenantId("ghost".to_string());
    assert_eq!(
        manager.create_execution_context(&ghost, "c".to_string()).map(|_| ()),
        Err("Tenant not found: ghost".to_string())
    );
}

#[test]
fn knowledge_records_and_overlap() {
    let mut tracker = KnowledgeTracker::new();
    tracker.record_learning_activity("alice", "rust", 10);
    tracker.record_learning_activity("alice", "go", 4);
    tracker.record_learning_activity("alice", "rust", 12);
    tracker.record_learning_activity("bob", "rust", 3);
    tracker.record_learning_activity("bob", "sql", 8);
    let mut alice = tracker.get_knowledge_graph("alice");
    alice.sort();
    assert_eq!(alice, vec![("go".to_string(), 4), ("rust".to_string(), 12)]);
    assert!(tracker.get_knowledge_graph("carol").is_empty());
    assert_eq!(tracker.knowledge_overlap_counts("alice", "bob"), (1, 3));
    assert_eq!(tracker.knowledge_overlap_counts("bob", "alice"), (1, 3));
    assert_eq!(tracker.knowledge_overlap_counts("alice", "carol"), (0, 2));
    assert_eq!(tracker.knowledge_overlap_counts("carol", "dave"), (0, 0));
}

#[test]
fn code_ownership_and_transfers() {
    let optimizer = TeamCollaborationOptimizer::new();
    let map = optimizer.analyze_code_ownership("/repo").unwrap();
    let paths: Vec<&str> = map.files.iter().map(|f| f.path.as_str()).collect();
    assert_eq!(paths, vec!["/repo/src/auth.rs", "/repo/src/api.rs", "/repo/src/db.rs"]);
    assert_eq!(map.files[1].owner_id, "DEV-002");
    assert_eq!(map.files[2].expertise_hundredths, 92);
    assert_eq!(map.owners[0].name, "Alice");
    assert_eq!(map.owners[1].ownership_percentage, 35);
    assert_eq!(map.knowledge_gaps, vec!["DevOps".to_string(), "Testing".to_string(), "Security".to_string()]);
    let transfers = optimizer.suggest_knowledge_transfer(&map).unwrap();
    assert_eq!(transfers.len(), 3);
    assert_eq!(transfers[1].skill_area, "Testing");
    assert_eq!(transfers[1].from_member_id, "DEV-001");
    assert_eq!(transfers[1].to_member_id, "DEV-002");
    assert_eq!(transfers[1].urgency, "Medium");
    assert_eq!(transfers[1].suggested_method, "Pair Programming");
}

#[test]
fn hologram_storage_round_trip() {
    let mut storage = HolographicStorage::new(CompressionMode::Intelligent, true).unwrap();
    assert_eq!(storage.count(), 0);
    storage.store("a", &[1, 2, 3]).unwrap();
    storage.store("b", &[9; 10]).unwrap();
    assert_eq!(storage.retrieve("a").unwrap(), vec![1, 2, 3]);
    assert_eq!(storage.count(), 2);
    assert_eq!(storage.total_size(), 13);
    assert_eq!(storage.compressed_size(), 13);
    storage.store("a", &[7]).unwrap();
    assert_eq!(storage.retrieve("a").unwrap(), vec![7]);
    assert_eq!(storage.total_size(), 14);
    assert_eq!(storage.delete("a").map_err(|e| e.to_string()), Ok(()));
    assert_eq!(storage.total_size(), 13);
    assert_eq!(storage.count(), 1);
    assert_eq!(storage.retrieve("a").map_err(|e| e.to_string()), Err("未找到: a".to_string()));
    assert_eq!(storage.delete("zzz").map_err(|e| e.to_string()), Err("未找到: zzz".to_string()));
}

#[test]
fn workload_report_suggestions() {
    let balancer = WorkloadBalancer::new();
    let over = vec!["a".to_string(), "b".to_string()];
    let under = vec!["c".to_string()];
    assert_eq!(
        balancer.balance_suggestions(&over, &under, BalanceLevel::Slight),
        vec![
            "建议将 a, b 的任务重新分配给其他团队成员".to_string(),
            "可以向 c 分配更多任务以提高效率".to_string(),
            "团队工作负载略有不平衡，可以适当调整".to_string(),
        ]
    );
    assert_eq!(balancer.balance_suggestions(&[], &[], BalanceLevel::Even), vec!["团队工作负载较为平衡".to_string()]);
    assert_eq!(
        balancer.balance_suggestions(&[], &under, BalanceLevel::Severe),
        vec!["可以向 c 分配更多任务以提高效率".to_string(), "团队工作负载严重不平衡，建议立即进行调整".to_string()]
    );
}

#[test]
fn test_restart_container() {
    let manager = ContainerManager::new();
    let result = manager.restart_container("beejs-container-1");
    assert!(result.is_ok());
}

#[test]
fn test_scale_containers() {
    let manager = ContainerManager::new();
    let result = manager.scale_containers(3, 5);
    assert!(result.is_ok());
}

#[test]
fn test_cleanup_containers() {
    let manager = ContainerManager::new();
    let result = manager.cleanup_containers();
    assert!(result.is_ok());
}

#[test]
fn test_create_k8s_manager() {
    let manager = K8sManager::new("test-namespace".to_string());
    assert_eq!(manager.namespace, "test-namespace");
}

#[test]
fn test_health_check() {
    let manager = K8sManager::new("beejs".to_string());
    let health = manager.check_node_health("beejs-node-1").unwrap();
    match health {
        beejs::cluster::HealthStatus::Healthy => {}
        _ => panic!("Expected healthy status"),
    }
}

#[test]
fn execution_context_carries_the_tenant_security_context() {
    let mut manager = TenancyManager::new();
    let id = manager.create_tenant("t".to_string(), "t@example.com".to_string(), quota(1)).unwrap();
    let context = manager.create_execution_context(&id, "c1".to_string()).unwrap();
    let tenant = manager.get_tenant(&id).unwrap();
    let sc = &context.security_context;
    assert_eq!(sc.resource_limits, tenant.security_context.resource_limits);
    assert_eq!(sc.resource_limits.memory_limit_per_cluster_mb, 1024);
    assert_eq!(sc.allowed_apis, vec!["*".to_string()]);
    assert_eq!(sc.network_policy.allowed_sources, vec!["*".to_string()]);
    assert!(sc.network_policy.ingress_allowed && sc.network_policy.egress_allowed);
    assert!(sc.rbac_roles.is_empty());
}
