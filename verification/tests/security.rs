use beejs::assoc::Registry;
use beejs::security::{SecurityManager, SecurityPolicy, SecurityResult, SecurityRule};
use beejs::str_map::StrMap;

#[test]
fn test_security_manager_creation() {
    let manager = SecurityManager::new();
    assert!(manager.policy_count() != 0);
}

#[test]
fn test_permissive_policy() {
    let manager = SecurityManager::new();
    let result = manager.check_permission("default", "execute_script", &StrMap::new());
    assert!(matches!(result, Ok(SecurityResult::Allowed)));
}

fn rule(name: &str, allowed: bool) -> SecurityRule {
    SecurityRule { name: name.to_string(), description: String::new(), allowed, conditions: Vec::new() }
}

#[test]
fn restrictive_policy_denies() {
    let mut manager = SecurityManager::new();
    manager.add_policy("locked".to_string(), SecurityPolicy::Restrictive);
    let result = manager.check_permission("locked", "read", &StrMap::new());
    assert_eq!(result, Ok(SecurityResult::Denied("Restrictive policy blocks operation".to_string())));
}

#[test]
fn custom_policy_uses_rules() {
    let mut manager = SecurityManager::new();
    let mut rules = Registry::new();
    rules.insert("read".to_string(), rule("reader", true));
    rules.insert("write".to_string(), rule("no-writes", false));
    manager.add_policy("custom".to_string(), SecurityPolicy::Custom(rules));
    let ctx = StrMap::new();
    assert_eq!(manager.check_permission("custom", "read", &ctx), Ok(SecurityResult::Allowed));
    assert_eq!(
        manager.check_permission("custom", "write", &ctx),
        Ok(SecurityResult::Denied("Operation 'write' denied by rule: no-writes".to_string()))
    );
    assert_eq!(
        manager.check_permission("custom", "delete", &ctx),
        Ok(SecurityResult::Denied("No rule found for operation: delete".to_string()))
    );
}

#[test]
fn unknown_policy_is_an_error() {
    let manager = SecurityManager::new();
    assert_eq!(manager.check_permission("nope", "x", &StrMap::new()), Err("Policy not found: nope".to_string()));
    assert_eq!(manager.get_audit_log().len(), 0);
}

#[test]
fn add_policy_replaces_same_name() {
    let mut manager = SecurityManager::new();
    manager.add_policy("default".to_string(), SecurityPolicy::Restrictive);
    assert_eq!(manager.policy_count(), 1);
    assert!(matches!(manager.check_permission("default", "x", &StrMap::new()), Ok(SecurityResult::Denied(_))));
}

#[test]
fn enterprise_manager_starts_fresh() {
    let enterprise = beejs::enterprise::EnterpriseManager::new();
    assert_eq!(enterprise.security().policy_count(), 1);
    assert!(enterprise.security().get_audit_log().is_empty());
    assert_eq!(enterprise.compliance().policies.list_policies().unwrap().len(), 0);
    let findings = enterprise
        .compliance()
        .checker
        .check(&beejs::compliance::ComplianceFramework::SOC2, "const x = 42;");
    assert!(findings.iter().any(|v| v.requirement_id == "SOC2-001"));
}

#[test]
fn custom_rule_for_an_operation_is_replaced() {
    let mut manager = SecurityManager::new();
    let mut rules = Registry::new();
    rules.insert("read".to_string(), rule("first", false));
    rules.insert("read".to_string(), rule("second", true));
    assert_eq!(rules.len(), 1);
    manager.add_policy("custom".to_string(), SecurityPolicy::Custom(rules));
    assert_eq!(manager.check_permission("custom", "read", &StrMap::new()), Ok(SecurityResult::Allowed));
}
