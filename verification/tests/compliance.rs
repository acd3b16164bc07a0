use beejs::compliance::{
    assess, ComplianceChecker, ComplianceFramework, ComplianceFrameworkConfig, ComplianceFrameworks, ComplianceManager,
    ComplianceSeverity, CompliancePolicy, EnforcementLevel, FrameworkCheck, GDPRCheck,
};

#[test]
fn test_compliance_frameworks() {
    let mut manager = ComplianceFrameworks::new();
    let config = ComplianceFrameworkConfig {
        framework: ComplianceFramework::GDPR,
        requirements: Vec::new(),
        version: "1.0".to_string(),
        effective_date: std::time::SystemTime::now(),
    };
    manager.register_framework(config).unwrap();
    let frameworks = manager.list_frameworks().unwrap();
    assert!(frameworks.contains(&"GDPR".to_string()));
}

#[test]
fn test_gdpr_compliance_check() {
    let checker = ComplianceChecker::new();
    let framework = ComplianceFramework::GDPR;
    let script = r#"
localStorage.setItem('user_data', 'sensitive');
fetch('/api/data');
"#;
    let violations = checker.check(&framework, script);
    assert!(!violations.is_empty());
    assert!(violations.iter().any(|v| v.requirement_id == "GDPR-001"));
}

#[test]
fn test_hipaa_compliance_check() {
    let checker = ComplianceChecker::new();
    let framework = ComplianceFramework::HIPAA;
    let script = "const data = 'patient_info';";
    let violations = checker.check(&framework, script);
    assert!(!violations.is_empty());
    assert!(violations.iter().any(|v| v.requirement_id == "HIPAA-001"));
}

#[test]
fn test_soc2_compliance_check() {
    let checker = ComplianceChecker::new();
    let framework = ComplianceFramework::SOC2;
    let script = "const x = 42;";
    let violations = checker.check(&framework, script);
    assert!(!violations.is_empty());
    assert!(violations.iter().any(|v| v.requirement_id == "SOC2-001"));
}

#[test]
fn gdpr_finds_both_storage_and_transfer_in_order() {
    let v = GDPRCheck.check("sessionStorage.x; new XMLHttpRequest()");
    assert_eq!(v.len(), 2);
    assert_eq!(v[0].requirement_id, "GDPR-001");
    assert_eq!(v[0].severity, ComplianceSeverity::High);
    assert_eq!(v[1].requirement_id, "GDPR-002");
    assert!(GDPRCheck.check("").is_empty());
}

#[test]
fn encrypted_and_logged_scripts_pass() {
    let checker = ComplianceChecker::new();
    assert!(checker.check(&ComplianceFramework::HIPAA, "crypto.subtle").is_empty());
    assert!(checker.check(&ComplianceFramework::SOC2, "logger.info()").is_empty());
    assert!(checker.check(&ComplianceFramework::ISO27001, "anything").is_empty());
    assert_eq!(checker.check(&ComplianceFramework::Custom("HIPAA".to_string()), "x").len(), 1);
}

#[test]
fn assessment_counts_and_recommends() {
    let manager = ComplianceManager::new();
    let a = manager.assess_compliance("localStorage; fetch(1)", &ComplianceFramework::GDPR);
    assert_eq!(a.high_count, 1);
    assert_eq!(a.medium_count, 1);
    assert_eq!(a.critical_count, 0);
    assert_eq!(a.framework_title, "GDPR");
    assert_eq!(a.recommendations[0], "Data Storage Consent: Implement explicit user consent for data storage");
    let b = assess(&ComplianceFramework::PCI_DSS, Vec::new());
    assert_eq!(b.framework_title, "PCI DSS");
    assert!(b.recommendations.is_empty());
}

#[test]
fn policy_engine_registry() {
    let mut manager = ComplianceManager::new();
    let policy = CompliancePolicy {
        name: "p1".to_string(),
        framework: ComplianceFramework::SOX,
        rules: Vec::new(),
        enforcement_level: EnforcementLevel::Strict,
    };
    manager.add_policy(policy).unwrap();
    assert!(manager.policies.get_policy("p1").is_ok());
    assert_eq!(manager.policies.get_policy("p2").err(), Some("Policy 'p2' not found".to_string()));
    assert_eq!(manager.frameworks.get_framework("GDPR").err(), Some("Framework 'GDPR' not found".to_string()));
}
