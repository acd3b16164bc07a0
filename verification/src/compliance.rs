//! Compliance checking of scripts against regulatory frameworks, and the
//! registries of frameworks and policies.

use vstd::prelude::*;
use crate::assoc::{Registry, names_of, assoc_map, keys_distinct, lemma_assoc_absent, lemma_assoc_lookup, lemma_assoc_push, lemma_assoc_update};
use crate::text::{contains_text, has_substring, owned, str_eq};

verus! {

/// A regulatory framework.
#[derive(Debug, Clone)]
#[allow(non_camel_case_types)]
pub enum ComplianceFramework {
    GDPR,
    HIPAA,
    SOC2,
    ISO27001,
    PCI_DSS,
    CCPA,
    SOX,
    FedRAMP,
    Custom(String),
}

/// The key under which a framework is registered and checked.
pub open spec fn framework_key(f: ComplianceFramework) -> Seq<char> {
    match f {
        ComplianceFramework::GDPR => "GDPR"@,
        ComplianceFramework::HIPAA => "HIPAA"@,
        ComplianceFramework::SOC2 => "SOC2"@,
        ComplianceFramework::ISO27001 => "ISO27001"@,
        ComplianceFramework::PCI_DSS => "PCI_DSS"@,
        ComplianceFramework::CCPA => "CCPA"@,
        ComplianceFramework::SOX => "SOX"@,
        ComplianceFramework::FedRAMP => "FedRAMP"@,
        ComplianceFramework::Custom(name) => name@,
    }
}

/// The name of a framework in reports.
pub open spec fn framework_title(f: ComplianceFramework) -> Seq<char> {
    match f {
        ComplianceFramework::PCI_DSS => "PCI DSS"@,
        _ => framework_key(f),
    }
}

/// The key of a framework.
pub fn framework_key_of(f: &ComplianceFramework) -> (r: String)
    ensures
        r@ == framework_key(*f),
{
    match f {
        ComplianceFramework::GDPR => owned("GDPR"),
        ComplianceFramework::HIPAA => owned("HIPAA"),
        ComplianceFramework::SOC2 => owned("SOC2"),
        ComplianceFramework::ISO27001 => owned("ISO27001"),
        ComplianceFramework::PCI_DSS => owned("PCI_DSS"),
        ComplianceFramework::CCPA => owned("CCPA"),
        ComplianceFramework::SOX => owned("SOX"),
        ComplianceFramework::FedRAMP => owned("FedRAMP"),
        ComplianceFramework::Custom(name) => name.clone(),
    }
}

/// The report title of a framework.
pub fn framework_title_of(f: &ComplianceFramework) -> (r: String)
    ensures
        r@ == framework_title(*f),
{
    match f {
        ComplianceFramework::PCI_DSS => owned("PCI DSS"),
        _ => framework_key_of(f),
    }
}

/// The kind of a control.
#[derive(Debug, Clone, Copy, PartialEq, Eq, Structural)]
pub enum ControlType {
    Preventive,
    Detective,
    Corrective,
    Directive,
}

/// How grave a violation is.
#[derive(Debug, Clone, Copy, PartialEq, Eq, Structural)]
pub enum ComplianceSeverity {
    Critical,
    High,
    Medium,
    Low,
    Informational,
}

/// One requirement of a framework.
#[derive(Debug, Clone)]
pub struct ComplianceRequirement {
    pub id: String,
    pub framework: ComplianceFramework,
    pub title: String,
    pub description: String,
    pub control_type: ControlType,
    pub severity: ComplianceSeverity,
    pub check_function: String,
}

/// A registered framework with its requirements.
#[derive(Debug, Clone)]
pub struct ComplianceFrameworkConfig {
    pub framework: ComplianceFramework,
    pub requirements: Vec<ComplianceRequirement>,
    pub version: String,
    pub effective_date: std::time::SystemTime,
}

/// How strictly a policy is enforced.
#[derive(Debug, Clone, Copy, PartialEq, Eq, Structural)]
pub enum EnforcementLevel {
    Strict,
    Warning,
    Advisory,
    Disabled,
}

/// One rule of a compliance policy.
#[derive(Debug, Clone)]
pub struct ComplianceRule {
    pub id: String,
    pub name: String,
    pub check: String,
    pub remediation: String,
    pub documentation_url: Option<String>,
}

/// A named set of rules for a framework.
#[derive(Debug, Clone)]
pub struct CompliancePolicy {
    pub name: String,
    pub framework: ComplianceFramework,
    pub rules: Vec<ComplianceRule>,
    pub enforcement_level: EnforcementLevel,
}

/// The verdict of a compliance check.
#[derive(Debug, Clone, Copy, PartialEq, Eq, Structural)]
pub enum ComplianceStatus {
    Compliant,
    NonCompliant,
    PartiallyCompliant,
    Unknown,
}

/// One finding of a check.
#[derive(Debug, Clone)]
pub struct ComplianceViolation {
    pub requirement_id: String,
    pub requirement_title: String,
    pub severity: ComplianceSeverity,
    pub description: String,
    pub location: String,
    pub remediation: String,
}

/// A finding by its texts: id, title, severity, description, location,
/// remediation.
pub type Finding = (Seq<char>, Seq<char>, ComplianceSeverity, Seq<char>, Seq<char>, Seq<char>);

/// The texts of a violation.
pub open spec fn finding_of(v: ComplianceViolation) -> Finding {
    (v.requirement_id@, v.requirement_title@, v.severity, v.description@, v.location@, v.remediation@)
}

/// The texts of a list of violations.
pub open spec fn findings(v: Seq<ComplianceViolation>) -> Seq<Finding> {
    v.map_values(|x: ComplianceViolation| finding_of(x))
}

/// What the GDPR check finds in a script.
pub open spec fn gdpr_findings(script: Seq<char>) -> Seq<Finding> {
    let storage: Seq<Finding> = if has_substring(script, "localStorage"@) || has_substring(script, "sessionStorage"@) {
        seq![(
            "GDPR-001"@,
            "Data Storage Consent"@,
            ComplianceSeverity::High,
            "Code may store data in browser storage without explicit consent"@,
            "storage_access"@,
            "Implement explicit user consent for data storage"@,
        )]
    } else {
        Seq::empty()
    };
    let transfer: Seq<Finding> = if has_substring(script, "fetch("@) || has_substring(script, "XMLHttpRequest"@) {
        seq![(
            "GDPR-002"@,
            "Data Transfer"@,
            ComplianceSeverity::Medium,
            "Code may transmit data to external servers"@,
            "network_request"@,
            "Ensure data transfer is compliant with GDPR"@,
        )]
    } else {
        Seq::empty()
    };
    storage + transfer
}

/// What the HIPAA check finds in a script.
pub open spec fn hipaa_findings(script: Seq<char>) -> Seq<Finding> {
    if !has_substring(script, "encrypt"@) && !has_substring(script, "crypto"@) {
        seq![(
            "HIPAA-001"@,
            "Data Encryption"@,
            ComplianceSeverity::Critical,
            "No encryption detected for PHI (Protected Health Information)"@,
            "encryption_check"@,
            "Implement encryption for all PHI"@,
        )]
    } else {
        Seq::empty()
    }
}

/// What the SOC2 check finds in a script.
pub open spec fn soc2_findings(script: Seq<char>) -> Seq<Finding> {
    if !has_substring(script, "console.log"@) && !has_substring(script, "log"@) {
        seq![(
            "SOC2-001"@,
            "Audit Logging"@,
            ComplianceSeverity::Medium,
            "No logging detected for audit trail"@,
            "logging_check"@,
            "Implement comprehensive logging"@,
        )]
    } else {
        Seq::empty()
    }
}

fn violation(
    id: &str,
    title: &str,
    severity: ComplianceSeverity,
    description: &str,
    location: &str,
    remediation: &str,
) -> (v: ComplianceViolation)
    ensures
        finding_of(v) == (id@, title@, severity, description@, location@, remediation@),
{
    ComplianceViolation {
        requirement_id: owned(id),
        requirement_title: owned(title),
        severity,
        description: owned(description),
        location: owned(location),
        remediation: owned(remediation),
    }
}

/// A check of scripts against one framework.
pub trait FrameworkCheck {
    /// The framework checked.
    fn framework(&self) -> ComplianceFramework;

    /// The violations found in `script`.
    fn check(&self, script: &str) -> Vec<ComplianceViolation>;
}

/// Browser storage and network transfer, under GDPR.
#[derive(Debug)]
pub struct GDPRCheck;

/// Encryption of health information, under HIPAA.
#[derive(Debug)]
pub struct HIPAACheck;

/// Audit logging, under SOC2.
#[derive(Debug)]
pub struct SOC2Check;

impl GDPRCheck {
    /// The violations found in `script`.
    pub fn run(&self, script: &str) -> (r: Vec<ComplianceViolation>)
        ensures
            findings(r@) == gdpr_findings(script@),
    {
        let mut violations: Vec<ComplianceViolation> = Vec::new();
        if contains_text(script, "localStorage") || contains_text(script, "sessionStorage") {
            violations.push(violation(
                "GDPR-001",
                "Data Storage Consent",
                ComplianceSeverity::High,
                "Code may store data in browser storage without explicit consent",
                "storage_access",
                "Implement explicit user consent for data storage",
            ));
        }
        let ghost first = violations@;
        if contains_text(script, "fetch(") || contains_text(script, "XMLHttpRequest") {
            violations.push(violation(
                "GDPR-002",
                "Data Transfer",
                ComplianceSeverity::Medium,
                "Code may transmit data to external servers",
                "network_request",
                "Ensure data transfer is compliant with GDPR",
            ));
        }
        assert(findings(violations@) =~= gdpr_findings(script@));
        violations
    }
}

impl FrameworkCheck for GDPRCheck {
    fn framework(&self) -> (f: ComplianceFramework)
        ensures
            f is GDPR,
    {
        ComplianceFramework::GDPR
    }

    fn check(&self, script: &str) -> (r: Vec<ComplianceViolation>)
        ensures
            findings(r@) == gdpr_findings(script@),
    {
        self.run(script)
    }
}

impl HIPAACheck {
    /// The violations found in `script`.
    pub fn run(&self, script: &str) -> (r: Vec<ComplianceViolation>)
        ensures
            findings(r@) == hipaa_findings(script@),
    {
        let mut violations: Vec<ComplianceViolation> = Vec::new();
        if !contains_text(script, "encrypt") && !contains_text(script, "crypto") {
            violations.push(violation(
                "HIPAA-001",
                "Data Encryption",
                ComplianceSeverity::Critical,
                "No encryption detected for PHI (Protected Health Information)",
                "encryption_check",
                "Implement encryption for all PHI",
            ));
        }
        assert(findings(violations@) =~= hipaa_findings(script@));
        violations
    }
}

impl FrameworkCheck for HIPAACheck {
    fn framework(&self) -> (f: ComplianceFramework)
        ensures
            f is HIPAA,
    {
        ComplianceFramework::HIPAA
    }

    fn check(&self, script: &str) -> (r: Vec<ComplianceViolation>)
        ensures
            findings(r@) == hipaa_findings(script@),
    {
        self.run(script)
    }
}

impl SOC2Check {
    /// The violations found in `script`.
    pub fn run(&self, script: &str) -> (r: Vec<ComplianceViolation>)
        ensures
            findings(r@) == soc2_findings(script@),
    {
        let mut violations: Vec<ComplianceViolation> = Vec::new();
        if !contains_text(script, "console.log") && !contains_text(script, "log") {
            violations.push(violation(
                "SOC2-001",
                "Audit Logging",
                ComplianceSeverity::Medium,
                "No logging detected for audit trail",
                "logging_check",
                "Implement comprehensive logging",
            ));
        }
        assert(findings(violations@) =~= soc2_findings(script@));
        violations
    }
}

impl FrameworkCheck for SOC2Check {
    fn framework(&self) -> (f: ComplianceFramework)
        ensures
            f is SOC2,
    {
        ComplianceFramework::SOC2
    }

    fn check(&self, script: &str) -> (r: Vec<ComplianceViolation>)
        ensures
            findings(r@) == soc2_findings(script@),
    {
        self.run(script)
    }
}

/// One of the checks a checker has registered.
#[derive(Debug)]
pub enum RegisteredCheck {
    Gdpr(GDPRCheck),
    Hipaa(HIPAACheck),
    Soc2(SOC2Check),
}

/// What a registered check finds in a script.
pub open spec fn registered_findings(c: RegisteredCheck, script: Seq<char>) -> Seq<Finding> {
    match c {
        RegisteredCheck::Gdpr(_) => gdpr_findings(script),
        RegisteredCheck::Hipaa(_) => hipaa_findings(script),
        RegisteredCheck::Soc2(_) => soc2_findings(script),
    }
}

/// What the default checks find for a framework key: the GDPR, HIPAA and SOC2
/// checks are registered; any other key finds nothing.
pub open spec fn default_findings(key: Seq<char>, script: Seq<char>) -> Seq<Finding> {
    if key == "GDPR"@ {
        gdpr_findings(script)
    } else if key == "HIPAA"@ {
        hipaa_findings(script)
    } else if key == "SOC2"@ {
        soc2_findings(script)
    } else {
        Seq::empty()
    }
}

/// Checks scripts with the checks registered by framework key.
#[derive(Debug)]
pub struct ComplianceChecker {
    framework_checks: Vec<(String, RegisteredCheck)>,
}

impl ComplianceChecker {
    #[verifier::type_invariant]
    closed spec fn inv(self) -> bool {
        keys_distinct(self.framework_checks@)
    }

    /// The registered checks by framework key.
    pub closed spec fn checks(&self) -> Map<Seq<char>, RegisteredCheck> {
        assoc_map(self.framework_checks@)
    }

    /// A checker with the GDPR, HIPAA and SOC2 checks registered.
    pub fn new() -> (c: ComplianceChecker)
        ensures
            forall|key: Seq<char>, script: Seq<char>|
                (if c.checks().contains_key(key) {
                    registered_findings(c.checks()[key], script)
                } else {
                    Seq::<Finding>::empty()
                }) == #[trigger] default_findings(key, script),
    {
        let mut checks: Vec<(String, RegisteredCheck)> = Vec::new();
        proof {
            reveal_strlit("GDPR");
            reveal_strlit("HIPAA");
            reveal_strlit("SOC2");
            crate::assoc::lemma_assoc_empty(checks@);
        }
        let gdpr = owned("GDPR");
        proof {
            lemma_assoc_push(checks@, gdpr, RegisteredCheck::Gdpr(GDPRCheck));
        }
        checks.push((gdpr, RegisteredCheck::Gdpr(GDPRCheck)));
        let hipaa = owned("HIPAA");
        proof {
            assert(hipaa@.len() != "GDPR"@.len());
            lemma_assoc_push(checks@, hipaa, RegisteredCheck::Hipaa(HIPAACheck));
        }
        checks.push((hipaa, RegisteredCheck::Hipaa(HIPAACheck)));
        let soc2 = owned("SOC2");
        proof {
            assert(soc2@[0] != "GDPR"@[0] && soc2@.len() != "HIPAA"@.len());
            lemma_assoc_push(checks@, soc2, RegisteredCheck::Soc2(SOC2Check));
        }
        checks.push((soc2, RegisteredCheck::Soc2(SOC2Check)));
        let c = ComplianceChecker { framework_checks: checks };
        proof {
            assert(c.checks() =~= map![
                "GDPR"@ => RegisteredCheck::Gdpr(GDPRCheck),
                "HIPAA"@ => RegisteredCheck::Hipaa(HIPAACheck),
                "SOC2"@ => RegisteredCheck::Soc2(SOC2Check),
            ]);
        }
        c
    }

    /// The violations the check registered for `framework` finds in `script`;
    /// none where no check is registered.
    pub fn check(&self, framework: &ComplianceFramework, script: &str) -> (r: Vec<ComplianceViolation>)
        ensures
            findings(r@) == (if self.checks().contains_key(framework_key(*framework)) {
                registered_findings(self.checks()[framework_key(*framework)], script@)
            } else {
                Seq::<Finding>::empty()
            }),
    {
        proof {
            use_type_invariant(self);
        }
        let key = framework_key_of(framework);
        let mut i: usize = 0;
        while i < self.framework_checks.len()
            invariant
                i <= self.framework_checks@.len(),
                keys_distinct(self.framework_checks@),
                key@ == framework_key(*framework),
                forall|k: int| 0 <= k < i ==> self.framework_checks@[k].0@ != key@,
            decreases self.framework_checks@.len() - i,
        {
            if str_eq(self.framework_checks[i].0.as_str(), key.as_str()) {
                proof {
                    lemma_assoc_lookup(self.framework_checks@, i as int);
                    assert(self.framework_checks@[i as int].0@ == key@);
                    assert(self.checks()[key@] == self.framework_checks@[i as int].1);
                }
                let entry = &self.framework_checks[i].1;
                let r = match entry {
                    RegisteredCheck::Gdpr(c) => c.run(script),
                    RegisteredCheck::Hipaa(c) => c.run(script),
                    RegisteredCheck::Soc2(c) => c.run(script),
                };
                assert(findings(r@) == registered_findings(*entry, script@));
                return r;
            }
            i = i + 1;
        }
        proof {
            lemma_assoc_absent(self.framework_checks@, key@);
        }
        let r: Vec<ComplianceViolation> = Vec::new();
        assert(findings(r@) =~= Seq::<Finding>::empty());
        r
    }
}

/// The number of findings of a severity.
pub open spec fn count_severity(f: Seq<Finding>, s: ComplianceSeverity) -> nat
    decreases f.len(),
{
    if f.len() == 0 {
        0
    } else {
        count_severity(f.drop_last(), s) + if f.last().2 == s { 1nat } else { 0nat }
    }
}

/// The recommendation of a finding: its title, a colon and its remediation.
pub open spec fn recommendation(f: Finding) -> Seq<char> {
    f.1 + ": "@ + f.5
}

/// The violations of a check, their counts by severity, and the
/// recommendations, from which a report's score and status are computed.
#[derive(Debug)]
pub struct ComplianceAssessment {
    pub framework_title: String,
    pub violations: Vec<ComplianceViolation>,
    pub critical_count: usize,
    pub high_count: usize,
    pub medium_count: usize,
    pub recommendations: Vec<String>,
}

/// Counts the violations of each severity and lists their recommendations.
pub fn assess(framework: &ComplianceFramework, violations: Vec<ComplianceViolation>) -> (a: ComplianceAssessment)
    ensures
        a.framework_title@ == framework_title(*framework),
        a.violations@ == violations@,
        a.critical_count == count_severity(findings(violations@), ComplianceSeverity::Critical),
        a.high_count == count_severity(findings(violations@), ComplianceSeverity::High),
        a.medium_count == count_severity(findings(violations@), ComplianceSeverity::Medium),
        a.recommendations@.map_values(|s: String| s@) == findings(violations@).map_values(|f: Finding| recommendation(f)),
{
    let mut critical: usize = 0;
    let mut high: usize = 0;
    let mut medium: usize = 0;
    let mut recs: Vec<String> = Vec::new();
    let mut i: usize = 0;
    while i < violations.len()
        invariant
            i <= violations@.len(),
            critical == count_severity(findings(violations@.take(i as int)), ComplianceSeverity::Critical),
            high == count_severity(findings(violations@.take(i as int)), ComplianceSeverity::High),
            medium == count_severity(findings(violations@.take(i as int)), ComplianceSeverity::Medium),
            critical <= i && high <= i && medium <= i,
            recs@.map_values(|s: String| s@) == findings(violations@.take(i as int)).map_values(|f: Finding| recommendation(f)),
        decreases violations@.len() - i,
    {
        let v = &violations[i];
        proof {
            let t = violations@.take(i as int + 1);
            assert(t.drop_last() =~= violations@.take(i as int));
            assert(findings(t).drop_last() =~= findings(violations@.take(i as int)));
            assert(findings(t).last() == finding_of(violations@[i as int]));
        }
        match v.severity {
            ComplianceSeverity::Critical => critical = critical + 1,
            ComplianceSeverity::High => high = high + 1,
            ComplianceSeverity::Medium => medium = medium + 1,
            _ => {},
        }
        let r = v.requirement_title.clone().concat(": ");
        let r = r.concat(v.remediation.as_str());
        let ghost before = recs@;
        let ghost rv = r@;
        recs.push(r);
        proof {
            let t = violations@.take(i as int + 1);
            assert(recs@.map_values(|s: String| s@) =~= before.map_values(|s: String| s@).push(rv));
            assert(findings(t).map_values(|f: Finding| recommendation(f)) =~= findings(violations@.take(i as int)).map_values(|f: Finding| recommendation(f)).push(recommendation(finding_of(violations@[i as int]))));
            assert(recs@.map_values(|s: String| s@) =~= findings(t).map_values(|f: Finding| recommendation(f)));
        }
        i = i + 1;
    }
    proof {
        assert(violations@.take(violations@.len() as int) =~= violations@);
    }
    ComplianceAssessment {
        framework_title: framework_title_of(framework),
        violations,
        critical_count: critical,
        high_count: high,
        medium_count: medium,
        recommendations: recs,
    }
}

/// The registered frameworks, by key.
#[derive(Debug)]
pub struct ComplianceFrameworks {
    frameworks: Registry<ComplianceFrameworkConfig>,
}

/// The message of a lookup of an unknown framework.
pub open spec fn framework_not_found_text(name: Seq<char>) -> Seq<char> {
    "Framework '"@ + name + "' not found"@
}

impl ComplianceFrameworks {
    /// The frameworks by key.
    pub closed spec fn map(&self) -> Map<Seq<char>, ComplianceFrameworkConfig> {
        self.frameworks.map()
    }

    /// No frameworks.
    pub fn new() -> (f: ComplianceFrameworks)
        ensures
            f.map() == Map::<Seq<char>, ComplianceFrameworkConfig>::empty(),
    {
        ComplianceFrameworks { frameworks: Registry::new() }
    }

    /// Registers a framework under its key, replacing one of that key.
    pub fn register_framework(&mut self, config: ComplianceFrameworkConfig) -> (r: Result<(), String>)
        ensures
            r is Ok,
            final(self).map() == old(self).map().insert(framework_key(config.framework), config),
    {
        let key = framework_key_of(&config.framework);
        self.frameworks.insert(key, config);
        Ok(())
    }

    /// The framework registered under `name`.
    pub fn get_framework(&self, name: &str) -> (r: Result<&ComplianceFrameworkConfig, String>)
        ensures
            r is Ok <==> self.map().contains_key(name@),
            match r {
                Ok(c) => *c == self.map()[name@],
                Err(m) => m@ == framework_not_found_text(name@),
            },
    {
        proof {
            reveal_strlit("' not found");
        }
        match self.frameworks.get(name) {
            Some(c) => Ok(c),
            None => Err(owned("Framework '").concat(name).concat("' not found")),
        }
    }

    /// The keys of the registered frameworks, each once.
    pub fn list_frameworks(&self) -> (r: Result<Vec<String>, String>)
        ensures
            r matches Ok(v) && names_of(v@, self.map()),
    {
        Ok(self.frameworks.names())
    }
}

/// The compliance policies, by name.
#[derive(Debug)]
pub struct PolicyEngine {
    policies: Registry<CompliancePolicy>,
}

/// The message of a lookup of an unknown policy.
pub open spec fn compliance_policy_not_found_text(name: Seq<char>) -> Seq<char> {
    "Policy '"@ + name + "' not found"@
}

impl PolicyEngine {
    /// The policies by name.
    pub closed spec fn map(&self) -> Map<Seq<char>, CompliancePolicy> {
        self.policies.map()
    }

    /// No policies.
    pub fn new() -> (p: PolicyEngine)
        ensures
            p.map() == Map::<Seq<char>, CompliancePolicy>::empty(),
    {
        PolicyEngine { policies: Registry::new() }
    }

    /// Adds a policy under its name, replacing one of that name.
    pub fn add_policy(&mut self, policy: CompliancePolicy) -> (r: Result<(), String>)
        ensures
            r is Ok,
            final(self).map() == old(self).map().insert(policy.name@, policy),
    {
        let name = policy.name.clone();
        self.policies.insert(name, policy);
        Ok(())
    }

    /// The policy named `name`.
    pub fn get_policy(&self, name: &str) -> (r: Result<&CompliancePolicy, String>)
        ensures
            r is Ok <==> self.map().contains_key(name@),
            match r {
                Ok(p) => *p == self.map()[name@],
                Err(m) => m@ == compliance_policy_not_found_text(name@),
            },
    {
        proof {
            reveal_strlit("' not found");
        }
        match self.policies.get(name) {
            Some(p) => Ok(p),
            None => Err(owned("Policy '").concat(name).concat("' not found")),
        }
    }

    /// The names of the policies, each once.
    pub fn list_policies(&self) -> (r: Result<Vec<String>, String>)
        ensures
            r matches Ok(v) && names_of(v@, self.map()),
    {
        Ok(self.policies.names())
    }
}

/// Frameworks, policies and the checker together.
#[derive(Debug)]
pub struct ComplianceManager {
    pub frameworks: ComplianceFrameworks,
    pub policies: PolicyEngine,
    pub checker: ComplianceChecker,
}

impl ComplianceManager {
    /// No frameworks, no policies, and the default checks.
    pub fn new() -> (m: ComplianceManager)
        ensures
            m.frameworks.map() == Map::<Seq<char>, ComplianceFrameworkConfig>::empty(),
            m.policies.map() == Map::<Seq<char>, CompliancePolicy>::empty(),
            forall|key: Seq<char>, script: Seq<char>|
                (if m.checker.checks().contains_key(key) {
                    registered_findings(m.checker.checks()[key], script)
                } else {
                    Seq::<Finding>::empty()
                }) == #[trigger] default_findings(key, script),
    {
        ComplianceManager {
            frameworks: ComplianceFrameworks::new(),
            policies: PolicyEngine::new(),
            checker: ComplianceChecker::new(),
        }
    }

    /// Checks `script` against `framework` and assesses the violations; the
    /// score and status of a report follow from the counts.
    pub fn assess_compliance(&self, script: &str, framework: &ComplianceFramework) -> (a: ComplianceAssessment)
        ensures
            findings(a.violations@) == (if self.checker.checks().contains_key(framework_key(*framework)) {
                registered_findings(self.checker.checks()[framework_key(*framework)], script@)
            } else {
                Seq::<Finding>::empty()
            }),
            a.framework_title@ == framework_title(*framework),
            a.critical_count == count_severity(findings(a.violations@), ComplianceSeverity::Critical),
            a.high_count == count_severity(findings(a.violations@), ComplianceSeverity::High),
            a.medium_count == count_severity(findings(a.violations@), ComplianceSeverity::Medium),
            a.recommendations@.map_values(|s: String| s@) == findings(a.violations@).map_values(|f: Finding| recommendation(f)),
    {
        let violations = self.checker.check(framework, script);
        assess(framework, violations)
    }

    /// Registers a framework.
    pub fn register_framework(&mut self, config: ComplianceFrameworkConfig) -> (r: Result<(), String>)
        ensures
            r is Ok,
            final(self).frameworks.map() == old(self).frameworks.map().insert(framework_key(config.framework), config),
            final(self).policies.map() == old(self).policies.map(),
    {
        self.frameworks.register_framework(config)
    }

    /// Adds a policy.
    pub fn add_policy(&mut self, policy: CompliancePolicy) -> (r: Result<(), String>)
        ensures
            r is Ok,
            final(self).policies.map() == old(self).policies.map().insert(policy.name@, policy),
            final(self).frameworks.map() == old(self).frameworks.map(),
    {
        self.policies.add_policy(policy)
    }
}

/// A script with no findings is assessed with no violation of any severity.
pub proof fn law_clean_script_has_no_counts(f: Seq<Finding>)
    requires
        f.len() == 0,
    ensures
        count_severity(f, ComplianceSeverity::Critical) == 0,
        count_severity(f, ComplianceSeverity::High) == 0,
        count_severity(f, ComplianceSeverity::Medium) == 0,
{
}

/// The empty script stores nothing and sends nothing: it has no GDPR finding.
pub proof fn law_empty_script_gdpr_clean()
    ensures
        gdpr_findings(Seq::<char>::empty()).len() == 0,
{
    assert(!has_substring(Seq::<char>::empty(), "localStorage"@)) by {
        reveal_strlit("localStorage");
    }
    assert(!has_substring(Seq::<char>::empty(), "sessionStorage"@)) by {
        reveal_strlit("sessionStorage");
    }
    assert(!has_substring(Seq::<char>::empty(), "fetch("@)) by {
        reveal_strlit("fetch(");
    }
    assert(!has_substring(Seq::<char>::empty(), "XMLHttpRequest"@)) by {
        reveal_strlit("XMLHttpRequest");
    }
}

/// A script that sends data over the network (it contains `fetch(` or
/// `XMLHttpRequest`) has the GDPR finding `GDPR-002`, Data Transfer, of medium
/// severity, whether or not it also uses browser storage; a script that does
/// neither has no such finding. The default checker reports exactly these
/// findings for `GDPR`.
pub proof fn law_gdpr_transfer_finding(script: Seq<char>)
    ensures
        (exists|i: int| 0 <= i < gdpr_findings(script).len() && {
            let f = #[trigger] gdpr_findings(script)[i];
            f.0 == "GDPR-002"@ && f.1 == "Data Transfer"@ && f.2 == ComplianceSeverity::Medium
        }) <==> (has_substring(script, "fetch("@) || has_substring(script, "XMLHttpRequest"@)),
        (exists|i: int| 0 <= i < gdpr_findings(script).len() && (#[trigger] gdpr_findings(script)[i]).0 == "GDPR-002"@)
            <==> (has_substring(script, "fetch("@) || has_substring(script, "XMLHttpRequest"@)),
        default_findings("GDPR"@, script) == gdpr_findings(script),
{
    reveal_strlit("GDPR-001");
    reveal_strlit("GDPR-002");
    assert("GDPR-001"@[7] != "GDPR-002"@[7]);
    let f = gdpr_findings(script);
    if has_substring(script, "fetch("@) || has_substring(script, "XMLHttpRequest"@) {
        let i = f.len() - 1;
        assert(f[i].0 == "GDPR-002"@);
    }
}

/// Each default check reports its finding exactly when its condition holds:
/// GDPR-001 (high) when the script uses browser storage, HIPAA-001 (critical)
/// when it mentions neither `encrypt` nor `crypto`, and SOC2-001 (medium) when
/// it logs nothing; each condition is judged on its own.
pub proof fn law_default_findings(script: Seq<char>)
    ensures
        (exists|i: int| 0 <= i < gdpr_findings(script).len() && {
            let f = #[trigger] gdpr_findings(script)[i];
            f.0 == "GDPR-001"@ && f.1 == "Data Storage Consent"@ && f.2 == ComplianceSeverity::High
        }) <==> (has_substring(script, "localStorage"@) || has_substring(script, "sessionStorage"@)),
        (exists|i: int| 0 <= i < gdpr_findings(script).len() && (#[trigger] gdpr_findings(script)[i]).0 == "GDPR-001"@)
            <==> (has_substring(script, "localStorage"@) || has_substring(script, "sessionStorage"@)),
        hipaa_findings(script).len() > 0 <==> (!has_substring(script, "encrypt"@) && !has_substring(script, "crypto"@)),
        hipaa_findings(script).len() > 0 ==> hipaa_findings(script)[0].0 == "HIPAA-001"@ && hipaa_findings(script)[0].2 == ComplianceSeverity::Critical,
        soc2_findings(script).len() > 0 <==> (!has_substring(script, "console.log"@) && !has_substring(script, "log"@)),
        soc2_findings(script).len() > 0 ==> soc2_findings(script)[0].0 == "SOC2-001"@ && soc2_findings(script)[0].2 == ComplianceSeverity::Medium,
        default_findings("HIPAA"@, script) == hipaa_findings(script),
        default_findings("SOC2"@, script) == soc2_findings(script),
{
    reveal_strlit("GDPR-001");
    reveal_strlit("GDPR-002");
    reveal_strlit("GDPR");
    reveal_strlit("HIPAA");
    reveal_strlit("SOC2");
    assert("GDPR-001"@[7] != "GDPR-002"@[7]);
    assert("HIPAA"@.len() != "GDPR"@.len());
    assert("SOC2"@[0] != "GDPR"@[0]);
    let f = gdpr_findings(script);
    if has_substring(script, "localStorage"@) || has_substring(script, "sessionStorage"@) {
        assert(f[0].0 == "GDPR-001"@);
    }
}

} // verus!
