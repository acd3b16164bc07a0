//! The enterprise features as one: a security manager and a compliance
//! manager, each as it starts.

use vstd::prelude::*;
use crate::compliance::{
    default_findings, registered_findings, ComplianceFrameworkConfig, ComplianceManager, CompliancePolicy, Finding,
};
use crate::security::{SecurityManager, SecurityPolicy};

verus! {

/// The security and compliance managers of a deployment.
#[derive(Debug)]
pub struct EnterpriseManager {
    security: SecurityManager,
    compliance: ComplianceManager,
}

impl EnterpriseManager {
    /// The security manager.
    pub closed spec fn security_manager(&self) -> SecurityManager {
        self.security
    }

    /// The compliance manager.
    pub closed spec fn compliance_manager(&self) -> ComplianceManager {
        self.compliance
    }

    /// Fresh managers: the permissive `default` policy and an empty audit log;
    /// no frameworks or policies, and the default checks.
    pub fn new() -> (m: EnterpriseManager)
        ensures
            m.security_manager().policy_map() == map!["default"@ => SecurityPolicy::Permissive],
            m.security_manager().audit().len() == 0,
            m.compliance_manager().frameworks.map() == Map::<Seq<char>, ComplianceFrameworkConfig>::empty(),
            m.compliance_manager().policies.map() == Map::<Seq<char>, CompliancePolicy>::empty(),
            forall|key: Seq<char>, script: Seq<char>|
                (if m.compliance_manager().checker.checks().contains_key(key) {
                    registered_findings(m.compliance_manager().checker.checks()[key], script)
                } else {
                    Seq::<Finding>::empty()
                }) == #[trigger] default_findings(key, script),
    {
        EnterpriseManager { security: SecurityManager::new(), compliance: ComplianceManager::new() }
    }

    /// The security manager.
    pub fn security(&self) -> (r: &SecurityManager)
        ensures
            *r == self.security_manager(),
    {
        &self.security
    }

    /// The compliance manager.
    pub fn compliance(&self) -> (r: &ComplianceManager)
        ensures
            *r == self.compliance_manager(),
    {
        &self.compliance
    }
}

impl Default for EnterpriseManager {
    fn default() -> (m: EnterpriseManager)
        ensures
            m.security_manager().policy_map() == map!["default"@ => SecurityPolicy::Permissive],
            m.security_manager().audit().len() == 0,
            m.compliance_manager().frameworks.map() == Map::<Seq<char>, ComplianceFrameworkConfig>::empty(),
            m.compliance_manager().policies.map() == Map::<Seq<char>, CompliancePolicy>::empty(),
    {
        EnterpriseManager::new()
    }
}

} // verus!
