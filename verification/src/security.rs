//! Security policies: named policies that allow, deny, or decide operation by
//! operation through rules.

use vstd::prelude::*;
use crate::assoc::{assoc_map, keys_distinct, lemma_assoc_absent, lemma_assoc_lookup, lemma_assoc_push, lemma_assoc_update, Registry};
use crate::str_map::StrMap;
use crate::text::{owned, str_eq};

verus! {

/// Whether an operation is allowed under a custom policy.
#[derive(Debug, Clone)]
pub struct SecurityRule {
    pub name: String,
    pub description: String,
    pub allowed: bool,
    pub conditions: Vec<String>,
}

/// A policy: allow everything, deny everything, or decide by the rule of the
/// operation (at most one rule per operation name).
#[derive(Debug, Clone)]
pub enum SecurityPolicy {
    Permissive,
    Restrictive,
    Custom(Registry<SecurityRule>),
}

/// The outcome of a permission check.
#[derive(Debug, Clone, PartialEq)]
pub enum SecurityResult {
    Allowed,
    Denied(String),
}

/// One audited security decision.
#[derive(Debug)]
pub struct SecurityEvent {
    pub timestamp: std::time::SystemTime,
    pub event_type: String,
    pub source: String,
    pub action: String,
    pub result: SecurityResult,
    pub details: StrMap,
}

/// The decision a policy makes on an operation: `Ok(())` for allowed, or the
/// reason of the denial.
pub open spec fn decide(policy: SecurityPolicy, operation: Seq<char>) -> Result<(), Seq<char>> {
    match policy {
        SecurityPolicy::Permissive => Ok(()),
        SecurityPolicy::Restrictive => Err("Restrictive policy blocks operation"@),
        SecurityPolicy::Custom(rules) => if rules.map().contains_key(operation) {
            if rules.map()[operation].allowed {
                Ok(())
            } else {
                Err("Operation '"@ + operation + "' denied by rule: "@ + rules.map()[operation].name@)
            }
        } else {
            Err("No rule found for operation: "@ + operation)
        },
    }
}

/// Whether a result is the decision `d`.
pub open spec fn result_is(r: SecurityResult, d: Result<(), Seq<char>>) -> bool {
    match (r, d) {
        (SecurityResult::Allowed, Ok(_)) => true,
        (SecurityResult::Denied(m), Err(reason)) => m@ == reason,
        _ => false,
    }
}

/// The message of a check against an unknown policy.
pub open spec fn policy_not_found_text(name: Seq<char>) -> Seq<char> {
    "Policy not found: "@ + name
}

/// Named policies and the audit log.
#[derive(Debug)]
pub struct SecurityManager {
    policies: Vec<(String, SecurityPolicy)>,
    audit_log: Vec<SecurityEvent>,
}

impl SecurityManager {
    #[verifier::type_invariant]
    closed spec fn inv(self) -> bool {
        keys_distinct(self.policies@)
    }

    /// The policies by name.
    pub closed spec fn policy_map(&self) -> Map<Seq<char>, SecurityPolicy> {
        assoc_map(self.policies@)
    }

    /// The audit log.
    pub closed spec fn audit(&self) -> Seq<SecurityEvent> {
        self.audit_log@
    }

    /// A manager with the permissive policy `default`.
    pub fn new() -> (m: SecurityManager)
        ensures
            m.policy_map() == map!["default"@ => SecurityPolicy::Permissive],
            m.audit().len() == 0,
    {
        let mut policies: Vec<(String, SecurityPolicy)> = Vec::new();
        let name = owned("default");
        proof {
            crate::assoc::lemma_assoc_empty(policies@);
            lemma_assoc_push(policies@, name, SecurityPolicy::Permissive);
        }
        policies.push((name, SecurityPolicy::Permissive));
        let m = SecurityManager { policies, audit_log: Vec::new() };
        assert(m.policy_map() =~= map!["default"@ => SecurityPolicy::Permissive]);
        m
    }

    /// The number of policies.
    pub fn policy_count(&self) -> (n: usize)
        ensures
            n == self.policy_map().dom().len(),
    {
        proof {
            use_type_invariant(self);
            crate::assoc::lemma_assoc_len(self.policies@);
        }
        self.policies.len()
    }

    /// The position of the policy `name`, if any.
    fn position(&self, name: &str) -> (r: Option<usize>)
        ensures
            match r {
                Some(i) => i < self.policies@.len() && self.policies@[i as int].0@ == name@,
                None => forall|i: int| 0 <= i < self.policies@.len() ==> self.policies@[i].0@ != name@,
            },
    {
        let mut i: usize = 0;
        while i < self.policies.len()
            invariant
                i <= self.policies@.len(),
                forall|k: int| 0 <= k < i ==> self.policies@[k].0@ != name@,
            decreases self.policies@.len() - i,
        {
            if str_eq(self.policies[i].0.as_str(), name) {
                return Some(i);
            }
            i = i + 1;
        }
        None
    }

    /// Adds the policy `name`, replacing one of that name.
    pub fn add_policy(&mut self, name: String, policy: SecurityPolicy)
        ensures
            final(self).policy_map() == old(self).policy_map().insert(name@, policy),
            final(self).audit() == old(self).audit(),
    {
        proof {
            use_type_invariant(&*self);
        }
        let pos = self.position(name.as_str());
        let mut policies: Vec<(String, SecurityPolicy)> = Vec::new();
        std::mem::swap(&mut policies, &mut self.policies);
        match pos {
            Some(i) => {
                proof {
                    lemma_assoc_update(policies@, i as int, name, policy);
                }
                policies.set(i, (name, policy));
            },
            None => {
                proof {
                    lemma_assoc_absent(policies@, name@);
                    lemma_assoc_push(policies@, name, policy);
                }
                policies.push((name, policy));
            },
        }
        self.policies = policies;
    }

    /// Checks `operation` against the policy `policy_name`; an unknown policy
    /// is an error. The context is not consulted.
    pub fn check_permission(&self, policy_name: &str, operation: &str, context: &StrMap) -> (r: Result<SecurityResult, String>)
        ensures
            r is Ok <==> self.policy_map().contains_key(policy_name@),
            match r {
                Ok(res) => result_is(res, decide(self.policy_map()[policy_name@], operation@)),
                Err(m) => m@ == policy_not_found_text(policy_name@),
            },
    {
        proof {
            use_type_invariant(self);
        }
        let i = match self.position(policy_name) {
            Some(i) => i,
            None => {
                proof {
                    lemma_assoc_absent(self.policies@, policy_name@);
                }
                return Err(owned("Policy not found: ").concat(policy_name));
            },
        };
        proof {
            lemma_assoc_lookup(self.policies@, i as int);
        }
        let result = match &self.policies[i].1 {
            SecurityPolicy::Permissive => SecurityResult::Allowed,
            SecurityPolicy::Restrictive => SecurityResult::Denied(owned("Restrictive policy blocks operation")),
            SecurityPolicy::Custom(rules) => match rules.get(operation) {
                Some(rule) => if rule.allowed {
                    SecurityResult::Allowed
                } else {
                    proof {
                        reveal_strlit("' denied by rule: ");
                    }
                    let m = owned("Operation '").concat(operation);
                    let m = m.concat("' denied by rule: ");
                    SecurityResult::Denied(m.concat(rule.name.as_str()))
                },
                None => SecurityResult::Denied(owned("No rule found for operation: ").concat(operation)),
            },
        };
        Ok(result)
    }

    /// The audit record of a permission check, as the manager reports it.
    pub fn permission_event(operation: &str, result: SecurityResult) -> (e: SecurityEvent)
        ensures
            e.event_type@ == "permission_check"@,
            e.source@ == "security_manager"@,
            e.action@ == operation@,
            e.result == result,
            e.details@ == Map::<Seq<char>, Seq<char>>::empty(),
    {
        SecurityEvent {
            timestamp: crate::time::system_now(),
            event_type: owned("permission_check"),
            source: owned("security_manager"),
            action: owned(operation),
            result,
            details: StrMap::new(),
        }
    }

    /// The audit log; permission checks report their events rather than
    /// storing them, so it stays as it was created.
    pub fn get_audit_log(&self) -> (r: &[SecurityEvent])
        ensures
            r@ == self.audit(),
    {
        self.audit_log.as_slice()
    }
}

/// A permissive policy allows every operation; a restrictive one denies every
/// operation.
pub proof fn law_fixed_policies(operation: Seq<char>)
    ensures
        decide(SecurityPolicy::Permissive, operation) is Ok,
        decide(SecurityPolicy::Restrictive, operation) is Err,
{
}

} // verus!
