//! Multi-tenancy: tenants with their quotas and security context, and the
//! admission of executions against a tenant's quota.
//!
//! Quotas and usage are whole numbers here; the fractional CPU figures of a
//! tenant are kept beside the manager by its callers, who hand in the outcome
//! of comparing them.

use vstd::prelude::*;
use crate::text::owned;
use crate::assoc::{Registry, names_of};
use crate::gitops::{new_uuid, uuid_bits, uuid_hyphenated, uuid_text};

verus! {

/// A tenant's identifier.
#[derive(Debug, Clone, PartialEq, Eq, Hash)]
pub struct TenantId(pub String);

/// Whether a tenant may run.
#[derive(Debug, Clone, Copy, PartialEq, Eq, Structural)]
pub enum TenantStatus {
    Active,
    Suspended,
    Terminated,
}

/// The network rules of a tenant.
#[derive(Debug, Clone)]
pub struct NetworkPolicy {
    pub ingress_allowed: bool,
    pub egress_allowed: bool,
    pub allowed_sources: Vec<String>,
    pub allowed_destinations: Vec<String>,
    pub blocked_ports: Vec<u16>,
}

/// What a role may do.
#[derive(Debug, Clone, Copy, PartialEq, Eq, Structural)]
pub enum Permission {
    CreateCluster,
    DeleteCluster,
    UpdateCluster,
    ViewCluster,
    ExecuteScript,
    ManageResources,
}

/// A named set of permissions.
#[derive(Debug, Clone)]
pub struct RbacRole {
    pub name: String,
    pub permissions: Vec<Permission>,
}

/// The network policy a new tenant gets: all traffic in and out, from and to
/// anywhere, no port blocked.
pub fn default_network_policy() -> (p: NetworkPolicy)
    ensures
        p.ingress_allowed,
        p.egress_allowed,
        p.allowed_sources@.len() == 1 && p.allowed_sources@[0]@ == "*"@,
        p.allowed_destinations@.len() == 1 && p.allowed_destinations@[0]@ == "*"@,
        p.blocked_ports@.len() == 0,
{
    let mut sources: Vec<String> = Vec::new();
    sources.push(owned("*"));
    let mut destinations: Vec<String> = Vec::new();
    destinations.push(owned("*"));
    NetworkPolicy {
        ingress_allowed: true,
        egress_allowed: true,
        allowed_sources: sources,
        allowed_destinations: destinations,
        blocked_ports: Vec::new(),
    }
}

/// Whether a role grants a permission.
pub fn role_grants(role: &RbacRole, permission: Permission) -> (r: bool)
    ensures
        r == role.permissions@.contains(permission),
{
    let mut i: usize = 0;
    while i < role.permissions.len()
        invariant
            i <= role.permissions@.len(),
            forall|k: int| 0 <= k < i ==> role.permissions@[k] != permission,
        decreases role.permissions@.len() - i,
    {
        if role.permissions[i] == permission {
            return true;
        }
        i = i + 1;
    }
    false
}

/// The whole-number limits of a tenant.
#[derive(Debug, Clone, Copy, PartialEq, Eq, Structural)]
pub struct ResourceQuota {
    pub max_clusters: u32,
    pub max_replicas_per_cluster: u32,
    pub max_memory_mb: u64,
    pub max_storage_gb: u64,
    pub max_concurrent_executions: u32,
}

/// The whole-number limits of each of a tenant's clusters.
#[derive(Debug, Clone, Copy, PartialEq, Eq, Structural)]
pub struct ResourceLimits {
    pub memory_limit_per_cluster_mb: u64,
    pub storage_limit_per_cluster_gb: u64,
    pub network_bandwidth_limit_mbps: u64,
}

/// The isolation of a tenant: network rules, roles, cluster limits and the
/// APIs it may call.
#[derive(Debug, Clone)]
pub struct SecurityContext {
    pub network_policy: NetworkPolicy,
    pub rbac_roles: Vec<RbacRole>,
    pub resource_limits: ResourceLimits,
    pub allowed_apis: Vec<String>,
}

/// A registered tenant, with the wall-clock time it was created at.
#[derive(Debug, Clone)]
pub struct Tenant {
    pub id: TenantId,
    pub name: String,
    pub email: String,
    pub created_at: std::time::SystemTime,
    pub status: TenantStatus,
    pub resource_quota: ResourceQuota,
    pub security_context: SecurityContext,
}

/// What a tenant uses now, in whole numbers.
#[derive(Debug, Clone, Copy, PartialEq, Eq, Structural)]
pub struct ResourceUsage {
    pub active_clusters: u32,
    pub total_replicas: u32,
    pub memory_usage_mb: u64,
    pub storage_usage_gb: u64,
    pub concurrent_executions: u32,
}

/// Nothing in use.
pub open spec fn no_usage() -> ResourceUsage {
    ResourceUsage {
        active_clusters: 0,
        total_replicas: 0,
        memory_usage_mb: 0,
        storage_usage_gb: 0,
        concurrent_executions: 0,
    }
}

impl Default for ResourceUsage {
    fn default() -> (u: ResourceUsage)
        ensures
            u == no_usage(),
    {
        ResourceUsage {
            active_clusters: 0,
            total_replicas: 0,
            memory_usage_mb: 0,
            storage_usage_gb: 0,
            concurrent_executions: 0,
        }
    }
}

/// A running execution of a tenant on a cluster, under the tenant's cluster
/// limits and security context.
#[derive(Debug, Clone)]
pub struct ExecutionContext {
    pub tenant_id: TenantId,
    pub cluster_name: String,
    pub resource_limits: ResourceLimits,
    pub security_context: SecurityContext,
    pub execution_id: String,
}

/// Changes to a tenant; what is `None` stays.
#[derive(Debug, Default)]
pub struct TenantUpdates {
    pub name: Option<String>,
    pub email: Option<String>,
    pub status: Option<TenantStatus>,
    pub resource_quota: Option<ResourceQuota>,
}

impl TenantUpdates {
    /// No change.
    pub fn new() -> (u: TenantUpdates)
        ensures
            u.name is None,
            u.email is None,
            u.status is None,
            u.resource_quota is None,
    {
        TenantUpdates { name: None, email: None, status: None, resource_quota: None }
    }

    /// These changes, and a new name.
    pub fn with_name(self, name: String) -> (u: TenantUpdates)
        ensures
            u == (TenantUpdates { name: Some(name), ..self }),
    {
        TenantUpdates { name: Some(name), ..self }
    }

    /// These changes, and a new contact address.
    pub fn with_email(self, email: String) -> (u: TenantUpdates)
        ensures
            u == (TenantUpdates { email: Some(email), ..self }),
    {
        TenantUpdates { email: Some(email), ..self }
    }

    /// These changes, and a new status.
    pub fn with_status(self, status: TenantStatus) -> (u: TenantUpdates)
        ensures
            u == (TenantUpdates { status: Some(status), ..self }),
    {
        TenantUpdates { status: Some(status), ..self }
    }

    /// These changes, and a new quota.
    pub fn with_resource_quota(self, resource_quota: ResourceQuota) -> (u: TenantUpdates)
        ensures
            u == (TenantUpdates { resource_quota: Some(resource_quota), ..self }),
    {
        TenantUpdates { resource_quota: Some(resource_quota), ..self }
    }
}

/// A tenant with the changes applied.
pub open spec fn updated(t: Tenant, u: TenantUpdates) -> Tenant {
    Tenant {
        name: match u.name {
            Some(n) => n,
            None => t.name,
        },
        email: match u.email {
            Some(e) => e,
            None => t.email,
        },
        status: match u.status {
            Some(s) => s,
            None => t.status,
        },
        resource_quota: match u.resource_quota {
            Some(q) => q,
            None => t.resource_quota,
        },
        ..t
    }
}

/// Whether a tenant is as `create_tenant` makes it: active, with the given
/// details, open network rules, no roles, 1024 MB, 10 GB and 100 Mbit/s per
/// cluster, and every API allowed.
pub open spec fn is_new_tenant(t: Tenant, id: Seq<char>, name: Seq<char>, email: Seq<char>, q: ResourceQuota) -> bool {
    let sc = t.security_context;
    &&& t.id.0@ == id
    &&& t.name@ == name
    &&& t.email@ == email
    &&& t.status == TenantStatus::Active
    &&& t.resource_quota == q
    &&& sc.network_policy.ingress_allowed
    &&& sc.network_policy.egress_allowed
    &&& sc.network_policy.allowed_sources@.len() == 1 && sc.network_policy.allowed_sources@[0]@ == "*"@
    &&& sc.network_policy.allowed_destinations@.len() == 1 && sc.network_policy.allowed_destinations@[0]@ == "*"@
    &&& sc.network_policy.blocked_ports@.len() == 0
    &&& sc.rbac_roles@.len() == 0
    &&& sc.resource_limits == (ResourceLimits {
        memory_limit_per_cluster_mb: 1024,
        storage_limit_per_cluster_gb: 10,
        network_bandwidth_limit_mbps: 100,
    })
    &&& sc.allowed_apis@.len() == 1 && sc.allowed_apis@[0]@ == "*"@
}

/// Whether the usage passes one of the whole-number limits of the quota.
pub open spec fn over_quota(u: ResourceUsage, q: ResourceQuota) -> bool {
    ||| u.active_clusters > q.max_clusters
    ||| u.total_replicas > q.max_replicas_per_cluster
    ||| u.memory_usage_mb > q.max_memory_mb
    ||| u.storage_usage_gb > q.max_storage_gb
    ||| u.concurrent_executions > q.max_concurrent_executions
}

/// The message for an unknown tenant.
pub open spec fn tenant_not_found(id: Seq<char>) -> Seq<char> {
    "Tenant not found: "@ + id
}

/// The message for an unknown execution.
pub open spec fn execution_not_found(id: Seq<char>) -> Seq<char> {
    "Execution not found: "@ + id
}

/// The message of an execution refused for the quota.
pub open spec fn quota_reached_text() -> Seq<char> {
    "Maximum concurrent executions reached"@
}

/// The usage of a tenant, or none where nothing is recorded.
pub open spec fn usage_or_none(m: Map<Seq<char>, ResourceUsage>, id: Seq<char>) -> ResourceUsage {
    if m.contains_key(id) {
        m[id]
    } else {
        no_usage()
    }
}

/// Whether two security contexts say the same: the same network rules, roles,
/// limits and APIs.
pub open spec fn same_security(a: SecurityContext, b: SecurityContext) -> bool {
    &&& a.network_policy.ingress_allowed == b.network_policy.ingress_allowed
    &&& a.network_policy.egress_allowed == b.network_policy.egress_allowed
    &&& a.network_policy.allowed_sources@ == b.network_policy.allowed_sources@
    &&& a.network_policy.allowed_destinations@ == b.network_policy.allowed_destinations@
    &&& a.network_policy.blocked_ports@ == b.network_policy.blocked_ports@
    &&& a.rbac_roles@.len() == b.rbac_roles@.len()
    &&& forall|i: int| 0 <= i < a.rbac_roles@.len() ==> {
        &&& (#[trigger] a.rbac_roles@[i]).name == b.rbac_roles@[i].name
        &&& a.rbac_roles@[i].permissions@ == b.rbac_roles@[i].permissions@
    }
    &&& a.resource_limits == b.resource_limits
    &&& a.allowed_apis@ == b.allowed_apis@
}

/// Whether two execution records say the same.
pub open spec fn same_execution(a: ExecutionContext, b: ExecutionContext) -> bool {
    &&& a.tenant_id.0@ == b.tenant_id.0@
    &&& a.cluster_name@ == b.cluster_name@
    &&& a.resource_limits == b.resource_limits
    &&& same_security(a.security_context, b.security_context)
    &&& a.execution_id@ == b.execution_id@
}

/// A copy of a list of plain values.
fn copy_values<T: Copy>(v: &Vec<T>) -> (r: Vec<T>)
    ensures
        r@ == v@,
{
    let mut r: Vec<T> = Vec::new();
    let mut i: usize = 0;
    while i < v.len()
        invariant
            i <= v@.len(),
            r@ == v@.take(i as int),
        decreases v@.len() - i,
    {
        r.push(v[i]);
        assert(r@ =~= v@.take(i + 1));
        i = i + 1;
    }
    assert(v@.take(v@.len() as int) =~= v@);
    r
}

/// A copy of a list of strings.
fn copy_strings(v: &Vec<String>) -> (r: Vec<String>)
    ensures
        r@ == v@,
{
    let mut r: Vec<String> = Vec::new();
    let mut i: usize = 0;
    while i < v.len()
        invariant
            i <= v@.len(),
            r@ == v@.take(i as int),
        decreases v@.len() - i,
    {
        r.push(v[i].clone());
        assert(r@ =~= v@.take(i + 1));
        i = i + 1;
    }
    assert(v@.take(v@.len() as int) =~= v@);
    r
}

/// A copy of a security context.
fn copy_security(sc: &SecurityContext) -> (r: SecurityContext)
    ensures
        same_security(r, *sc),
{
    let mut roles: Vec<RbacRole> = Vec::new();
    let mut i: usize = 0;
    while i < sc.rbac_roles.len()
        invariant
            i <= sc.rbac_roles@.len(),
            roles@.len() == i,
            forall|k: int| 0 <= k < i ==> {
                &&& (#[trigger] roles@[k]).name == sc.rbac_roles@[k].name
                &&& roles@[k].permissions@ == sc.rbac_roles@[k].permissions@
            },
        decreases sc.rbac_roles@.len() - i,
    {
        let role = &sc.rbac_roles[i];
        roles.push(RbacRole { name: role.name.clone(), permissions: copy_values(&role.permissions) });
        i = i + 1;
    }
    SecurityContext {
        network_policy: NetworkPolicy {
            ingress_allowed: sc.network_policy.ingress_allowed,
            egress_allowed: sc.network_policy.egress_allowed,
            allowed_sources: copy_strings(&sc.network_policy.allowed_sources),
            allowed_destinations: copy_strings(&sc.network_policy.allowed_destinations),
            blocked_ports: copy_values(&sc.network_policy.blocked_ports),
        },
        rbac_roles: roles,
        resource_limits: sc.resource_limits,
        allowed_apis: copy_strings(&sc.allowed_apis),
    }
}

/// A copy of an id.
fn copy_id(id: &TenantId) -> (r: TenantId)
    ensures
        r.0@ == id.0@,
{
    TenantId(id.0.clone())
}

/// Tenants, their running executions, and their resource usage.
#[derive(Debug)]
pub struct TenancyManager {
    tenants: Registry<Tenant>,
    executions: Registry<ExecutionContext>,
    resource_usage: Registry<ResourceUsage>,
}

impl TenancyManager {
    #[verifier::type_invariant]
    closed spec fn inv(self) -> bool {
        &&& forall|k: Seq<char>| #[trigger] self.tenants.map().contains_key(k) ==> self.tenants.map()[k].id.0@ == k
        &&& forall|k: Seq<char>| #[trigger] self.executions.map().contains_key(k) ==> self.executions.map()[k].execution_id@ == k
    }

    /// The tenants by id.
    pub closed spec fn tenants(&self) -> Map<Seq<char>, Tenant> {
        self.tenants.map()
    }

    /// The running executions by id.
    pub closed spec fn executions(&self) -> Map<Seq<char>, ExecutionContext> {
        self.executions.map()
    }

    /// The recorded resource usage by tenant id.
    pub closed spec fn usage(&self) -> Map<Seq<char>, ResourceUsage> {
        self.resource_usage.map()
    }

    /// No tenants.
    pub fn new() -> (m: TenancyManager)
        ensures
            m.tenants() == Map::<Seq<char>, Tenant>::empty(),
            m.executions() == Map::<Seq<char>, ExecutionContext>::empty(),
            m.usage() == Map::<Seq<char>, ResourceUsage>::empty(),
    {
        TenancyManager { tenants: Registry::new(), executions: Registry::new(), resource_usage: Registry::new() }
    }

    /// Registers an active tenant under `id`, with nothing in use; a tenant
    /// there before is replaced.
    pub fn register_tenant(&mut self, id: TenantId, name: String, email: String, resource_quota: ResourceQuota)
        ensures
            final(self).tenants().contains_key(id.0@),
            final(self).tenants() == old(self).tenants().insert(id.0@, final(self).tenants()[id.0@]),
            is_new_tenant(final(self).tenants()[id.0@], id.0@, name@, email@, resource_quota),
            final(self).usage() == old(self).usage().insert(id.0@, no_usage()),
            final(self).executions() == old(self).executions(),
    {
        proof {
            use_type_invariant(&*self);
        }
        let mut allowed_apis: Vec<String> = Vec::new();
        allowed_apis.push(owned("*"));
        let security_context = SecurityContext {
            network_policy: default_network_policy(),
            rbac_roles: Vec::new(),
            resource_limits: ResourceLimits {
                memory_limit_per_cluster_mb: 1024,
                storage_limit_per_cluster_gb: 10,
                network_bandwidth_limit_mbps: 100,
            },
            allowed_apis,
        };
        let key = id.0.clone();
        let usage_key = id.0.clone();
        let tenant = Tenant {
            id,
            name,
            email,
            created_at: crate::time::system_now(),
            status: TenantStatus::Active,
            resource_quota,
            security_context,
        };
        let mut tenants: Registry<Tenant> = Registry::new();
        std::mem::swap(&mut tenants, &mut self.tenants);
        tenants.insert(key, tenant);
        self.tenants = tenants;
        let mut usage: Registry<ResourceUsage> = Registry::new();
        std::mem::swap(&mut usage, &mut self.resource_usage);
        usage.insert(usage_key, ResourceUsage::default());
        self.resource_usage = usage;
    }

    /// Creates an active tenant under a fresh random id and returns the id.
    pub fn create_tenant(&mut self, name: String, email: String, resource_quota: ResourceQuota) -> (r: Result<TenantId, String>)
        ensures
            r matches Ok(id) && {
                &&& exists|n: u128| id.0@ == #[trigger] uuid_hyphenated(n)
                &&& final(self).tenants().contains_key(id.0@)
                &&& final(self).tenants() == old(self).tenants().insert(id.0@, final(self).tenants()[id.0@])
                &&& is_new_tenant(final(self).tenants()[id.0@], id.0@, name@, email@, resource_quota)
                &&& final(self).usage() == old(self).usage().insert(id.0@, no_usage())
                &&& final(self).executions() == old(self).executions()
            },
    {
        let u = new_uuid();
        let id = TenantId(uuid_text(&u));
        assert(id.0@ == uuid_hyphenated(uuid_bits(u)));
        let result = copy_id(&id);
        self.register_tenant(id, name, email, resource_quota);
        Ok(result)
    }

    /// The tenant under `id`.
    pub fn get_tenant(&self, id: &TenantId) -> (r: Option<&Tenant>)
        ensures
            match r {
                Some(t) => self.tenants().contains_key(id.0@) && *t == self.tenants()[id.0@],
                None => !self.tenants().contains_key(id.0@),
            },
    {
        self.tenants.get(id.0.as_str())
    }

    /// Applies `updates` to the tenant under `id`.
    pub fn update_tenant(&mut self, id: &TenantId, updates: TenantUpdates) -> (r: Result<(), String>)
        ensures
            r is Ok <==> old(self).tenants().contains_key(id.0@),
            r is Ok ==> final(self).tenants() == old(self).tenants().insert(
                id.0@,
                updated(old(self).tenants()[id.0@], updates),
            ),
            r matches Err(m) ==> m@ == tenant_not_found(id.0@) && final(self).tenants() == old(self).tenants(),
            final(self).usage() == old(self).usage(),
            final(self).executions() == old(self).executions(),
    {
        proof {
            use_type_invariant(&*self);
        }
        let mut tenants: Registry<Tenant> = Registry::new();
        std::mem::swap(&mut tenants, &mut self.tenants);
        match tenants.take(id.0.as_str()) {
            Some(mut tenant) => {
                let TenantUpdates { name, email, status, resource_quota } = updates;
                if let Some(n) = name {
                    tenant.name = n;
                }
                if let Some(e) = email {
                    tenant.email = e;
                }
                if let Some(s) = status {
                    tenant.status = s;
                }
                if let Some(q) = resource_quota {
                    tenant.resource_quota = q;
                }
                tenants.insert(id.0.clone(), tenant);
                self.tenants = tenants;
                proof {
                    assert(self.tenants() =~= old(self).tenants().insert(id.0@, updated(old(self).tenants()[id.0@], updates)));
                }
                Ok(())
            },
            None => {
                self.tenants = tenants;
                proof {
                    assert(self.tenants() =~= old(self).tenants());
                }
                Err(owned("Tenant not found: ").concat(id.0.as_str()))
            },
        }
    }

    /// Removes the tenant under `id` and its usage record.
    pub fn delete_tenant(&mut self, id: &TenantId) -> (r: Result<(), String>)
        ensures
            r is Ok,
            final(self).tenants() == old(self).tenants().remove(id.0@),
            final(self).usage() == old(self).usage().remove(id.0@),
            final(self).executions() == old(self).executions(),
    {
        proof {
            use_type_invariant(&*self);
        }
        let mut tenants: Registry<Tenant> = Registry::new();
        std::mem::swap(&mut tenants, &mut self.tenants);
        tenants.remove(id.0.as_str());
        self.tenants = tenants;
        let mut usage: Registry<ResourceUsage> = Registry::new();
        std::mem::swap(&mut usage, &mut self.resource_usage);
        usage.remove(id.0.as_str());
        self.resource_usage = usage;
        Ok(())
    }

    /// Starts an execution of the tenant under `id` on `cluster_name`, filed
    /// under `execution_id`, if the tenant exists and has a free execution
    /// slot. A tenant with no usage record gets one first, even when the
    /// execution is then refused.
    pub fn open_execution(&mut self, id: &TenantId, cluster_name: String, execution_id: String) -> (r: Result<ExecutionContext, String>)
        ensures
            !old(self).tenants().contains_key(id.0@) ==> (r matches Err(m) && m@ == tenant_not_found(id.0@) && *final(self) == *old(self)),
            old(self).tenants().contains_key(id.0@) ==> {
                let u = usage_or_none(old(self).usage(), id.0@);
                let q = old(self).tenants()[id.0@].resource_quota;
                &&& final(self).tenants() == old(self).tenants()
                &&& (r is Ok <==> u.concurrent_executions < q.max_concurrent_executions)
                &&& r matches Err(m) ==> m@ == quota_reached_text()
                    && final(self).usage() == old(self).usage().insert(id.0@, u)
                    && final(self).executions() == old(self).executions()
                &&& r matches Ok(c) ==> {
                    &&& c.tenant_id.0@ == id.0@
                    &&& c.cluster_name@ == cluster_name@
                    &&& c.execution_id@ == execution_id@
                    &&& c.resource_limits == old(self).tenants()[id.0@].security_context.resource_limits
                    &&& same_security(c.security_context, old(self).tenants()[id.0@].security_context)
                    &&& final(self).usage() == old(self).usage().insert(
                        id.0@,
                        ResourceUsage { concurrent_executions: (u.concurrent_executions + 1) as u32, ..u },
                    )
                    &&& final(self).executions() == old(self).executions().insert(execution_id@, final(self).executions()[execution_id@])
                    &&& same_execution(final(self).executions()[execution_id@], c)
                }
            },
    {
        proof {
            use_type_invariant(&*self);
        }
        let (max, limits, security) = match self.tenants.get(id.0.as_str()) {
            Some(t) => (t.resource_quota.max_concurrent_executions, t.security_context.resource_limits, copy_security(&t.security_context)),
            None => {
                return Err(owned("Tenant not found: ").concat(id.0.as_str()));
            },
        };
        let usage = match self.resource_usage.get(id.0.as_str()) {
            Some(u) => *u,
            None => ResourceUsage::default(),
        };
        let mut usages: Registry<ResourceUsage> = Registry::new();
        std::mem::swap(&mut usages, &mut self.resource_usage);
        if usage.concurrent_executions >= max {
            usages.insert(id.0.clone(), usage);
            self.resource_usage = usages;
            return Err(owned("Maximum concurrent executions reached"));
        }
        let next = ResourceUsage { concurrent_executions: usage.concurrent_executions + 1, ..usage };
        usages.insert(id.0.clone(), next);
        self.resource_usage = usages;
        let filed_security = copy_security(&security);
        let context = ExecutionContext {
            tenant_id: copy_id(id),
            cluster_name,
            resource_limits: limits,
            security_context: security,
            execution_id: execution_id.clone(),
        };
        let filed = ExecutionContext {
            tenant_id: copy_id(id),
            cluster_name: context.cluster_name.clone(),
            resource_limits: limits,
            security_context: filed_security,
            execution_id: context.execution_id.clone(),
        };
        let mut executions: Registry<ExecutionContext> = Registry::new();
        std::mem::swap(&mut executions, &mut self.executions);
        executions.insert(execution_id, filed);
        self.executions = executions;
        Ok(context)
    }

    /// Starts an execution of the tenant under `id` on `cluster_name`, under
    /// a fresh random execution id, as `open_execution` does.
    pub fn create_execution_context(&mut self, id: &TenantId, cluster_name: String) -> (r: Result<ExecutionContext, String>)
        ensures
            !old(self).tenants().contains_key(id.0@) ==> (r matches Err(m) && m@ == tenant_not_found(id.0@) && *final(self) == *old(self)),
            old(self).tenants().contains_key(id.0@) ==> {
                let u = usage_or_none(old(self).usage(), id.0@);
                let q = old(self).tenants()[id.0@].resource_quota;
                &&& final(self).tenants() == old(self).tenants()
                &&& (r is Ok <==> u.concurrent_executions < q.max_concurrent_executions)
                &&& r matches Err(m) ==> m@ == quota_reached_text()
                    && final(self).usage() == old(self).usage().insert(id.0@, u)
                    && final(self).executions() == old(self).executions()
                &&& r matches Ok(c) ==> {
                    &&& c.tenant_id.0@ == id.0@
                    &&& c.cluster_name@ == cluster_name@
                    &&& exists|n: u128| c.execution_id@ == #[trigger] uuid_hyphenated(n)
                    &&& c.resource_limits == old(self).tenants()[id.0@].security_context.resource_limits
                    &&& same_security(c.security_context, old(self).tenants()[id.0@].security_context)
                    &&& final(self).usage() == old(self).usage().insert(
                        id.0@,
                        ResourceUsage { concurrent_executions: (u.concurrent_executions + 1) as u32, ..u },
                    )
                    &&& final(self).executions() == old(self).executions().insert(c.execution_id@, final(self).executions()[c.execution_id@])
                    &&& same_execution(final(self).executions()[c.execution_id@], c)
                }
            },
    {
        let u = new_uuid();
        let execution_id = uuid_text(&u);
        assert(execution_id@ == uuid_hyphenated(uuid_bits(u)));
        self.open_execution(id, cluster_name, execution_id)
    }

    /// Ends the execution under `execution_id`, freeing its tenant's slot.
    pub fn cleanup_execution(&mut self, execution_id: &str) -> (r: Result<(), String>)
        ensures
            r is Ok <==> old(self).executions().contains_key(execution_id@),
            r matches Err(m) ==> m@ == execution_not_found(execution_id@),
            r is Err ==> final(self).executions() == old(self).executions() && final(self).tenants() == old(self).tenants()
                && final(self).usage() == old(self).usage(),
            r is Ok ==> {
                let t = old(self).executions()[execution_id@].tenant_id.0@;
                &&& final(self).executions() == old(self).executions().remove(execution_id@)
                &&& final(self).tenants() == old(self).tenants()
                &&& final(self).usage() == (if old(self).usage().contains_key(t) && old(self).usage()[t].concurrent_executions > 0 {
                    old(self).usage().insert(
                        t,
                        ResourceUsage {
                            concurrent_executions: (old(self).usage()[t].concurrent_executions - 1) as u32,
                            ..old(self).usage()[t]
                        },
                    )
                } else {
                    old(self).usage()
                })
            },
    {
        proof {
            use_type_invariant(&*self);
        }
        let mut executions: Registry<ExecutionContext> = Registry::new();
        std::mem::swap(&mut executions, &mut self.executions);
        match executions.take(execution_id) {
            Some(context) => {
                self.executions = executions;
                let tenant = context.tenant_id.0.as_str();
                let current = match self.resource_usage.get(tenant) {
                    Some(u) => Some(*u),
                    None => None,
                };
                match current {
                    Some(u) => {
                        if u.concurrent_executions > 0 {
                            let next = ResourceUsage { concurrent_executions: u.concurrent_executions - 1, ..u };
                            let mut usages: Registry<ResourceUsage> = Registry::new();
                            std::mem::swap(&mut usages, &mut self.resource_usage);
                            usages.insert(context.tenant_id.0.clone(), next);
                            self.resource_usage = usages;
                        }
                    },
                    None => {},
                }
                Ok(())
            },
            None => {
                self.executions = executions;
                proof {
                    assert(self.executions() =~= old(self).executions());
                }
                Err(owned("Execution not found: ").concat(execution_id))
            },
        }
    }

    /// The resource usage recorded for the tenant under `id`.
    pub fn get_resource_usage(&self, id: &TenantId) -> (r: Option<ResourceUsage>)
        ensures
            r == (if self.usage().contains_key(id.0@) {
                Some(self.usage()[id.0@])
            } else {
                None
            }),
    {
        match self.resource_usage.get(id.0.as_str()) {
            Some(u) => Some(*u),
            None => None,
        }
    }

    /// The tenants, each once.
    pub fn list_tenants(&self) -> (r: Vec<&Tenant>)
        ensures
            r@.len() == self.tenants().dom().len(),
            forall|i: int| 0 <= i < r@.len() ==> {
                &&& self.tenants().contains_key((#[trigger] r@[i]).id.0@)
                &&& *r@[i] == self.tenants()[r@[i].id.0@]
            },
            forall|k: Seq<char>| #[trigger] self.tenants().contains_key(k) ==> exists|i: int| 0 <= i < r@.len() && r@[i].id.0@ == k,
    {
        proof {
            use_type_invariant(self);
        }
        let names = self.tenants.names();
        let mut r: Vec<&Tenant> = Vec::new();
        let mut i: usize = 0;
        while i < names.len()
            invariant
                i <= names@.len(),
                names_of(names@, self.tenants()),
                names@.len() == self.tenants().dom().len(),
                forall|k: Seq<char>| #[trigger] self.tenants().contains_key(k) ==> self.tenants()[k].id.0@ == k,
                r@.len() == i,
                forall|j: int| 0 <= j < i ==> (#[trigger] r@[j]).id.0@ == names@[j]@ && *r@[j] == self.tenants()[names@[j]@]
                    && self.tenants().contains_key(names@[j]@),
            decreases names@.len() - i,
        {
            assert(self.tenants().contains_key(names@[i as int]@));
            match self.tenants.get(names[i].as_str()) {
                Some(t) => {
                    r.push(t);
                },
                None => {},
            }
            i = i + 1;
        }
        proof {
            assert forall|k: Seq<char>| #[trigger] self.tenants().contains_key(k) implies exists|i: int| 0 <= i < r@.len() && r@[i].id.0@ == k by {
                let j = choose|j: int| 0 <= j < names@.len() && #[trigger] names@[j]@ == k;
                assert(r@[j].id.0@ == k);
            }
        }
        r
    }

    /// Whether the tenant under `id` uses more than its quota allows: a
    /// whole-number limit passed, or, as `cpu_exceeded` tells, its CPU cores.
    /// A tenant with no usage record has exceeded nothing.
    pub fn check_quota_exceeded(&self, id: &TenantId, cpu_exceeded: bool) -> (r: Result<bool, String>)
        ensures
            !self.tenants().contains_key(id.0@) ==> (r matches Err(m) && m@ == tenant_not_found(id.0@)),
            self.tenants().contains_key(id.0@) ==> r == Ok::<bool, String>(
                self.usage().contains_key(id.0@) && (
                    over_quota(self.usage()[id.0@], self.tenants()[id.0@].resource_quota) || cpu_exceeded
                ),
            ),
    {
        match self.tenants.get(id.0.as_str()) {
            Some(t) => match self.resource_usage.get(id.0.as_str()) {
                Some(u) => {
                    let q = t.resource_quota;
                    let exceeded = u.active_clusters > q.max_clusters
                        || u.total_replicas > q.max_replicas_per_cluster
                        || u.memory_usage_mb > q.max_memory_mb
                        || cpu_exceeded
                        || u.storage_usage_gb > q.max_storage_gb
                        || u.concurrent_executions > q.max_concurrent_executions;
                    Ok(exceeded)
                },
                None => Ok(false),
            },
            None => Err(owned("Tenant not found: ").concat(id.0.as_str())),
        }
    }
}

/// An update with no changes leaves a tenant as it was, and an update
/// changes only what it names: the id, creation time and security context
/// always stay.
pub proof fn law_update_changes_only_named(t: Tenant, u: TenantUpdates)
    ensures
        (u.name is None && u.email is None && u.status is None && u.resource_quota is None) ==> updated(t, u) == t,
        updated(t, u).id == t.id,
        updated(t, u).created_at == t.created_at,
        updated(t, u).security_context == t.security_context,
        u.name is None ==> updated(t, u).name == t.name,
        u.email is None ==> updated(t, u).email == t.email,
        u.status is None ==> updated(t, u).status == t.status,
        u.resource_quota is None ==> updated(t, u).resource_quota == t.resource_quota,
{
}

/// Admission never takes a tenant past its quota of concurrent executions,
/// and ending an admitted execution gives its slot back: the count is what it
/// was before.
pub proof fn law_admission_respects_quota(u: ResourceUsage, q: ResourceQuota)
    requires
        u.concurrent_executions <= q.max_concurrent_executions,
    ensures
        u.concurrent_executions < q.max_concurrent_executions ==> {
            let n = ResourceUsage { concurrent_executions: (u.concurrent_executions + 1) as u32, ..u };
            &&& n.concurrent_executions <= q.max_concurrent_executions
            &&& n.concurrent_executions > 0
            &&& (ResourceUsage { concurrent_executions: (n.concurrent_executions - 1) as u32, ..n }) == u
        },
{
}

} // verus!
