//! Kubernetes clusters of the runtime: deployment handles, health, and the
//! replica-count rule of autoscaling.

use vstd::prelude::*;

verus! {

/// The state of a cluster.
#[derive(Debug, Clone, PartialEq)]
pub enum ClusterStatus {
    Creating,
    Running,
    Scaling,
    Updating,
    Error(String),
    Terminating,
}

/// The health of a node.
#[derive(Debug, Clone, PartialEq)]
pub enum HealthStatus {
    Healthy,
    Unhealthy(String),
    Unknown,
}

/// A deployed cluster.
#[derive(Debug, Clone)]
pub struct ClusterHandle {
    pub namespace: String,
    pub replicas: i32,
    pub status: ClusterStatus,
}

/// How loaded a cluster is, as the autoscaler judges it from its usage
/// figures: over the scale-up thresholds, under the scale-down ones, or
/// between.
#[derive(Debug, Clone, Copy, PartialEq, Eq, Structural)]
pub enum LoadLevel {
    High,
    Normal,
    Low,
}

/// The replica count after one autoscaling step: one more under high load
/// below ten replicas, one fewer under low load above two, else unchanged.
pub open spec fn scaled_replicas(current: i32, load: LoadLevel) -> i32 {
    match load {
        LoadLevel::High => if current < 10 { (current + 1) as i32 } else { current },
        LoadLevel::Low => if current > 2 { (current - 1) as i32 } else { current },
        LoadLevel::Normal => current,
    }
}

/// Manages the runtime's cluster in one namespace. The cluster API is
/// simulated.
#[derive(Debug)]
pub struct K8sManager {
    pub namespace: String,
}

impl K8sManager {
    pub fn new(namespace: String) -> (m: K8sManager)
        ensures
            m.namespace == namespace,
    {
        K8sManager { namespace }
    }

    /// The replica count the cluster runs now (simulated: three).
    pub fn get_current_replicas(&self) -> (r: Result<i32, String>)
        ensures
            r == Ok::<i32, String>(3),
    {
        Ok(3)
    }

    /// The replica count after one autoscaling step at `load`.
    pub fn next_replicas(&self, current: i32, load: LoadLevel) -> (r: i32)
        ensures
            r == scaled_replicas(current, load),
    {
        match load {
            LoadLevel::High => if current < 10 { current + 1 } else { current },
            LoadLevel::Low => if current > 2 { current - 1 } else { current },
            LoadLevel::Normal => current,
        }
    }

    /// Every node reports healthy.
    pub fn check_node_health(&self, node_id: &str) -> (r: Result<HealthStatus, String>)
        ensures
            r == Ok::<HealthStatus, String>(HealthStatus::Healthy),
    {
        Ok(HealthStatus::Healthy)
    }

    /// Rolls the cluster over to `new_version`; the cluster API is simulated
    /// and always accepts.
    pub fn update_cluster(&self, new_version: &str) -> (r: Result<(), String>)
        ensures
            r is Ok,
    {
        Ok(())
    }

    /// Deletes the cluster's resources in the namespace; always accepted.
    pub fn delete_cluster(&self) -> (r: Result<(), String>)
        ensures
            r is Ok,
    {
        Ok(())
    }

    /// Moves the work of a failed node elsewhere; always accepted.
    pub fn failover(&self, failed_node: &str) -> (r: Result<(), String>)
        ensures
            r is Ok,
    {
        Ok(())
    }

    /// Updates the pods one by one to `new_version`; always accepted.
    pub fn rolling_update(&self, new_version: &str) -> (r: Result<(), String>)
        ensures
            r is Ok,
    {
        Ok(())
    }

    /// The cluster reports running.
    pub fn get_cluster_status(&self) -> (r: Result<ClusterStatus, String>)
        ensures
            r == Ok::<ClusterStatus, String>(ClusterStatus::Running),
    {
        Ok(ClusterStatus::Running)
    }
}

/// Autoscaling keeps the replica count between two and ten once it is there:
/// it never scales below two nor above ten.
pub proof fn law_scaling_stays_in_bounds(current: i32, load: LoadLevel)
    requires
        2 <= current <= 10,
    ensures
        2 <= scaled_replicas(current, load) <= 10,
{
}

} // verus!
