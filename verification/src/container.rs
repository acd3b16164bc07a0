//! Container images, replicas and their settings.

use vstd::prelude::*;
use crate::num_text::{decimal, push_decimal};
use crate::str_map::StrMap;
use crate::text::owned;

verus! {

/// Limits of a container's resources.
#[derive(Debug, Clone)]
pub struct ResourceConfig {
    pub cpu_limit: String,
    pub memory_limit: String,
    pub disk_limit: String,
}

impl Default for ResourceConfig {
    /// Half a CPU, 1 GiB of memory, 10 GiB of disk.
    fn default() -> (c: ResourceConfig)
        ensures
            c.cpu_limit@ == "500m"@,
            c.memory_limit@ == "1Gi"@,
            c.disk_limit@ == "10Gi"@,
    {
        ResourceConfig { cpu_limit: owned("500m"), memory_limit: owned("1Gi"), disk_limit: owned("10Gi") }
    }
}

/// Port mappings and network mode of a container.
#[derive(Debug, Clone)]
pub struct NetworkConfig {
    pub port_mappings: Vec<(u16, u16)>,
    pub network_mode: String,
}

impl Default for NetworkConfig {
    /// Ports 8080 and 8443 mapped to themselves, on the bridge network.
    fn default() -> (c: NetworkConfig)
        ensures
            c.port_mappings@ == seq![(8080u16, 8080u16), (8443u16, 8443u16)],
            c.network_mode@ == "bridge"@,
    {
        let mut port_mappings: Vec<(u16, u16)> = Vec::new();
        port_mappings.push((8080, 8080));
        port_mappings.push((8443, 8443));
        NetworkConfig { port_mappings, network_mode: owned("bridge") }
    }
}

/// A host directory mounted into a container.
#[derive(Debug, Clone)]
pub struct VolumeMount {
    pub source: String,
    pub target: String,
    pub read_only: bool,
}

/// How a container's health is probed.
#[derive(Debug, Clone)]
pub struct HealthCheckConfig {
    pub path: String,
    pub port: u16,
    pub interval: u64,
    pub timeout: u64,
    pub retries: u64,
}

impl Default for HealthCheckConfig {
    /// `/health` on port 8080 every 10 s, 5 s timeout, 3 retries.
    fn default() -> (c: HealthCheckConfig)
        ensures
            c.path@ == "/health"@,
            c.port == 8080,
            c.interval == 10,
            c.timeout == 5,
            c.retries == 3,
    {
        HealthCheckConfig { path: owned("/health"), port: 8080, interval: 10, timeout: 5, retries: 3 }
    }
}

/// When and how often a container is restarted.
#[derive(Debug, Clone)]
pub struct RestartPolicy {
    pub condition: String,
    pub delay: u64,
    pub max_attempts: u64,
}

impl Default for RestartPolicy {
    /// On failure, after 5 s, at most 3 times.
    fn default() -> (p: RestartPolicy)
        ensures
            p.condition@ == "on_failure"@,
            p.delay == 5,
            p.max_attempts == 3,
    {
        RestartPolicy { condition: owned("on_failure"), delay: 5, max_attempts: 3 }
    }
}

/// The deployment of a runtime image.
#[derive(Debug)]
pub struct ContainerConfig {
    pub image: String,
    pub version: String,
    pub replicas: usize,
    pub port: u16,
    pub env: StrMap,
    pub resource_config: ResourceConfig,
    pub network_config: NetworkConfig,
    pub health_check: Option<HealthCheckConfig>,
    pub restart_policy: RestartPolicy,
}

impl Default for ContainerConfig {
    /// Three replicas of `beejs:latest` (version v0.1.0) from port 8080, in
    /// the production environment, with the default settings.
    fn default() -> (c: ContainerConfig)
        ensures
            c.image@ == "beejs:latest"@,
            c.version@ == "v0.1.0"@,
            c.replicas == 3,
            c.port == 8080,
            c.env@ == map!["BEEJS_ENV"@ => "production"@],
            c.health_check is Some,
    {
        let mut env = StrMap::new();
        env.insert(owned("BEEJS_ENV"), owned("production"));
        assert(env@ =~= map!["BEEJS_ENV"@ => "production"@]);
        ContainerConfig {
            image: owned("beejs:latest"),
            version: owned("v0.1.0"),
            replicas: 3,
            port: 8080,
            env,
            resource_config: ResourceConfig::default(),
            network_config: NetworkConfig::default(),
            health_check: Some(HealthCheckConfig::default()),
            restart_policy: RestartPolicy::default(),
        }
    }
}

/// The state of a container.
#[derive(Debug, Clone, PartialEq)]
pub enum ContainerStatus {
    Starting,
    Running,
    Stopped,
    Error(String),
}

/// A started container.
#[derive(Debug, Clone)]
pub struct ContainerHandle {
    pub id: String,
    pub status: ContainerStatus,
    pub port: u16,
}

/// The name of the `i`-th container.
pub open spec fn container_name(i: nat) -> Seq<char> {
    "beejs-container-"@ + decimal(i)
}

/// Builds images and runs containers. The container engine is simulated:
/// every operation succeeds.
pub struct ContainerManager {}

impl ContainerManager {
    /// A manager.
    pub fn new() -> (m: ContainerManager)
        ensures
            m == (ContainerManager {}),
    {
        ContainerManager {}
    }

    /// The tag of the image of `version`.
    pub fn build_image(&self, version: &str) -> (r: Result<String, String>)
        ensures
            r matches Ok(tag) && tag@ == "beejs:"@ + version@,
    {
        Ok(owned("beejs:").concat(version))
    }

    /// Starts the configured replicas: the `i`-th is running on the base port
    /// plus `i`.
    pub fn start_containers(&self, config: &ContainerConfig) -> (r: Result<Vec<ContainerHandle>, String>)
        requires
            config.port + config.replicas <= 65536,
        ensures
            r matches Ok(handles) && handles@.len() == config.replicas && forall|i: int|
                0 <= i < handles@.len() ==> (#[trigger] handles@[i]).id@ == container_name(i as nat)
                    && handles@[i].status == ContainerStatus::Running && handles@[i].port == config.port + i,
    {
        let mut handles: Vec<ContainerHandle> = Vec::new();
        let mut i: usize = 0;
        while i < config.replicas
            invariant
                i <= config.replicas,
                config.port + config.replicas <= 65536,
                handles@.len() == i,
                forall|k: int| 0 <= k < i ==> (#[trigger] handles@[k]).id@ == container_name(k as nat)
                    && handles@[k].status == ContainerStatus::Running && handles@[k].port == config.port + k,
            decreases config.replicas - i,
        {
            let mut id = owned("beejs-container-");
            push_decimal(&mut id, i as u64);
            let port: u16 = config.port + i as u16;
            handles.push(ContainerHandle { id, status: ContainerStatus::Running, port });
            i = i + 1;
        }
        Ok(handles)
    }

    pub fn stop_container(&self, container_id: &str) -> (r: Result<(), String>)
        ensures
            r is Ok,
    {
        Ok(())
    }

    /// Every container reports running.
    pub fn get_container_status(&self, container_id: &str) -> (r: Result<ContainerStatus, String>)
        ensures
            r == Ok::<ContainerStatus, String>(ContainerStatus::Running),
    {
        Ok(ContainerStatus::Running)
    }

    pub fn mount_volume(&self, container_id: &str, volume: &VolumeMount) -> (r: Result<(), String>)
        ensures
            r is Ok,
    {
        Ok(())
    }

    pub fn set_environment(&self, container_id: &str, env: &[(String, String)]) -> (r: Result<(), String>)
        ensures
            r is Ok,
    {
        Ok(())
    }

    pub fn restart_container(&self, container_id: &str) -> (r: Result<(), String>)
        ensures
            r is Ok,
    {
        Ok(())
    }

    /// Scaling starts no new handle.
    pub fn scale_containers(&self, current_replicas: usize, target_replicas: usize) -> (r: Result<Vec<ContainerHandle>, String>)
        ensures
            r matches Ok(v) && v@.len() == 0,
    {
        Ok(Vec::new())
    }

    /// The log text of a container.
    pub fn get_container_logs(&self, container_id: &str) -> (r: Result<String, String>)
        ensures
            r matches Ok(t) && t@ == "Logs for container "@ + container_id@,
    {
        Ok(owned("Logs for container ").concat(container_id))
    }

    /// Every container reports healthy.
    pub fn check_container_health(&self, container_id: &str) -> (r: Result<bool, String>)
        ensures
            r == Ok::<bool, String>(true),
    {
        Ok(true)
    }

    pub fn update_container_image(&self, container_id: &str, new_image: &str) -> (r: Result<(), String>)
        ensures
            r is Ok,
    {
        Ok(())
    }

    pub fn cleanup_containers(&self) -> (r: Result<(), String>)
        ensures
            r is Ok,
    {
        Ok(())
    }
}

} // verus!
