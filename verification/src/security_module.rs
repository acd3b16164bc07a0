//! The unified security module: a process sandbox and a key management
//! service, set up together.

use vstd::prelude::*;
use crate::assoc::Registry;
use crate::str_map::StrMap;
use crate::text::owned;

verus! {

/// Where and under which limits sandboxed processes run.
#[derive(Debug)]
pub struct SandboxConfig {
    pub enabled: bool,
    pub base_dir: String,
    pub max_memory: u64,
    pub max_cpu_time: u64,
    pub max_processes: usize,
    pub max_file_size: u64,
    pub allowed_paths: Vec<String>,
    pub blocked_paths: Vec<String>,
    pub network_enabled: bool,
    pub env_vars: StrMap,
    pub blocked_env_vars: Vec<String>,
}

/// Resource use summed over the running sandboxes.
#[derive(Debug, Clone, Copy, PartialEq, Eq)]
pub struct ResourceTracker {
    pub active_count: usize,
    pub total_memory: u64,
    pub total_cpu_time: u64,
    pub peak_memory: u64,
}

/// The runtime sandbox: its configuration, the ids of the running sandboxes and
/// their resource use.
#[derive(Debug)]
pub struct SecuritySandbox {
    pub config: SandboxConfig,
    pub active_sandboxes: Vec<String>,
    pub resource_usage: ResourceTracker,
}

/// The message of a sandbox whose base directory could not be made.
pub open spec fn base_dir_failure_text(cause: Seq<char>) -> Seq<char> {
    "Failed to create sandbox base directory: "@ + cause
}

impl SecuritySandbox {
    /// A sandbox with nothing running, once its base directory is there:
    /// `base_dir` is the outcome of making it (`Ok` where it already existed),
    /// and its error is this one's cause.
    pub fn new(config: SandboxConfig, base_dir: Result<(), String>) -> (r: Result<SecuritySandbox, String>)
        ensures
            r is Ok <==> base_dir is Ok,
            match r {
                Ok(s) => {
                    &&& s.config == config
                    &&& s.active_sandboxes@.len() == 0
                    &&& s.resource_usage == (ResourceTracker { active_count: 0, total_memory: 0, total_cpu_time: 0, peak_memory: 0 })
                },
                Err(m) => base_dir matches Err(cause) && m@ == base_dir_failure_text(cause@),
            },
    {
        match base_dir {
            Ok(()) => Ok(SecuritySandbox {
                config,
                active_sandboxes: Vec::new(),
                resource_usage: ResourceTracker { active_count: 0, total_memory: 0, total_cpu_time: 0, peak_memory: 0 },
            }),
            Err(cause) => Err(owned("Failed to create sandbox base directory: ").concat(cause.as_str())),
        }
    }
}

/// An encryption algorithm.
#[derive(Debug, Clone, PartialEq, Eq)]
pub enum EncryptionAlgorithm {
    AES256GCM,
    ChaCha20Poly1305,
    RSA4096,
    Custom(String),
}

/// The kind of a key.
#[derive(Debug, Clone, PartialEq, Eq)]
pub enum KeyType {
    Symmetric,
    Asymmetric,
    HMAC,
    Custom(String),
}

/// Where a key is in its life.
#[derive(Debug, Clone, Copy, PartialEq, Eq)]
pub enum KeyState {
    Active,
    Expired,
    Revoked,
    Suspended,
}

/// A cryptographic key and what is known of it.
#[derive(Debug)]
pub struct CryptographicKey {
    pub id: String,
    pub key_type: KeyType,
    pub algorithm: EncryptionAlgorithm,
    pub key_data: Vec<u8>,
    pub created_at: std::time::SystemTime,
    pub expires_at: Option<std::time::SystemTime>,
    pub state: KeyState,
    pub metadata: StrMap,
}

/// How keys are chosen, rotated and kept.
#[derive(Debug, Clone)]
pub struct EncryptionConfig {
    pub default_algorithm: EncryptionAlgorithm,
    pub key_rotation_interval_days: u32,
    pub enable_hsm: bool,
    pub backup_keys: bool,
}

/// The keys by id, with the configuration they are managed under.
#[derive(Debug)]
pub struct KeyManagementService {
    pub keys: Registry<CryptographicKey>,
    pub config: EncryptionConfig,
}

impl KeyManagementService {
    /// A service holding no key.
    pub fn new(config: EncryptionConfig) -> (k: KeyManagementService)
        ensures
            k.keys.map() == Map::<Seq<char>, CryptographicKey>::empty(),
            k.config == config,
    {
        KeyManagementService { keys: Registry::new(), config }
    }
}

/// The sandbox and the key management service together.
#[derive(Debug)]
pub struct SecurityModule {
    pub sandbox: SecuritySandbox,
    pub kms: KeyManagementService,
}

impl SecurityModule {
    /// The module of a new sandbox and a key service with no key; it fails as
    /// the sandbox does, where its base directory could not be made.
    pub fn new(sandbox_config: SandboxConfig, encryption_config: EncryptionConfig, base_dir: Result<(), String>) -> (r: Result<SecurityModule, String>)
        ensures
            r is Ok <==> base_dir is Ok,
            match r {
                Ok(m) => {
                    &&& m.sandbox.config == sandbox_config
                    &&& m.sandbox.active_sandboxes@.len() == 0
                    &&& m.sandbox.resource_usage == (ResourceTracker { active_count: 0, total_memory: 0, total_cpu_time: 0, peak_memory: 0 })
                    &&& m.kms.keys.map() == Map::<Seq<char>, CryptographicKey>::empty()
                    &&& m.kms.config == encryption_config
                },
                Err(msg) => base_dir matches Err(cause) && msg@ == base_dir_failure_text(cause@),
            },
    {
        let sandbox = match SecuritySandbox::new(sandbox_config, base_dir) {
            Ok(s) => s,
            Err(e) => return Err(e),
        };
        let kms = KeyManagementService::new(encryption_config);
        Ok(SecurityModule { sandbox, kms })
    }
}

} // verus!
