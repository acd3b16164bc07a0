//! Runtime support library: error model, recovery and fallback planning,
//! event-loop and timer state machines, logging/tracing records, policy
//! checks and streaming text grammars.

pub mod assoc;
pub mod cluster;
pub mod compliance;
pub mod container;
pub mod enterprise;
pub mod error;
pub mod error_handler;
pub mod event_loop;
pub mod fallback;
pub mod ffi;
pub mod gitops;
pub mod holographic;
pub mod immersive;
pub mod grammar;
pub mod logging;
pub mod metrics;
pub mod num_text;
pub mod security;
pub mod security_module;
pub mod str_map;
pub mod team;
pub mod tenancy;
pub mod text;
pub mod time;
pub mod tracing;
