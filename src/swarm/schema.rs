//! The records that the engine sends and takes about its swarm.
//!
//! Every field is optional unless the engine always sends it.
use vstd::prelude::*;

use std::collections::HashMap;

verus! {

/// Dispatcher configuration.
#[derive(Debug, Clone, Default)]
pub struct SpecDispatcher {
    /// The delay for an agent to send a heartbeat to the dispatcher.
    pub heartbeat_period: Option<i64>,
}

#[derive(Debug, Clone, Default)]
pub struct SpecCaConfigExternalCAs {
    /// Protocol for communication with the external CA (currently only `cfssl` is supported).
    pub protocol: Option<String>,
    /// URL where certificate signing requests should be sent.
    pub url: Option<String>,
    /// An object with key/value pairs that are interpreted as protocol-specific options for the external CA driver.
    pub options: Option<HashMap<String, String>>,
}

/// Parameters related to encryption-at-rest.
#[derive(Debug, Clone, Default)]
pub struct SpecEncryptionConfig {
    /// If set, generate a key and use it to lock data stored on the managers.
    pub auto_lock_managers: Option<bool>,
}

/// Orchestration configuration.
#[derive(Debug, Clone, Default)]
pub struct SpecOrchestration {
    /// The number of historic tasks to keep per instance or node. If negative, never remove completed or failed tasks.
    pub task_history_retention_limit: Option<i64>,
}

#[derive(Debug, Clone, Default)]
pub struct SpecTaskDefaultsLogDriver {
    pub name: Option<String>,
    pub options: Option<HashMap<String, String>>,
}

/// Defaults for creating tasks in this cluster.
#[derive(Debug, Clone, Default)]
pub struct SpecTaskDefaults {
    pub log_driver: Option<SpecTaskDefaultsLogDriver>,
}

/// CA configuration.
#[derive(Debug, Clone, Default)]
pub struct SpecCaConfig {
    /// The duration node certificates are issued for.
    pub node_cert_expiry: Option<i64>,
    /// Configuration for forwarding signing requests to an external certificate authority.
    pub external_c_as: Option<Vec<SpecCaConfigExternalCAs>>,
}

/// Raft configuration.
#[derive(Debug, Clone, Default)]
pub struct SpecRaft {
    /// The number of log entries between snapshots.
    pub snapshot_interval: Option<i64>,
    /// The number of snapshots to keep beyond the current snapshot.
    pub keep_old_snapshots: Option<i64>,
    /// The number of log entries to keep around to sync up slow followers after a snapshot is created.
    pub log_entries_for_slow_followers: Option<i64>,
    /// The number of ticks that a follower will wait for a message from the leader before becoming a
    /// candidate and starting an election. `ElectionTick` must be greater than `HeartbeatTick`.  A tick currently
    /// defaults to one second, so these correspond directly to seconds currently, but this is NOT guaranteed.
    pub election_tick: Option<i32>,
    /// The number of ticks between heartbeats. Every HeartbeatTick ticks, the leader will send a heartbeat to the
    /// followers.  A tick currently defaults to one second, so these correspond directly to seconds currently,
    /// but this is NOT guaranteed.
    pub heartbeat_tick: Option<i32>,
}

/// User modifiable swarm configuration.
#[derive(Debug, Clone, Default)]
pub struct Spec {
    /// Name of the swarm.
    pub name: Option<String>,
    /// User-defined key/value metadata.
    pub labels: Option<HashMap<String, String>>,
    pub orchestration: Option<SpecOrchestration>,
    pub raft: Option<SpecRaft>,
    pub dispatcher: Option<SpecDispatcher>,
    pub ca_config: Option<SpecCaConfig>,
    pub encryption_config: Option<SpecEncryptionConfig>,
    pub task_defaults: Option<SpecTaskDefaults>,
}

/// User modifiable swarm configuration.
#[derive(Debug, Clone, Default)]
pub struct Swarm {
    pub id: String,
    pub spec: Spec,
    pub task_defaults: Option<SpecTaskDefaults>,
    pub encryption_config: Option<SpecEncryptionConfig>,
    pub join_tokens: HashMap<String, String>,
    pub dispatcher: Option<SpecDispatcher>,
}

} // verus!
