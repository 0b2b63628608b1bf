//! The records that the engine sends and takes about its tasks.
//!
//! Every field is optional unless the engine always sends it.
use vstd::prelude::*;

use std::collections::HashMap;

use crate::images::schema::HealthConfig;
use crate::volumes::schema::Mount;

verus! {

/// Define resources reservation.
#[derive(Debug, Clone, Default)]
pub struct TaskSpecResourcesReservation {
    /// CPU reservation in units of 10<sup>-9</sup> CPU shares.
    pub nano_cp_us: Option<i64>,
    /// Memory reservation in Bytes.
    pub memory_bytes: Option<i64>,
}

/// Define resources limits.
#[derive(Debug, Clone, Default)]
pub struct TaskSpecResourcesLimits {
    /// CPU limit in units of 10<sup>-9</sup> CPU shares.
    pub nano_cp_us: Option<i64>,
    /// Memory limit in Bytes.
    pub memory_bytes: Option<i64>,
}

/// Specification for DNS related configurations in resolver configuration file (`resolv.conf`).
#[derive(Debug, Clone, Default)]
pub struct TaskSpecContainerSpecDnsConfig {
    /// The IP addresses of the name servers.
    pub nameservers: Option<Vec<String>>,
    /// A search list for host-name lookup.
    pub search: Option<Vec<String>>,
    /// A list of internal resolver variables to be modified (e.g., `debug`, `ndots:3`, etc.).
    pub options: Option<Vec<String>>,
}

/// File represents a specific target that is backed by a file.
#[derive(Debug, Clone, Default)]
pub struct TaskSpecContainerSpecFile {
    /// Name represents the final filename in the filesystem.
    pub name: Option<String>,
    /// UID represents the file UID.
    pub uid: Option<String>,
    /// GID represents the file GID.
    pub gid: Option<String>,
    /// Mode represents the FileMode of the file.
    pub mode: Option<i32>,
}

#[derive(Debug, Clone, Default)]
pub struct TaskSpecContainerSpecSecrets {
    pub file: Option<TaskSpecContainerSpecFile>,
    /// SecretID represents the ID of the specific secret that we're referencing.
    pub secret_id: Option<String>,
    /// SecretName is the name of the secret that this references, but this is just provided for lookup/display purposes. The secret in the reference will be identified by its ID.
    pub secret_name: Option<String>,
}

#[derive(Debug, Clone, Default)]
pub struct TaskSpecResources {
    pub limits: Option<TaskSpecResourcesLimits>,
    pub reservation: Option<TaskSpecResourcesReservation>,
}

#[derive(Debug, Clone, Default)]
pub struct TaskSpecPlacement {
    /// An array of constraints.
    pub constraints: Option<Vec<String>>,
}

/// Specification for the restart policy which applies to containers created as part of this service.
#[derive(Debug, Clone, Default)]
pub struct TaskSpecRestartPolicy {
    /// Condition for restart.
    pub condition: Option<String>,
    /// Delay between restart attempts.
    pub delay: Option<i64>,
    /// Maximum attempts to restart a given container before giving up (default value is 0, which is ignored).
    pub max_attempts: Option<i64>,
    /// Windows is the time window used to evaluate the restart policy (default value is 0, which is unbounded).
    pub window: Option<i64>,
}

#[derive(Debug, Clone, Default)]
pub struct TaskSpecLogDriver {
    pub name: Option<String>,
    pub options: Option<HashMap<String, String>>,
}

#[derive(Debug, Clone, Default)]
pub struct TaskSpecContainerSpec {
    /// The image name to use for the container.
    pub image: Option<String>,
    /// User-defined key/value data.
    pub labels: Option<HashMap<String, String>>,
    /// The command to be run in the image.
    pub command: Option<Vec<String>>,
    /// Arguments to the command.
    pub args: Option<Vec<String>>,
    /// The hostname to use for the container, as a valid RFC 1123 hostname.
    pub hostname: Option<String>,
    /// A list of environment variables in the form `VAR=value`.
    pub env: Option<Vec<String>>,
    /// The working directory for commands to run in.
    pub dir: Option<String>,
    /// The user inside the container.
    pub user: Option<String>,
    /// A list of additional groups that the container process will run as.
    pub groups: Option<Vec<String>>,
    /// Whether a pseudo-TTY should be allocated.
    pub tty: Option<bool>,
    /// Open `stdin`
    pub open_stdin: Option<bool>,
    /// Mount the container's root filesystem as read only.
    pub read_only: Option<bool>,
    /// Specification for mounts to be added to containers created as part of the service.
    pub mounts: Option<Vec<Mount>>,
    /// Amount of time to wait for the container to terminate before forcefully killing it.
    pub stop_grace_period: Option<i64>,
    pub health_check: Option<HealthConfig>,
    /// A list of hostnames/IP mappings to add to the container's `/etc/hosts` file. The format of extra hosts on swarmkit is specified in: http://man7.org/linux/man-pages/man5/hosts.5.html   IP_address canonical_hostname [aliases...]
    pub hosts: Option<Vec<String>>,
    pub dns_config: Option<TaskSpecContainerSpecDnsConfig>,
    /// Secrets contains references to zero or more secrets that will be exposed to the service.
    pub secrets: Option<Vec<TaskSpecContainerSpecSecrets>>,
}

#[derive(Debug, Clone, Default)]
pub struct TaskState {}

#[derive(Debug, Clone, Default)]
pub struct TaskSpecNetworks {
    pub target: Option<String>,
    pub aliases: Option<Vec<String>>,
}

/// User modifiable task configuration.
#[derive(Debug, Clone, Default)]
pub struct TaskSpec {
    pub container_spec: Option<TaskSpecContainerSpec>,
    pub resources: Option<TaskSpecResources>,
    pub restart_policy: Option<TaskSpecRestartPolicy>,
    pub placement: Option<TaskSpecPlacement>,
    /// A counter that triggers an update even if no relevant parameters have been changed.
    pub force_update: Option<i32>,
    pub networks: Option<Vec<TaskSpecNetworks>>,
    pub log_driver: Option<TaskSpecLogDriver>,
}

#[derive(Debug, Clone, Default)]
pub struct TaskStatusContainerStatus {
    pub container_id: Option<String>,
    pub pid: Option<i32>,
    pub exit_code: Option<i32>,
}

/// The version number of the object such as node, service, etc. This is needed to avoid conflicting writes. The client
/// must send the version number along with the modified specification when updating these objects. This approach ensures
/// safe concurrency and determinism in that the change on the object may not be applied if the version number has changed
/// from the last read. In other words, if two update requests specify the same base version, only one of the requests can
/// succeed. As a result, two separate update requests that happen at the same time will not unintentially overwrite each other.
#[derive(Debug, Clone, Default)]
pub struct ObjectVersion {
    pub index: Option<i64>,
}

#[derive(Debug, Clone, Default)]
pub struct TaskStatus {
    pub timestamp: Option<String>,
    pub state: Option<TaskState>,
    pub message: Option<String>,
    pub err: Option<String>,
    pub container_status: Option<TaskStatusContainerStatus>,
}

#[derive(Debug, Clone, Default)]
pub struct Task {
    /// The ID of the task.
    pub id: Option<String>,
    pub version: Option<ObjectVersion>,
    pub created_at: Option<String>,
    pub updated_at: Option<String>,
    /// Name of the task.
    pub name: Option<String>,
    /// User-defined key/value metadata.
    pub labels: Option<HashMap<String, String>>,
    pub spec: Option<TaskSpec>,
    /// The ID of the service the task belongs to.
    pub service_id: Option<String>,
    pub slot: Option<i32>,
    /// The ID of the node the task runs on.
    pub node_id: Option<String>,
    pub status: Option<TaskStatus>,
    pub desired_state: Option<TaskState>,
}

} // verus!
