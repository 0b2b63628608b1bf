//! The records that the engine sends and takes about its containers.
//!
//! Every field is optional unless the engine always sends it.
use vstd::prelude::*;

use std::collections::HashMap;

verus! {

#[derive(Debug, Clone, Default)]
pub struct HostConfig {
    pub network_mode: Option<String>,
}

/// IPAM configurations for the endpoint
#[derive(Debug, Clone, Default)]
pub struct EndpointSettingsIpamConfig {
    pub i_pv4_address: Option<String>,
    pub i_pv6_address: Option<String>,
    pub link_local_i_ps: Option<Vec<String>>,
}

/// Configuration for a network endpoint.
#[derive(Debug, Clone, Default)]
pub struct EndpointSettings {
    pub ipam_config: Option<EndpointSettingsIpamConfig>,
    pub links: Option<Vec<String>>,
    pub aliases: Option<Vec<String>>,
    pub network_id: Option<String>,
    pub endpoint_id: Option<String>,
    pub gateway: Option<String>,
    pub ip_address: Option<String>,
    pub ip_prefix_len: Option<i32>,
    pub i_pv6_gateway: Option<String>,
    pub global_i_pv6_address: Option<String>,
    pub global_i_pv6_prefix_len: Option<i64>,
    pub mac_address: Option<String>,
}

/// A summary of the container's network settings
#[derive(Debug, Clone, Default)]
pub struct NetworkSettings {
    pub networks: Option<HashMap<String, EndpointSettings>>,
}

/// An open port on a container
#[derive(Debug, Clone, Default)]
pub struct Port {
    pub ip: Option<String>,
    /// Port on the container
    pub private_port: i32,
    /// Port exposed on the host
    pub public_port: Option<i32>,
    pub port_type: String,
}

#[derive(Debug, Clone, Default)]
pub struct Bridge {
    pub network_id: String,
    pub endpoint_id: String,
    pub gateway: String,
    pub ip_address: String,
    pub ip_prefix_len: u64,
    pub ipv6_gateway: String,
    pub global_ipv6_address: String,
    pub global_ipv6_preflix_len: u64,
    pub mac_address: String,
}

/// Map of driver specific options
#[derive(Debug, Clone, Default)]
pub struct MountVolumeOptionsDriverConfig {
    /// Name of the driver to use to create the volume.
    pub name: Option<String>,
    /// key/value map of driver specific options.
    pub options: Option<HashMap<String, String>>,
}

/// Optional configuration for the `volume` type.
#[derive(Debug, Clone, Default)]
pub struct MountVolumeOptions {
    /// Populate volume with data from the target.
    pub no_copy: Option<bool>,
    /// User-defined key/value metadata.
    pub labels: Option<HashMap<String, String>>,
    pub driver_config: Option<MountVolumeOptionsDriverConfig>,
}

/// Optional configuration for the `tmpfs` type.
#[derive(Debug, Clone, Default)]
pub struct MountTmpfsOptions {
    /// The size for the tmpfs mount in bytes.
    pub size_bytes: Option<i64>,
    /// The permission mode for the tmpfs mount in an integer.
    pub mode: Option<i32>,
}

#[derive(Debug, Clone, Default)]
pub struct Mount {
    /// Container path.
    pub target: Option<String>,
    /// The mount type. Available types:  - `bind` Mounts a file or directory from the host into the container. Must exist prior to creating the container. - `volume` Creates a volume with the given name and options (or uses a pre-existing volume with the same name and options). These are **not** removed when the container is removed. - `tmpfs` Create a tmpfs with the given options. The mount source cannot be specified for tmpfs.
    pub mount_type: Option<String>,
    /// Whether the mount should be read-only.
    pub read_only: Option<bool>,
    pub volume_options: Option<MountVolumeOptions>,
    pub tmpfs_options: Option<MountTmpfsOptions>,
}

#[derive(Debug, Clone, Default)]
pub struct Container {
    /// The ID of this container
    pub id: Option<String>,
    /// The names that this container has been given
    pub names: Option<Vec<String>>,
    /// The name of the image used when creating this container
    pub image: Option<String>,
    /// The ID of the image that this container was created from
    pub image_id: Option<String>,
    /// Command to run when starting the container
    pub command: Option<String>,
    /// When the container was created
    pub created: Option<i64>,
    /// The ports exposed by this container
    pub ports: Option<Vec<Port>>,
    /// The size of files that have been created or changed by this container
    pub size_rw: Option<i64>,
    /// The total size of all the files in this container
    pub size_root_fs: Option<i64>,
    /// User-defined key/value metadata.
    pub labels: Option<HashMap<String, String>>,
    /// The state of this container (e.g. `Exited`)
    pub state: Option<String>,
    /// Additional human-readable status of this container (e.g. `Exit 0`)
    pub status: Option<String>,
    pub host_config: Option<HostConfig>,
    pub network_settings: Option<NetworkSettings>,
    pub mounts: Option<Vec<Mount>>,
}

} // verus!
