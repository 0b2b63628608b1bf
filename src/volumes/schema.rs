//! The records that the engine sends and takes about its volumes.
//!
//! Every field is optional unless the engine always sends it.
use vstd::prelude::*;

use std::collections::HashMap;

verus! {

#[derive(Debug, Clone, Default)]
pub struct VolumeUsageData {
    /// The disk space used by the volume (local driver only)
    pub size: i32,
    /// The number of containers referencing this volume.
    pub ref_count: i32,
}

#[derive(Debug, Clone, Default)]
pub struct Volume {
    /// Name of the volume.
    pub name: String,
    /// Name of the volume driver used by the volume.
    pub driver: String,
    /// Mount path of the volume on the host.
    pub mountpoint: String,
    /// Low-level details about the volume, provided by the volume driver. Details are returned as a map with key/value pairs: `{"key":"value","key2":"value2"}`.  The `Status` field is optional, and is omitted if the volume driver does not support this feature.
    pub status: Option<HashMap<String, String>>,
    /// User-defined key/value metadata.
    pub labels: HashMap<String, String>,
    /// The level at which the volume exists. Either `global` for cluster-wide, or `local` for machine level.
    pub scope: String,
    /// The driver specific options used when creating the volume.
    pub options: HashMap<String, String>,
    pub usage_data: Option<VolumeUsageData>,
}

#[derive(Debug, Clone, Default)]
pub struct Volumes {
    pub volumes: Vec<Volume>,
    pub warnings: Vec<String>,
}

/// Optional configuration for the `tmpfs` type.
#[derive(Debug, Clone, Default)]
pub struct MountTmpfsOptions {
    /// The size for the tmpfs mount in bytes.
    pub size_bytes: Option<i64>,
    /// The permission mode for the tmpfs mount in an integer.
    pub mode: Option<i32>,
}

/// Map of driver specific options
#[derive(Debug, Clone, Default)]
pub struct MountVolumeOptionsDriverConfig {
    /// Name of the driver to use to create the volume.
    pub name: Option<String>,
    /// key/value map of driver specific options.
    pub options: Option<HashMap<String, String>>,
}

/// Optional configuration for the `volume` type.
#[derive(Debug, Clone, Default)]
pub struct MountVolumeOptions {
    /// Populate volume with data from the target.
    pub no_copy: Option<bool>,
    /// User-defined key/value metadata.
    pub labels: Option<HashMap<String, String>>,
    pub driver_config: Option<MountVolumeOptionsDriverConfig>,
}

#[derive(Debug, Clone, Default)]
pub struct Mount {
    /// Container path.
    pub target: Option<String>,
    /// The mount type. Available types:  - `bind` Mounts a file or directory from the host into the container. Must exist prior to creating the container. - `volume` Creates a volume with the given name and options (or uses a pre-existing volume with the same name and options). These are **not** removed when the container is removed. - `tmpfs` Create a tmpfs with the given options. The mount source cannot be specified for tmpfs.
    pub mount_type: Option<String>,
    /// Whether the mount should be read-only.
    pub read_only: Option<bool>,
    pub volume_options: Option<MountVolumeOptions>,
    pub tmpfs_options: Option<MountTmpfsOptions>,
}

} // verus!
