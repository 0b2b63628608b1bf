//! The records that the engine sends and takes about its images.
//!
//! Every field is optional unless the engine always sends it.
use vstd::prelude::*;

use std::collections::HashMap;

verus! {

/// A test to perform to check that the container is healthy.
#[derive(Debug, Clone, Default)]
pub struct HealthConfig {
    /// The test to perform. Possible values are:  - `{}` inherit healthcheck from image or parent image - `{"NONE"}` disable healthcheck - `{"CMD", args...}` exec arguments directly - `{"CMD-SHELL", command}` run command with system's default shell
    pub test: Option<Vec<String>>,
    /// The time to wait between checks in nanoseconds. 0 means inherit.
    pub interval: Option<i32>,
    /// The time to wait before considering the check to have hung. 0 means inherit.
    pub timeout: Option<i32>,
    /// The number of consecutive failures needed to consider a container as unhealthy. 0 means inherit.
    pub retries: Option<i32>,
}

/// An object mapping mount point paths inside the container to empty objects.
#[derive(Debug, Clone, Default)]
pub struct ConfigVolumes {}

/// Configuration for a container that is portable between hosts
#[derive(Debug, Clone, Default)]
pub struct Config {
    /// The hostname to use for the container, as a valid RFC 1123 hostname.
    pub hostname: Option<String>,
    /// The domain name to use for the container.
    pub domainname: Option<String>,
    /// The user that commands are run as inside the container.
    pub user: Option<String>,
    /// Whether to attach to `stdin`.
    pub attach_stdin: Option<bool>,
    /// Whether to attach to `stdout`.
    pub attach_stdout: Option<bool>,
    /// Whether to attach to `stderr`.
    pub attach_stderr: Option<bool>,
    /// Attach standard streams to a TTY, including `stdin` if it is not closed.
    pub tty: Option<bool>,
    /// Open `stdin`
    pub open_stdin: Option<bool>,
    /// Close `stdin` after one attached client disconnects
    pub stdin_once: Option<bool>,
    /// A list of environment variables to set inside the container in the form `["VAR=value", ...]`
    pub env: Option<Vec<String>>,
    pub healthcheck: Option<HealthConfig>,
    /// Command is already escaped (Windows only)
    pub args_escaped: Option<bool>,
    /// The name of the image to use when creating the container
    pub image: Option<String>,
    pub volumes: Option<ConfigVolumes>,
    /// The working directory for commands to run in.
    pub working_dir: Option<String>,
    /// Disable networking for the container.
    pub network_disabled: Option<bool>,
    /// MAC address of the container.
    pub mac_address: Option<String>,
    /// `ONBUILD` metadata that were defined in the image's `Dockerfile`.
    pub on_build: Option<Vec<String>>,
    /// User-defined key/value metadata.
    pub labels: Option<HashMap<String, String>>,
    /// Signal to stop a container as a string or unsigned integer.
    pub stop_signal: Option<String>,
    /// Timeout to stop a container in seconds.
    pub stop_timeout: Option<i32>,
    /// Shell for when `RUN`, `CMD`, and `ENTRYPOINT` uses a shell.
    pub shell: Option<Vec<String>>,
}

/// Information about this container's graph driver.
#[derive(Debug, Clone, Default)]
pub struct GraphDriver {
    pub name: Option<String>,
    pub data: Option<HashMap<String, String>>,
}

#[derive(Debug, Clone, Default)]
pub struct ImageRootFs {
    pub image_type: Option<String>,
    pub layers: Option<Vec<String>>,
    pub base_layer: Option<String>,
}

#[derive(Debug, Clone, Default)]
pub struct Image {
    pub id: Option<String>,
    pub repo_tags: Option<Vec<String>>,
    pub repo_digests: Option<Vec<String>>,
    pub parent: Option<String>,
    pub comment: Option<String>,
    pub created: Option<i64>,
    pub container: Option<String>,
    pub container_config: Option<Config>,
    pub docker_version: Option<String>,
    pub author: Option<String>,
    pub config: Option<Config>,
    pub architecture: Option<String>,
    pub os: Option<String>,
    pub size: Option<i64>,
    pub virtual_size: Option<i64>,
    pub graph_driver: Option<GraphDriver>,
    pub root_fs: Option<ImageRootFs>,
}

} // verus!
