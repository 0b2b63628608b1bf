//! The records that the engine sends and takes about its networks.
//!
//! Every field is optional unless the engine always sends it.
use vstd::prelude::*;

use std::collections::HashMap;

verus! {

#[derive(Debug, Clone, Default)]
pub struct IPAM {
    /// Name of the IPAM driver to use.
    pub driver: Option<String>,
    /// List of IPAM configuration options, specified as a map: `{"Subnet": <CIDR>, "IPRange": <CIDR>, "Gateway": <IP address>, "AuxAddress": <device_name:IP address>}`
    pub config: Option<Vec<HashMap<String, String>>>,
    /// Driver-specific options, specified as a map.
    pub options: Option<Vec<HashMap<String, String>>>,
}

#[derive(Debug, Clone, Default)]
pub struct NetworkContainer {
    pub endpoint_id: Option<String>,
    pub mac_address: Option<String>,
    pub i_pv4_address: Option<String>,
    pub i_pv6_address: Option<String>,
}

#[derive(Debug, Clone, Default)]
pub struct Network {
    pub name: Option<String>,
    pub id: Option<String>,
    pub created: Option<String>,
    pub scope: Option<String>,
    pub driver: Option<String>,
    pub enable_i_pv6: Option<bool>,
    pub ipam: Option<IPAM>,
    pub internal: Option<bool>,
    pub attachable: Option<bool>,
    pub containers: Option<HashMap<String, NetworkContainer>>,
    pub options: Option<HashMap<String, String>>,
    pub labels: Option<HashMap<String, String>>,
}

} // verus!
