//! The requests and reports of the VPN feature on its own channel.

use vstd::prelude::*;
use crate::features::vpn::manager::IpInfo;

verus! {

/// A request to the VPN feature.
#[derive(Debug, Clone)]
pub enum VpnInputEvent {
    /// Switch to the profile with this id.
    RequestStateSwitch(String),
}

/// What the VPN feature reports about a switch.
#[derive(Debug, Clone)]
pub enum VpnDomainEvent {
    TransitionStarted { state_id: String, display_name: String, has_interface: bool },
    TransitionCompleted { state_id: String, display_name: String, ip_info: Option<IpInfo> },
    TransitionFailed { state_id: String, display_name: String, error: String },
}

} // verus!
