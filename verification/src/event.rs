//! The events of the stand-alone VPN manager.

use vstd::prelude::*;
use crate::vpn::IpInfo;

verus! {

/// A request to the stand-alone VPN manager.
#[derive(Debug, Clone)]
pub enum InputEvent {
    /// Switch to the profile with this id.
    RequestStateSwitch(String),
}

/// What the stand-alone VPN manager reports about a switch.
#[derive(Debug, Clone)]
pub enum DomainEvent {
    TransitionStarted { state_id: String, display_name: String, has_interface: bool },
    TransitionCompleted { state_id: String, display_name: String, ip_info: Option<IpInfo> },
    TransitionFailed { state_id: String, display_name: String, error: String },
}

} // verus!
