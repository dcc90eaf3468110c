//! The requests that the actions feature takes on its own channel.

use vstd::prelude::*;
use crate::features::daemons::event::DaemonAction;

verus! {

/// One command as the actions feature's channel carries it.
#[derive(Debug, Clone)]
pub enum CommandAction {
    Run(Vec<String>),
    Vpn(String),
    Daemon(String, DaemonAction),
    Action(String),
}

/// A request to the actions feature.
#[derive(Debug, Clone)]
pub enum ActionInputEvent {
    ExecuteAction(String),
    ExecuteExportedAction(String),
    ExecuteCommand(CommandAction),
}

} // verus!
