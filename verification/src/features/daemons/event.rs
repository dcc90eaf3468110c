//! The events of the daemons feature.

use vstd::prelude::*;
use crate::base::event_bus::SystemEvent;

verus! {

/// What to do with a daemon, as its notifications name it.
#[derive(Debug, Clone, Copy, PartialEq, Eq, Structural)]
pub enum DaemonAction {
    On,
    Off,
    Toggle,
}

/// How a notification names each action.
pub open spec fn action_text(a: DaemonAction) -> Seq<char> {
    match a {
        DaemonAction::On => "включение"@,
        DaemonAction::Off => "выключение"@,
        DaemonAction::Toggle => "переключение"@,
    }
}

/// The action of the event bus that stands for `a`.
pub open spec fn from_bus_action(a: crate::base::event_bus::DaemonAction) -> DaemonAction {
    match a {
        crate::base::event_bus::DaemonAction::On => DaemonAction::On,
        crate::base::event_bus::DaemonAction::Off => DaemonAction::Off,
        crate::base::event_bus::DaemonAction::Toggle => DaemonAction::Toggle,
    }
}

impl DaemonAction {
    /// The name of the action in notifications.
    pub fn text(&self) -> (r: &'static str)
        ensures
            r@ == action_text(*self),
    {
        match self {
            DaemonAction::On => "включение",
            DaemonAction::Off => "выключение",
            DaemonAction::Toggle => "переключение",
        }
    }

    /// The action that an event of the bus carries.
    pub fn from_bus(a: crate::base::event_bus::DaemonAction) -> (r: Self)
        ensures
            r == from_bus_action(a),
    {
        match a {
            crate::base::event_bus::DaemonAction::On => DaemonAction::On,
            crate::base::event_bus::DaemonAction::Off => DaemonAction::Off,
            crate::base::event_bus::DaemonAction::Toggle => DaemonAction::Toggle,
        }
    }
}

/// A request to control a daemon.
#[derive(Debug, Clone)]
pub enum DaemonInputEvent {
    Control { daemon_id: String, action: DaemonAction, silent: bool },
}

/// What happened to a daemon.
#[derive(Debug, Clone)]
pub enum DaemonDomainEvent {
    StateChanged { daemon_id: String, display_name: String, is_running: bool },
    TransitionFailed {
        daemon_id: String,
        display_name: String,
        action: DaemonAction,
        error: String,
    },
}

impl DaemonDomainEvent {
    /// The daemon event that a bus event reports; none for another event,
    /// or for one whose context is silent.
    pub fn from_system(e: &SystemEvent) -> (r: Option<Self>)
        ensures
            match *e {
                SystemEvent::DaemonStateChanged { daemon_id, display_name, is_running, context } =>
                    if context.silent {
                    r is None
                } else {
                    r matches Some(DaemonDomainEvent::StateChanged { daemon_id: d, display_name: n, is_running: b })
                        && d@ == daemon_id@ && n@ == display_name@ && b == is_running
                },
                SystemEvent::DaemonStateTransitionFailed { daemon_id, display_name, action, error, context } =>
                    if context.silent {
                    r is None
                } else {
                    r matches Some(DaemonDomainEvent::TransitionFailed { daemon_id: d, display_name: n, action: a, error: m })
                        && d@ == daemon_id@ && n@ == display_name@ && a == from_bus_action(action) && m@ == error@
                },
                _ => r is None,
            },
    {
        match e {
            SystemEvent::DaemonStateChanged { daemon_id, display_name, is_running, context } => {
                if context.silent {
                    return None;
                }
                Some(DaemonDomainEvent::StateChanged {
                    daemon_id: daemon_id.clone(),
                    display_name: display_name.clone(),
                    is_running: *is_running,
                })
            },
            SystemEvent::DaemonStateTransitionFailed { daemon_id, display_name, action, error, context } => {
                if context.silent {
                    return None;
                }
                Some(DaemonDomainEvent::TransitionFailed {
                    daemon_id: daemon_id.clone(),
                    display_name: display_name.clone(),
                    action: DaemonAction::from_bus(*action),
                    error: error.clone(),
                })
            },
            _ => None,
        }
    }
}

} // verus!
