//! The events that the features exchange, and the commands they carry.

use vstd::prelude::*;

verus! {

/// What to do with a background daemon.
#[derive(Debug, Clone, Copy, PartialEq, Eq, Structural)]
pub enum DaemonAction {
    On,
    Off,
    Toggle,
}

/// One command of an action, a keybind or a trigger.
#[derive(Debug, Clone, PartialEq, Eq)]
pub enum CommandAction {
    Run(Vec<String>),
    Vpn(String),
    Daemon(String, DaemonAction),
    Action(String),
    Workspace(String, Option<String>),
}

/// Who asked for an event.
#[derive(Debug, Clone, Copy, PartialEq, Eq, Structural)]
pub enum Initiator {
    Direct,
    Keybind,
    Ipc,
    Trigger,
    Action,
}

/// The origin of an event and whether it should stay silent (no notification).
#[derive(Debug, Clone, Copy, PartialEq, Eq, Structural)]
pub struct EventContext {
    pub initiator: Initiator,
    pub silent: bool,
}

/// Every event that travels on the event bus.
#[derive(Debug, Clone)]
pub enum SystemEvent {
    RequestVpnSwitch { state_id: String, context: EventContext },
    RequestDaemonControl { daemon_id: String, action: DaemonAction, context: EventContext },
    RequestActionExecute { action_id: String, context: EventContext },
    RequestActionExecuteExported { action_id: String, context: EventContext },
    RequestCommandExecute { command: CommandAction, context: EventContext },
    RequestWorkspaceFocus {
        workspace_id: String,
        monitor_name: Option<String>,
        context: EventContext,
    },
    VpnTransitionStarted {
        state_id: String,
        display_name: String,
        has_interface: bool,
        context: EventContext,
    },
    VpnStateChanged {
        state_id: String,
        display_name: String,
        ip_info: Option<String>,
        context: EventContext,
    },
    VpnStateTransitionFailed {
        state_id: String,
        display_name: String,
        error: String,
        context: EventContext,
    },
    DaemonStateChanged {
        daemon_id: String,
        display_name: String,
        is_running: bool,
        context: EventContext,
    },
    DaemonStateTransitionFailed {
        daemon_id: String,
        display_name: String,
        action: DaemonAction,
        error: String,
        context: EventContext,
    },
    WmMonitorFocused { monitor_name: String, context: EventContext },
    WmDesktopFocused { monitor_name: String, desktop_name: String, context: EventContext },
    WmNodeFocused {
        monitor_name: String,
        desktop_name: String,
        node_id: String,
        class_name: Option<String>,
        context: EventContext,
    },
    WmNodeAdded {
        monitor_name: String,
        desktop_name: String,
        node_id: String,
        class_name: Option<String>,
        context: EventContext,
    },
}

pub ghost enum CommandView {
    Run(Seq<Seq<char>>),
    Vpn(Seq<char>),
    Daemon(Seq<char>, DaemonAction),
    Action(Seq<char>),
    Workspace(Seq<char>, Option<Seq<char>>),
}

pub open spec fn strings_view(v: Seq<String>) -> Seq<Seq<char>> {
    v.map_values(|s: String| s@)
}

pub open spec fn opt_string_view(o: Option<String>) -> Option<Seq<char>> {
    match o {
        Some(s) => Some(s@),
        None => None,
    }
}

impl View for CommandAction {
    type V = CommandView;

    open spec fn view(&self) -> CommandView {
        match self {
            CommandAction::Run(p) => CommandView::Run(strings_view(p@)),
            CommandAction::Vpn(s) => CommandView::Vpn(s@),
            CommandAction::Daemon(d, a) => CommandView::Daemon(d@, *a),
            CommandAction::Action(a) => CommandView::Action(a@),
            CommandAction::Workspace(w, m) => CommandView::Workspace(w@, opt_string_view(*m)),
        }
    }
}

/// A copy of a list of strings.
pub fn clone_strings(v: &Vec<String>) -> (r: Vec<String>)
    ensures
        strings_view(r@) == strings_view(v@),
        r@.len() == v@.len(),
{
    let mut r: Vec<String> = Vec::new();
    let mut i: usize = 0;
    while i < v.len()
        invariant
            i <= v@.len(),
            r@.len() == i,
            forall|k: int| 0 <= k < i ==> r@[k]@ == v@[k]@,
        decreases v@.len() - i,
    {
        r.push(v[i].clone());
        i = i + 1;
    }
    assert(strings_view(r@) =~= strings_view(v@));
    r
}

/// A copy of an optional string.
pub fn clone_opt_string(o: &Option<String>) -> (r: Option<String>)
    ensures
        opt_string_view(r) == opt_string_view(*o),
{
    match o {
        Some(s) => Some(s.clone()),
        None => None,
    }
}

impl CommandAction {
    /// A copy of this command.
    pub fn duplicate(&self) -> (r: CommandAction)
        ensures
            r@ == self@,
    {
        match self {
            CommandAction::Run(p) => CommandAction::Run(clone_strings(p)),
            CommandAction::Vpn(s) => CommandAction::Vpn(s.clone()),
            CommandAction::Daemon(d, a) => CommandAction::Daemon(d.clone(), *a),
            CommandAction::Action(a) => CommandAction::Action(a.clone()),
            CommandAction::Workspace(w, m) => CommandAction::Workspace(
                w.clone(),
                clone_opt_string(m),
            ),
        }
    }
}

/// The context that every event carries.
pub open spec fn event_context(e: SystemEvent) -> EventContext {
    match e {
        SystemEvent::RequestVpnSwitch { context, .. } => context,
        SystemEvent::RequestDaemonControl { context, .. } => context,
        SystemEvent::RequestActionExecute { context, .. } => context,
        SystemEvent::RequestActionExecuteExported { context, .. } => context,
        SystemEvent::RequestCommandExecute { context, .. } => context,
        SystemEvent::RequestWorkspaceFocus { context, .. } => context,
        SystemEvent::VpnTransitionStarted { context, .. } => context,
        SystemEvent::VpnStateChanged { context, .. } => context,
        SystemEvent::VpnStateTransitionFailed { context, .. } => context,
        SystemEvent::DaemonStateChanged { context, .. } => context,
        SystemEvent::DaemonStateTransitionFailed { context, .. } => context,
        SystemEvent::WmMonitorFocused { context, .. } => context,
        SystemEvent::WmDesktopFocused { context, .. } => context,
        SystemEvent::WmNodeFocused { context, .. } => context,
        SystemEvent::WmNodeAdded { context, .. } => context,
    }
}

impl SystemEvent {
    /// The context of this event.
    pub fn context(&self) -> (r: &EventContext)
        ensures
            *r == event_context(*self),
    {
        match self {
            SystemEvent::RequestVpnSwitch { context, .. } => context,
            SystemEvent::RequestDaemonControl { context, .. } => context,
            SystemEvent::RequestActionExecute { context, .. } => context,
            SystemEvent::RequestActionExecuteExported { context, .. } => context,
            SystemEvent::RequestCommandExecute { context, .. } => context,
            SystemEvent::RequestWorkspaceFocus { context, .. } => context,
            SystemEvent::VpnTransitionStarted { context, .. } => context,
            SystemEvent::VpnStateChanged { context, .. } => context,
            SystemEvent::VpnStateTransitionFailed { context, .. } => context,
            SystemEvent::DaemonStateChanged { context, .. } => context,
            SystemEvent::DaemonStateTransitionFailed { context, .. } => context,
            SystemEvent::WmMonitorFocused { context, .. } => context,
            SystemEvent::WmDesktopFocused { context, .. } => context,
            SystemEvent::WmNodeFocused { context, .. } => context,
            SystemEvent::WmNodeAdded { context, .. } => context,
        }
    }
}

} // verus!
