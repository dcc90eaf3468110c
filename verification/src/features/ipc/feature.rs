//! The IPC feature's own logic: the socket path, what a message asks for,
//! and the `de-action` script that sends messages.

use vstd::prelude::*;
use crate::text::{to_string, join3, trim, trim_str, str_eq, words_of, split_words};
use crate::base::event_bus::{EventContext, Initiator, SystemEvent, DaemonAction, opt_string_view};
use crate::features::command::{daemon_action_of, daemon_action_from_str};
use crate::features::ipc::config::IpcConfig;

verus! {

/// The IPC feature.
pub struct IpcFeature;

/// The socket path where the configuration names none.
pub open spec fn default_socket_path() -> Seq<char> {
    "/tmp/de-configurator.sock"@
}

/// The context of the requests that arrive over the socket.
pub open spec fn ipc_context() -> EventContext {
    EventContext { initiator: Initiator::Ipc, silent: false }
}

/// The `de-action` script for the socket at `path`: it sends its
/// arguments, joined by spaces, to the socket with `socat` or `nc`.
pub open spec fn script_for(path: Seq<char>) -> Seq<char> {
    "#!/bin/sh\nif [ -z \"$1\" ]; then\n    echo \"Usage: de-action <action> | vpn <state> | daemon <name> on|off|toggle | workspace <name> [monitor]\"\n    exit 1\nfi\n\nSOCKET_PATH=\""@ + path + "\"\n\nif [ -S \"$SOCKET_PATH\" ]; then\n    if command -v socat >/dev/null 2>&1; then\n        echo \"$*\" | socat - \"UNIX-CONNECT:$SOCKET_PATH\"\n    elif command -v nc >/dev/null 2>&1; then\n        echo \"$*\" | nc -U \"$SOCKET_PATH\"\n    else\n        echo \"Error: Neither 'socat' nor 'nc' (netcat) with UNIX socket support is installed.\" >&2\n        exit 1\n    fi\nelse\n    echo \"de-configurator is not running or socket $SOCKET_PATH is missing.\" >&2\n    exit 1\nfi\n"@
}

/// What a message on the socket asks for.
pub ghost enum IpcRequestView {
    Vpn(Seq<char>),
    Daemon(Seq<char>, DaemonAction),
    Workspace(Seq<char>, Option<Seq<char>>),
    Exported(Seq<char>),
}

/// What a message asks for, read word by word: `vpn <state>`,
/// `daemon <name> <on|off|toggle>` and `workspace <name> [monitor]` are
/// commands; any other non-empty message, trimmed, names an exported action.
pub open spec fn spec_ipc_request(msg: Seq<char>) -> Option<IpcRequestView> {
    let t = trim(msg);
    let w = words_of(msg);
    if t.len() == 0 {
        None
    } else if w.len() == 2 && w[0] == "vpn"@ {
        Some(IpcRequestView::Vpn(w[1]))
    } else if w.len() == 3 && w[0] == "daemon"@ && daemon_action_of(w[2]) is Some {
        Some(IpcRequestView::Daemon(w[1], daemon_action_of(w[2])->0))
    } else if (w.len() == 2 || w.len() == 3) && w[0] == "workspace"@ {
        Some(IpcRequestView::Workspace(w[1], if w.len() == 3 { Some(w[2]) } else { None }))
    } else {
        Some(IpcRequestView::Exported(t))
    }
}

/// Whether `e` is the request for `v`, made over the socket.
pub open spec fn is_ipc_request(e: SystemEvent, v: IpcRequestView) -> bool {
    match v {
        IpcRequestView::Vpn(s) => e matches SystemEvent::RequestVpnSwitch { state_id, context }
            && state_id@ == s && context == ipc_context(),
        IpcRequestView::Daemon(d, a) => e matches SystemEvent::RequestDaemonControl { daemon_id, action, context }
            && daemon_id@ == d && action == a && context == ipc_context(),
        IpcRequestView::Workspace(ws, m) => e matches SystemEvent::RequestWorkspaceFocus { workspace_id, monitor_name, context }
            && workspace_id@ == ws && opt_string_view(monitor_name) == m && context == ipc_context(),
        IpcRequestView::Exported(id) => e matches SystemEvent::RequestActionExecuteExported { action_id, context }
            && action_id@ == id && context == ipc_context(),
    }
}

impl IpcFeature {
    /// The socket path: the configured one, else the default.
    pub fn socket_path(config: &IpcConfig) -> (r: String)
        ensures
            r@ == match config.path {
                Some(p) => p@,
                None => default_socket_path(),
            },
    {
        match &config.path {
            Some(p) => p.clone(),
            None => to_string("/tmp/de-configurator.sock"),
        }
    }

    /// The request that a message on the socket makes: `vpn <state>`,
    /// `daemon <name> on|off|toggle` and `workspace <name> [monitor]` ask for
    /// that command; any other message, trimmed, names an exported action to
    /// run; an empty one asks for nothing.
    pub fn request_for_message(msg: &str) -> (r: Option<SystemEvent>)
        ensures
            match spec_ipc_request(msg@) {
                None => r is None,
                Some(v) => r matches Some(e) && is_ipc_request(e, v),
            },
    {
        let target = trim_str(msg);
        if target.unicode_len() == 0 {
            return None;
        }
        let w = split_words(msg);
        let ghost wv = w@.map_values(|x: String| x@);
        assert(forall|k: int| 0 <= k < w@.len() ==> wv[k] == #[trigger] w@[k]@);
        let context = EventContext { initiator: Initiator::Ipc, silent: false };
        if w.len() == 2 && str_eq(w[0].as_str(), "vpn") {
            return Some(SystemEvent::RequestVpnSwitch { state_id: w[1].clone(), context });
        }
        if w.len() == 3 && str_eq(w[0].as_str(), "daemon") {
            match daemon_action_from_str(w[2].as_str()) {
                Some(a) => {
                    return Some(SystemEvent::RequestDaemonControl { daemon_id: w[1].clone(), action: a, context });
                },
                None => {},
            }
        }
        if (w.len() == 2 || w.len() == 3) && str_eq(w[0].as_str(), "workspace") {
            let monitor_name = if w.len() == 3 {
                Some(w[2].clone())
            } else {
                None
            };
            return Some(SystemEvent::RequestWorkspaceFocus { workspace_id: w[1].clone(), monitor_name, context });
        }
        Some(SystemEvent::RequestActionExecuteExported { action_id: target, context })
    }

    /// The text of the `de-action` script for the socket at `socket_path`.
    pub fn script_text(socket_path: &str) -> (r: String)
        ensures
            r@ == script_for(socket_path@),
    {
        join3("#!/bin/sh\nif [ -z \"$1\" ]; then\n    echo \"Usage: de-action <action> | vpn <state> | daemon <name> on|off|toggle | workspace <name> [monitor]\"\n    exit 1\nfi\n\nSOCKET_PATH=\"", socket_path, "\"\n\nif [ -S \"$SOCKET_PATH\" ]; then\n    if command -v socat >/dev/null 2>&1; then\n        echo \"$*\" | socat - \"UNIX-CONNECT:$SOCKET_PATH\"\n    elif command -v nc >/dev/null 2>&1; then\n        echo \"$*\" | nc -U \"$SOCKET_PATH\"\n    else\n        echo \"Error: Neither 'socat' nor 'nc' (netcat) with UNIX socket support is installed.\" >&2\n        exit 1\n    fi\nelse\n    echo \"de-configurator is not running or socket $SOCKET_PATH is missing.\" >&2\n    exit 1\nfi\n")
    }
}

} // verus!
