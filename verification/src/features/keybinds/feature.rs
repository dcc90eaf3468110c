//! What a pressed hotkey does: the request of its keybind's command, at
//! most once a second for each keybind.

use vstd::prelude::*;
use crate::base::event_bus::{
    CommandAction, CommandView, EventContext, Initiator, SystemEvent, clone_strings, strings_view,
    opt_string_view,
};
use crate::features::keybinds::config::{KeybindsConfig, KeybindView, binds_view};
use crate::features::actions::feature::ActionsFeature;
use crate::features::vpn::state::{too_soon, throttle_ms};

verus! {

/// The keybinds feature.
pub struct KeybindsFeature;

/// The context of the requests that keybinds make.
pub open spec fn keybind_context() -> EventContext {
    EventContext { initiator: Initiator::Keybind, silent: false }
}

/// Whether `e` is the request that runs the command `cmd` with `context`:
/// a `run` command goes out as a command to execute, the others as their
/// own requests.
pub open spec fn is_request_for(e: SystemEvent, cmd: CommandView, context: EventContext) -> bool {
    match cmd {
        CommandView::Run(p) => e matches SystemEvent::RequestCommandExecute { command, context: c }
            && command@ == CommandView::Run(p) && c == context,
        CommandView::Vpn(s) => e matches SystemEvent::RequestVpnSwitch { state_id, context: c }
            && state_id@ == s && c == context,
        CommandView::Daemon(d, a) => e matches SystemEvent::RequestDaemonControl { daemon_id, action, context: c }
            && daemon_id@ == d && action == a && c == context,
        CommandView::Action(a) => e matches SystemEvent::RequestActionExecute { action_id, context: c }
            && action_id@ == a && c == context,
        CommandView::Workspace(w, m) => e matches SystemEvent::RequestWorkspaceFocus { workspace_id, monitor_name, context: c }
            && workspace_id@ == w && opt_string_view(monitor_name) == m && c == context,
    }
}

/// The index of the first keybind with hotkey id `id`.
pub open spec fn find_bind(binds: Seq<KeybindView>, id: u32) -> Option<int>
    decreases binds.len(),
{
    if binds.len() == 0 {
        None
    } else {
        match find_bind(binds.drop_last(), id) {
            Some(k) => Some(k),
            None => if binds.last().hotkey_id == id {
                Some(binds.len() - 1)
            } else {
                None
            },
        }
    }
}

pub proof fn lemma_find_bind(binds: Seq<KeybindView>, id: u32)
    ensures
        match find_bind(binds, id) {
            Some(k) => 0 <= k < binds.len() && binds[k].hotkey_id == id && forall|j: int|
                0 <= j < k ==> binds[j].hotkey_id != id,
            None => forall|j: int| 0 <= j < binds.len() ==> binds[j].hotkey_id != id,
        },
    decreases binds.len(),
{
    if binds.len() > 0 {
        let p = binds.drop_last();
        lemma_find_bind(p, id);
        assert(forall|j: int| 0 <= j < p.len() ==> p[j] == binds[j]);
    }
}

/// A press of hotkey `id` at `now` (milliseconds), given when each keybind
/// last fired: the first keybind of that hotkey fires unless it fired less
/// than a second ago. The new times, and the keybind that fires.
pub open spec fn spec_press(binds: Seq<KeybindView>, last: Seq<Option<u64>>, id: u32, now: u64) -> (Seq<Option<u64>>, Option<int>) {
    match find_bind(binds, id) {
        None => (last, None),
        Some(k) => if too_soon(last[k], now) {
            (last, None)
        } else {
            (last.update(k, Some(now)), Some(k))
        },
    }
}

/// A second press of the same hotkey less than a second after one that
/// fired does nothing.
pub proof fn law_keybind_presses_are_throttled(
    binds: Seq<KeybindView>,
    last: Seq<Option<u64>>,
    id: u32,
    t1: u64,
    t2: u64,
)
    requires
        last.len() == binds.len(),
        spec_press(binds, last, id, t1).1 is Some,
        t1 <= t2 < t1 + throttle_ms(),
    ensures
        ({
            let last1 = spec_press(binds, last, id, t1).0;
            spec_press(binds, last1, id, t2) == (last1, None::<int>)
        }),
{
    lemma_find_bind(binds, id);
}

impl KeybindsFeature {
    /// The request that runs `cmd` with `context`.
    pub fn request_for(cmd: &CommandAction, context: EventContext) -> (r: SystemEvent)
        ensures
            is_request_for(r, cmd@, context),
    {
        match cmd {
            CommandAction::Run(p) => SystemEvent::RequestCommandExecute {
                command: CommandAction::Run(clone_strings(p)),
                context,
            },
            _ => {
                match ActionsFeature::step_event(cmd, context) {
                    Some(e) => e,
                    None => SystemEvent::RequestCommandExecute { command: cmd.duplicate(), context },
                }
            },
        }
    }

    /// The times the keybinds last fired, at start: none yet.
    pub fn initial_presses(config: &KeybindsConfig) -> (r: Vec<Option<u64>>)
        ensures
            r@.len() == config.binds@.len(),
            forall|k: int| 0 <= k < r@.len() ==> r@[k] is None,
    {
        let mut r: Vec<Option<u64>> = Vec::new();
        let mut i: usize = 0;
        while i < config.binds.len()
            invariant
                i <= config.binds@.len(),
                r@.len() == i,
                forall|k: int| 0 <= k < r@.len() ==> r@[k] is None,
            decreases config.binds@.len() - i,
        {
            r.push(None);
            i = i + 1;
        }
        r
    }

    /// Handles a press of the hotkey `hotkey_id` at `now` (milliseconds):
    /// the request of the keybind that fires, if one does.
    pub fn on_press(config: &KeybindsConfig, last: &mut Vec<Option<u64>>, hotkey_id: u32, now: u64) -> (r: Option<SystemEvent>)
        requires
            old(last)@.len() == config.binds@.len(),
        ensures
            final(last)@ == spec_press(binds_view(config.binds@), old(last)@, hotkey_id, now).0,
            match spec_press(binds_view(config.binds@), old(last)@, hotkey_id, now).1 {
                Some(k) => r matches Some(e) && is_request_for(e, binds_view(config.binds@)[k].action, keybind_context()),
                None => r is None,
            },
    {
        let ghost bv = binds_view(config.binds@);
        proof {
            lemma_find_bind(bv, hotkey_id);
        }
        let mut i: usize = 0;
        while i < config.binds.len()
            invariant
                bv == binds_view(config.binds@),
                bv.len() == config.binds@.len(),
                i <= bv.len(),
                forall|j: int| 0 <= j < i ==> bv[j].hotkey_id != hotkey_id,
                last@ == old(last)@,
                old(last)@.len() == bv.len(),
            decreases bv.len() - i,
        {
            assert(bv[i as int] == config.binds@[i as int]@);
            if config.binds[i].hotkey_id == hotkey_id {
                proof {
                    lemma_find_bind(bv, hotkey_id);
                    if find_bind(bv, hotkey_id) != Some(i as int) {
                        let k = find_bind(bv, hotkey_id)->0;
                        assert(k < i || k > i);
                    }
                }
                let soon = match last[i] {
                    Some(t) => {
                        let elapsed = if now >= t {
                            now - t
                        } else {
                            0
                        };
                        elapsed < 1000
                    },
                    None => false,
                };
                if soon {
                    return None;
                }
                last.set(i, Some(now));
                let context = EventContext { initiator: Initiator::Keybind, silent: false };
                return Some(Self::request_for(&config.binds[i].action, context));
            }
            i = i + 1;
        }
        None
    }
}

} // verus!
