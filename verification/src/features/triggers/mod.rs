pub mod config;

use vstd::prelude::*;
use crate::text::str_eq;
use crate::base::event_bus::{
    CommandAction, CommandView, EventContext, Initiator, SystemEvent, opt_string_view,
};
use crate::features::triggers::config::{
    TriggerConfig, TriggerType, TriggerTypeView, TriggerView, triggers_view,
};

verus! {

/// The triggers feature.
pub struct TriggersFeature;

/// A filter matches when it is absent or equal to the value.
pub open spec fn spec_matches_value(pattern: Option<Seq<char>>, value: Seq<char>) -> bool {
    match pattern {
        Some(p) => p == value,
        None => true,
    }
}

/// A filter on an optional value matches when it is absent, or when the
/// value is present and equal to it.
pub open spec fn spec_matches_opt_value(pattern: Option<Seq<char>>, value: Option<Seq<char>>) -> bool {
    match pattern {
        Some(p) => value == Some(p),
        None => true,
    }
}

/// Whether `pattern` accepts `value`.
pub fn matches_value(pattern: &Option<String>, value: &str) -> (r: bool)
    ensures
        r == spec_matches_value(opt_string_view(*pattern), value@),
{
    match pattern {
        Some(pat) => str_eq(pat.as_str(), value),
        None => true,
    }
}

/// Whether `pattern` accepts the optional `value`.
pub fn matches_opt_value(pattern: &Option<String>, value: &Option<String>) -> (r: bool)
    ensures
        r == spec_matches_opt_value(opt_string_view(*pattern), opt_string_view(*value)),
{
    match pattern {
        Some(pat) => match value {
            Some(v) => str_eq(v.as_str(), pat.as_str()),
            None => false,
        },
        None => true,
    }
}

/// Whether a trigger of type `t` fires on the window-manager event `e`.
pub open spec fn wm_trigger_fires(t: TriggerTypeView, e: SystemEvent) -> bool {
    match t {
        TriggerTypeView::Interval { .. } => false,
        TriggerTypeView::Wm { event_type, desktop, monitor, class } => match e {
            SystemEvent::WmMonitorFocused { monitor_name, .. } => event_type == "monitor_focus"@
                && spec_matches_value(monitor, monitor_name@),
            SystemEvent::WmDesktopFocused { monitor_name, desktop_name, .. } => event_type
                == "desktop_focus"@ && spec_matches_value(monitor, monitor_name@)
                && spec_matches_value(desktop, desktop_name@),
            SystemEvent::WmNodeFocused { monitor_name, desktop_name, class_name, .. } => event_type
                == "node_focus"@ && spec_matches_value(monitor, monitor_name@) && spec_matches_value(
                desktop,
                desktop_name@,
            ) && spec_matches_opt_value(class, opt_string_view(class_name)),
            SystemEvent::WmNodeAdded { monitor_name, desktop_name, class_name, .. } => event_type
                == "node_add"@ && spec_matches_value(monitor, monitor_name@) && spec_matches_value(
                desktop,
                desktop_name@,
            ) && spec_matches_opt_value(class, opt_string_view(class_name)),
            _ => false,
        },
    }
}

/// A window-manager trigger fires on a window-manager event exactly when the
/// event is of the trigger's kind and every filter the trigger has equals
/// the event's value for it: a monitor or desktop filter must equal the
/// event's monitor or desktop name, a class filter needs the event to carry
/// that very class. An absent filter accepts any value; an interval trigger,
/// or an event that is not a window-manager event, never fires.
pub proof fn law_wm_trigger_filters(
    event_type: Seq<char>,
    desktop: Option<Seq<char>>,
    monitor: Option<Seq<char>>,
    class: Option<Seq<char>>,
    duration_secs: u64,
    e: SystemEvent,
)
    ensures
        !wm_trigger_fires(TriggerTypeView::Interval { duration_secs }, e),
        ({
            let t = TriggerTypeView::Wm { event_type, desktop, monitor, class };
            &&& e matches SystemEvent::WmMonitorFocused { monitor_name, .. } ==> (wm_trigger_fires(
                t,
                e,
            ) <==> (event_type == "monitor_focus"@ && (monitor is None || monitor == Some(
                monitor_name@,
            ))))
            &&& e matches SystemEvent::WmDesktopFocused { monitor_name, desktop_name, .. } ==> (
            wm_trigger_fires(t, e) <==> (event_type == "desktop_focus"@ && (monitor is None
                || monitor == Some(monitor_name@)) && (desktop is None || desktop == Some(
                desktop_name@,
            ))))
            &&& e matches SystemEvent::WmNodeFocused { monitor_name, desktop_name, class_name, .. }
                ==> (wm_trigger_fires(t, e) <==> (event_type == "node_focus"@ && (monitor is None
                || monitor == Some(monitor_name@)) && (desktop is None || desktop == Some(
                desktop_name@,
            )) && (class is None || (class_name is Some && class == Some(class_name->0@)))))
            &&& e matches SystemEvent::WmNodeAdded { monitor_name, desktop_name, class_name, .. }
                ==> (wm_trigger_fires(t, e) <==> (event_type == "node_add"@ && (monitor is None
                || monitor == Some(monitor_name@)) && (desktop is None || desktop == Some(
                desktop_name@,
            )) && (class is None || (class_name is Some && class == Some(class_name->0@)))))
            &&& !(e is WmMonitorFocused || e is WmDesktopFocused || e is WmNodeFocused
                || e is WmNodeAdded) ==> !wm_trigger_fires(t, e)
        }),
{
}

/// The commands of the triggers from index `i` on that fire on `e`, in order.
pub open spec fn fired_commands_from(ts: Seq<TriggerView>, e: SystemEvent, i: int) -> Seq<CommandView>
    decreases ts.len() - i,
{
    if i < 0 || i >= ts.len() {
        Seq::empty()
    } else if wm_trigger_fires(ts[i].trigger_type, e) {
        seq![ts[i].command] + fired_commands_from(ts, e, i + 1)
    } else {
        fired_commands_from(ts, e, i + 1)
    }
}

proof fn lemma_fired_shift(ts: Seq<TriggerView>, more: Seq<TriggerView>, e: SystemEvent, j: int)
    requires
        0 <= j,
    ensures
        fired_commands_from(ts + more, e, ts.len() + j) == fired_commands_from(more, e, j),
    decreases more.len() - j,
{
    if j < more.len() {
        assert((ts + more)[ts.len() + j] == more[j]);
        lemma_fired_shift(ts, more, e, j + 1);
    }
}

proof fn lemma_fired_append(ts: Seq<TriggerView>, more: Seq<TriggerView>, e: SystemEvent, i: int)
    requires
        0 <= i <= ts.len(),
    ensures
        fired_commands_from(ts + more, e, i) == fired_commands_from(ts, e, i)
            + fired_commands_from(more, e, 0),
    decreases ts.len() - i,
{
    if i == ts.len() {
        lemma_fired_shift(ts, more, e, 0);
        assert(fired_commands_from(ts + more, e, i) =~= Seq::<CommandView>::empty()
            + fired_commands_from(more, e, 0));
    } else {
        assert((ts + more)[i] == ts[i]);
        lemma_fired_append(ts, more, e, i + 1);
        if wm_trigger_fires(ts[i].trigger_type, e) {
            assert(seq![ts[i].command] + (fired_commands_from(ts, e, i + 1) + fired_commands_from(
                more,
                e,
                0,
            )) =~= (seq![ts[i].command] + fired_commands_from(ts, e, i + 1))
                + fired_commands_from(more, e, 0));
        }
    }
}

/// Every trigger that fires on an event runs its command, in the order of
/// the triggers, and no other runs: one trigger gives its command where it
/// fires and nothing where it does not, and the commands of two runs of
/// triggers, one after the other, are those of the first, then those of
/// the second.
pub proof fn law_each_firing_trigger_runs_once_in_order(
    t: TriggerView,
    ts: Seq<TriggerView>,
    more: Seq<TriggerView>,
    e: SystemEvent,
)
    ensures
        fired_commands_from(seq![t], e, 0) == if wm_trigger_fires(t.trigger_type, e) {
            seq![t.command]
        } else {
            Seq::<CommandView>::empty()
        },
        fired_commands_from(ts + more, e, 0) == fired_commands_from(ts, e, 0)
            + fired_commands_from(more, e, 0),
{
    lemma_fired_append(ts, more, e, 0);
    assert(fired_commands_from(seq![t], e, 1) == Seq::<CommandView>::empty());
    assert(seq![t.command] + Seq::<CommandView>::empty() =~= seq![t.command]);
}

/// The context of the request that a fired trigger makes: initiated by a
/// trigger, as silent as the event that fired it.
pub open spec fn fired_context(context: EventContext) -> EventContext {
    EventContext { initiator: Initiator::Trigger, silent: context.silent }
}

/// Whether `r` asks to run the commands `cmds`, each with `context`.
pub open spec fn requests_for(r: Seq<SystemEvent>, cmds: Seq<CommandView>, context: EventContext) -> bool {
    &&& r.len() == cmds.len()
    &&& forall|k: int|
        0 <= k < r.len() ==> (#[trigger] r[k] matches SystemEvent::RequestCommandExecute {
            command,
            context: c,
        } && command@ == cmds[k] && c == context)
}

impl TriggersFeature {
    /// The request that `trigger` makes when it fires on an event with `context`.
    pub fn fire_trigger(trigger: &TriggerConfig, context: &EventContext) -> (r: SystemEvent)
        ensures
            r matches SystemEvent::RequestCommandExecute { command, context: c } && command@
                == trigger.command@ && c == fired_context(*context),
    {
        SystemEvent::RequestCommandExecute {
            command: trigger.command.duplicate(),
            context: EventContext { initiator: Initiator::Trigger, silent: context.silent },
        }
    }

    /// The request that an interval trigger with command `cmd` makes on each tick.
    pub fn interval_request(cmd: &CommandAction) -> (r: SystemEvent)
        ensures
            r matches SystemEvent::RequestCommandExecute { command, context: c } && command@ == cmd@
                && c == (EventContext { initiator: Initiator::Trigger, silent: false }),
    {
        SystemEvent::RequestCommandExecute {
            command: cmd.duplicate(),
            context: EventContext { initiator: Initiator::Trigger, silent: false },
        }
    }

    /// Whether the trigger type `t` fires on the event `e`.
    pub fn fires_on(t: &TriggerType, e: &SystemEvent) -> (r: bool)
        ensures
            r == wm_trigger_fires(t@, *e),
    {
        match t {
            TriggerType::Interval { .. } => false,
            TriggerType::Wm { event_type, desktop, monitor, class } => match e {
                SystemEvent::WmMonitorFocused { monitor_name, .. } => str_eq(
                    event_type.as_str(),
                    "monitor_focus",
                ) && matches_value(monitor, monitor_name.as_str()),
                SystemEvent::WmDesktopFocused { monitor_name, desktop_name, .. } => str_eq(
                    event_type.as_str(),
                    "desktop_focus",
                ) && matches_value(monitor, monitor_name.as_str()) && matches_value(
                    desktop,
                    desktop_name.as_str(),
                ),
                SystemEvent::WmNodeFocused { monitor_name, desktop_name, class_name, .. } => str_eq(
                    event_type.as_str(),
                    "node_focus",
                ) && matches_value(monitor, monitor_name.as_str()) && matches_value(
                    desktop,
                    desktop_name.as_str(),
                ) && matches_opt_value(class, class_name),
                SystemEvent::WmNodeAdded { monitor_name, desktop_name, class_name, .. } => str_eq(
                    event_type.as_str(),
                    "node_add",
                ) && matches_value(monitor, monitor_name.as_str()) && matches_value(
                    desktop,
                    desktop_name.as_str(),
                ) && matches_opt_value(class, class_name),
                _ => false,
            },
        }
    }

    /// The requests that the triggers make on the window-manager event `e`:
    /// one for each trigger that fires, in order.
    pub fn wm_requests(triggers: &Vec<TriggerConfig>, e: &SystemEvent) -> (r: Vec<SystemEvent>)
        ensures
            requests_for(
                r@,
                fired_commands_from(triggers_view(triggers@), *e, 0),
                fired_context(crate::base::event_bus::event_context(*e)),
            ),
    {
        let ghost ts = triggers_view(triggers@);
        let ghost ctx = fired_context(crate::base::event_bus::event_context(*e));
        let context = e.context();
        let mut r: Vec<SystemEvent> = Vec::new();
        let mut i: usize = 0;
        assert(fired_commands_from(ts, *e, 0) =~= Seq::<CommandView>::empty() + fired_commands_from(
            ts,
            *e,
            0,
        ));
        assert(requests_for(r@, Seq::<CommandView>::empty(), ctx));
        while i < triggers.len()
            invariant
                ts == triggers_view(triggers@),
                ts.len() == triggers@.len(),
                *context == crate::base::event_bus::event_context(*e),
                ctx == fired_context(*context),
                i <= ts.len(),
                exists|done: Seq<CommandView>|
                    requests_for(r@, done, ctx) && fired_commands_from(ts, *e, 0) == done
                        + fired_commands_from(ts, *e, i as int),
            decreases ts.len() - i,
        {
            let t = &triggers[i];
            assert(ts[i as int] == t@);
            let ghost done = choose|done: Seq<CommandView>|
                requests_for(r@, done, ctx) && fired_commands_from(ts, *e, 0) == done
                    + fired_commands_from(ts, *e, i as int);
            if Self::fires_on(&t.trigger_type, e) {
                let ev = Self::fire_trigger(t, context);
                let ghost before = r@;
                r.push(ev);
                assert(requests_for(r@, done + seq![t@.command], ctx)) by {
                    assert forall|k: int| 0 <= k < r@.len() implies (#[trigger] r@[k] matches SystemEvent::RequestCommandExecute {
                        command,
                        context: c,
                    } && command@ == (done + seq![t@.command])[k] && c == ctx) by {
                        if k < before.len() {
                            assert(r@[k] == before[k]);
                        }
                    }
                }
                assert(fired_commands_from(ts, *e, 0) == (done + seq![t@.command])
                    + fired_commands_from(ts, *e, i + 1));
            }
            i = i + 1;
        }
        proof {
            let done = choose|done: Seq<CommandView>|
                requests_for(r@, done, ctx) && fired_commands_from(ts, *e, 0) == done
                    + fired_commands_from(ts, *e, i as int);
            assert(done + Seq::<CommandView>::empty() =~= done);
        }
        r
    }
}

} // verus!
