//! `feature "triggers"`: commands run on a timer or on window-manager events.

use vstd::prelude::*;
use vstd::string::*;
use crate::text::{
    str_eq, join3, join5, to_string, trim, trim_str, parse_decimal, parse_unsigned,
    int_error_text, int_error_message,
};
use crate::document::{
    KdlNodeData, NodeView, kdl_document_nodes, document_nodes, nodes_view, str_arg, prop_str,
    find_feature, find_feature_index, node_str_arg, node_prop_str, child_nodes, node_children,
    opt_view,
};
use crate::base::event_bus::{CommandAction, CommandView, opt_string_view};
use crate::features::command::{
    CommandSite, spec_parse_command, parse_command, prepend_ok, is_command_name,
};

verus! {

/// When a trigger fires: every `duration_secs` seconds, or on a window-manager
/// event that matches the given filters.
#[derive(Debug, Clone)]
pub enum TriggerType {
    Interval { duration_secs: u64 },
    Wm {
        event_type: String,
        desktop: Option<String>,
        monitor: Option<String>,
        class: Option<String>,
    },
}

/// One trigger: its name, when it fires, and the command it runs.
#[derive(Debug, Clone)]
pub struct TriggerConfig {
    pub id: String,
    pub trigger_type: TriggerType,
    pub command: CommandAction,
}

/// All triggers of the configuration, in order.
#[derive(Debug, Clone)]
pub struct TriggersConfig {
    pub triggers: Vec<TriggerConfig>,
}

pub ghost enum TriggerTypeView {
    Interval { duration_secs: u64 },
    Wm {
        event_type: Seq<char>,
        desktop: Option<Seq<char>>,
        monitor: Option<Seq<char>>,
        class: Option<Seq<char>>,
    },
}

pub ghost struct TriggerView {
    pub id: Seq<char>,
    pub trigger_type: TriggerTypeView,
    pub command: CommandView,
}

impl View for TriggerType {
    type V = TriggerTypeView;

    open spec fn view(&self) -> TriggerTypeView {
        match self {
            TriggerType::Interval { duration_secs } => TriggerTypeView::Interval {
                duration_secs: *duration_secs,
            },
            TriggerType::Wm { event_type, desktop, monitor, class } => TriggerTypeView::Wm {
                event_type: event_type@,
                desktop: opt_string_view(*desktop),
                monitor: opt_string_view(*monitor),
                class: opt_string_view(*class),
            },
        }
    }
}

impl View for TriggerConfig {
    type V = TriggerView;

    open spec fn view(&self) -> TriggerView {
        TriggerView { id: self.id@, trigger_type: self.trigger_type@, command: self.command@ }
    }
}

pub open spec fn triggers_view(v: Seq<TriggerConfig>) -> Seq<TriggerView> {
    v.map_values(|t: TriggerConfig| t@)
}

/// What an interval text means: `None` for an unreadable one (the last
/// character of the trimmed text is more than one byte long, or the number
/// of minutes or hours does not fit in seconds), which `parse_duration`
/// does not take; else the number of seconds or the error text.
pub open spec fn spec_parse_duration(s: Seq<char>) -> Option<Result<u64, Seq<char>>> {
    let t = trim(s);
    if t.len() == 0 {
        Some(Err("Пустой интервал"@))
    } else if (t.last() as u32) >= 128 {
        None
    } else {
        let num_str = t.drop_last();
        let unit = t.last();
        match parse_unsigned(num_str, u64::MAX as int) {
            Err(k) => Some(Err("Неверное число в интервале '"@ + t + "': "@ + int_error_text(k))),
            Ok(n) => if unit == 's' {
                Some(Ok(n as u64))
            } else if unit == 'm' {
                if n * 60 > u64::MAX {
                    None
                } else {
                    Some(Ok((n * 60) as u64))
                }
            } else if unit == 'h' {
                if n * 3600 > u64::MAX {
                    None
                } else {
                    Some(Ok((n * 3600) as u64))
                }
            } else {
                Some(
                    Err(
                        "Неверная единица времени '"@ + seq![unit] + "' в интервале '"@ + t
                            + "'"@,
                    ),
                )
            },
        }
    }
}

/// Parses an interval text such as `30s`, `5m` or `2h` into seconds; `None`
/// for an unreadable one.
pub fn try_parse_duration(s: &str) -> (r: Option<Result<u64, String>>)
    ensures
        match r {
            None => spec_parse_duration(s@) is None,
            Some(Ok(d)) => spec_parse_duration(s@) == Some(Ok::<u64, Seq<char>>(d)),
            Some(Err(e)) => spec_parse_duration(s@) == Some(Err::<u64, Seq<char>>(e@)),
        },
{
    let t = trim_str(s);
    let n = t.unicode_len();
    if n == 0 {
        return Some(Err(to_string("Пустой интервал")));
    }
    let unit = t.as_str().get_char(n - 1);
    if (unit as u32) >= 128 {
        return None;
    }
    let num_str = t.as_str().substring_char(0, n - 1);
    assert(num_str@ =~= t@.drop_last());
    let num = match parse_decimal(num_str, u64::MAX) {
        Ok(v) => v,
        Err(k) => {
            let mut m = join3("Неверное число в интервале '", t.as_str(), "': ");
            m.append(int_error_message(k));
            return Some(Err(m));
        },
    };
    if unit == 's' {
        Some(Ok(num))
    } else if unit == 'm' {
        if num > u64::MAX / 60 {
            None
        } else {
            Some(Ok(num * 60))
        }
    } else if unit == 'h' {
        if num > u64::MAX / 3600 {
            None
        } else {
            Some(Ok(num * 3600))
        }
    } else {
        let u = t.as_str().substring_char(n - 1, n);
        assert(u@ =~= seq![unit]);
        Some(Err(join5("Неверная единица времени '", u, "' в интервале '", t.as_str(), "'")))
    }
}

/// Parses an interval text such as `30s`, `5m` or `2h` into seconds.
pub fn parse_duration(s: &str) -> (r: Result<u64, String>)
    requires
        spec_parse_duration(s@) is Some,
    ensures
        match r {
            Ok(d) => spec_parse_duration(s@) == Some(Ok::<u64, Seq<char>>(d)),
            Err(e) => spec_parse_duration(s@) == Some(Err::<u64, Seq<char>>(e@)),
        },
{
    match try_parse_duration(s) {
        Some(r) => r,
        None => {
            assert(false);
            Err(String::new())
        },
    }
}

pub ghost struct IntervalWalk {
    pub dur: Option<u64>,
    pub cmd: Option<CommandView>,
}

pub ghost struct WmWalk {
    pub event_type: Option<Seq<char>>,
    pub desktop: Option<Seq<char>>,
    pub monitor: Option<Seq<char>>,
    pub class: Option<Seq<char>>,
    pub cmd: Option<CommandView>,
}

/// The children of an interval trigger, read in order: `interval` sets the
/// period, a command node sets the command; `None` where a period panics.
pub open spec fn interval_walk_from(cs: Seq<NodeView>, id: Seq<char>, i: int, w: IntervalWalk) -> Option<
    Result<IntervalWalk, Seq<char>>,
>
    decreases cs.len() - i,
{
    if i < 0 || i >= cs.len() {
        Some(Ok(w))
    } else {
        let c = cs[i];
        if c.name == "interval"@ {
            match str_arg(c, 0) {
                None => Some(Err("У триггера '"@ + id + "' должно быть указано время интервала"@)),
                Some(ds) => match spec_parse_duration(ds) {
                    None => None,
                    Some(Err(e)) => Some(Err(e)),
                    Some(Ok(d)) => interval_walk_from(cs, id, i + 1, IntervalWalk { dur: Some(d), ..w }),
                },
            }
        } else if is_command_name(c.name) {
            match spec_parse_command(c, CommandSite::Trigger, id) {
                Err(e) => Some(Err(e)),
                Ok(cmd) => interval_walk_from(cs, id, i + 1, IntervalWalk { cmd: Some(cmd), ..w }),
            }
        } else {
            interval_walk_from(cs, id, i + 1, w)
        }
    }
}

/// The children of a window-manager trigger, read in order: `event`,
/// `desktop`, `monitor` and `class` set the filters, a command node the command.
pub open spec fn wm_walk_from(cs: Seq<NodeView>, id: Seq<char>, i: int, w: WmWalk) -> Result<
    WmWalk,
    Seq<char>,
>
    decreases cs.len() - i,
{
    if i < 0 || i >= cs.len() {
        Ok(w)
    } else {
        let c = cs[i];
        if c.name == "event"@ {
            wm_walk_from(cs, id, i + 1, WmWalk { event_type: str_arg(c, 0), ..w })
        } else if c.name == "desktop"@ {
            wm_walk_from(cs, id, i + 1, WmWalk { desktop: str_arg(c, 0), ..w })
        } else if c.name == "monitor"@ {
            wm_walk_from(cs, id, i + 1, WmWalk { monitor: str_arg(c, 0), ..w })
        } else if c.name == "class"@ {
            wm_walk_from(cs, id, i + 1, WmWalk { class: str_arg(c, 0), ..w })
        } else if is_command_name(c.name) {
            match spec_parse_command(c, CommandSite::Trigger, id) {
                Err(e) => Err(e),
                Ok(cmd) => wm_walk_from(cs, id, i + 1, WmWalk { cmd: Some(cmd), ..w }),
            }
        } else {
            wm_walk_from(cs, id, i + 1, w)
        }
    }
}

/// The index of the last of the nodes from `i` on that is named `name`.
pub open spec fn last_named_from(cs: Seq<NodeView>, name: Seq<char>, i: int) -> Option<int>
    decreases cs.len() - i,
{
    if i < 0 || i >= cs.len() {
        None
    } else {
        match last_named_from(cs, name, i + 1) {
            Some(k) => Some(k),
            None => if cs[i].name == name {
                Some(i)
            } else {
                None
            },
        }
    }
}

/// The string argument of the last node named `name` from `i` on, or
/// `dflt` where there is no such node.
pub open spec fn last_arg_from(cs: Seq<NodeView>, name: Seq<char>, i: int, dflt: Option<Seq<char>>) -> Option<
    Seq<char>,
> {
    match last_named_from(cs, name, i) {
        Some(k) => str_arg(cs[k], 0),
        None => dflt,
    }
}

/// The index of the last command node from `i` on.
pub open spec fn last_command_from(cs: Seq<NodeView>, i: int) -> Option<int>
    decreases cs.len() - i,
{
    if i < 0 || i >= cs.len() {
        None
    } else {
        match last_command_from(cs, i + 1) {
            Some(k) => Some(k),
            None => if is_command_name(cs[i].name) {
                Some(i)
            } else {
                None
            },
        }
    }
}

proof fn lemma_wm_walk_filters(cs: Seq<NodeView>, id: Seq<char>, i: int, w: WmWalk)
    requires
        0 <= i,
    ensures
        wm_walk_from(cs, id, i, w) matches Ok(r) ==> {
            &&& r.event_type == last_arg_from(cs, "event"@, i, w.event_type)
            &&& r.desktop == last_arg_from(cs, "desktop"@, i, w.desktop)
            &&& r.monitor == last_arg_from(cs, "monitor"@, i, w.monitor)
            &&& r.class == last_arg_from(cs, "class"@, i, w.class)
            &&& match last_command_from(cs, i) {
                Some(k) => spec_parse_command(cs[k], CommandSite::Trigger, id) matches Ok(c)
                    && r.cmd == Some(c),
                None => r.cmd == w.cmd,
            }
        },
    decreases cs.len() - i,
{
    reveal_strlit("run");
    reveal_strlit("vpn");
    reveal_strlit("daemon");
    reveal_strlit("action");
    reveal_strlit("workspace");
    reveal_strlit("event");
    reveal_strlit("desktop");
    reveal_strlit("monitor");
    reveal_strlit("class");
    assert("desktop"@[0] != "monitor"@[0]);
    assert("event"@[0] != "class"@[0]);
    assert("event"@[0] != "action"@[0]);
    assert("desktop"@.len() != "daemon"@.len() && "desktop"@.len() != "action"@.len());
    assert("monitor"@.len() != "daemon"@.len() && "monitor"@.len() != "action"@.len());
    assert("class"@.len() != "daemon"@.len() && "class"@.len() != "action"@.len());
    if i < cs.len() {
        let c = cs[i];
        if c.name == "event"@ {
            lemma_wm_walk_filters(cs, id, i + 1, WmWalk { event_type: str_arg(c, 0), ..w });
        } else if c.name == "desktop"@ {
            lemma_wm_walk_filters(cs, id, i + 1, WmWalk { desktop: str_arg(c, 0), ..w });
        } else if c.name == "monitor"@ {
            lemma_wm_walk_filters(cs, id, i + 1, WmWalk { monitor: str_arg(c, 0), ..w });
        } else if c.name == "class"@ {
            lemma_wm_walk_filters(cs, id, i + 1, WmWalk { class: str_arg(c, 0), ..w });
        } else if is_command_name(c.name) {
            match spec_parse_command(c, CommandSite::Trigger, id) {
                Err(e) => {},
                Ok(cmd) => lemma_wm_walk_filters(cs, id, i + 1, WmWalk { cmd: Some(cmd), ..w }),
            }
        } else {
            lemma_wm_walk_filters(cs, id, i + 1, w);
        }
    }
}

/// Each filter of a window-manager trigger comes from its own child node:
/// the event kind from the last `event` node, the desktop filter from the
/// last `desktop` node, the monitor filter from the last `monitor` node and
/// the class filter from the last `class` node, each holding that node's
/// string argument; a filter with no node of its name is absent.
pub proof fn law_wm_filters_come_from_their_nodes(n: NodeView)
    ensures
        spec_parse_trigger(n) matches Some(Ok(t)) ==> (t.trigger_type matches TriggerTypeView::Wm {
            event_type,
            desktop,
            monitor,
            class,
        } ==> {
            let cs = child_nodes(n);
            &&& str_arg(n, 0) == Some(t.id)
            &&& prop_str(n, "type"@) == Some("wm"@)
            &&& last_command_from(cs, 0) matches Some(k) && spec_parse_command(
                cs[k],
                CommandSite::Trigger,
                t.id,
            ) == Ok::<CommandView, Seq<char>>(t.command)
            &&& last_arg_from(cs, "event"@, 0, None) == Some(event_type)
            &&& desktop == last_arg_from(cs, "desktop"@, 0, None)
            &&& monitor == last_arg_from(cs, "monitor"@, 0, None)
            &&& class == last_arg_from(cs, "class"@, 0, None)
        }),
{
    lemma_wm_walk_filters(
        child_nodes(n),
        str_arg(n, 0)->0,
        0,
        WmWalk { event_type: None, desktop: None, monitor: None, class: None, cmd: None },
    );
}

pub open spec fn missing_command_msg(id: Seq<char>) -> Seq<char> {
    "У триггера '"@ + id
        + "' должно быть указано выполняемое действие (run, vpn, daemon, action или workspace)"@
}

/// The trigger that a `trigger` node stands for; `None` where its interval
/// is unreadable.
pub open spec fn spec_parse_trigger(n: NodeView) -> Option<Result<TriggerView, Seq<char>>> {
    match str_arg(n, 0) {
        None => Some(Err("У узла trigger должен быть строковый идентификатор"@)),
        Some(id) => match prop_str(n, "type"@) {
            None => Some(Err("У триггера '"@ + id + "' должен быть тип type"@)),
            Some(t) => if t == "interval"@ {
                match interval_walk_from(child_nodes(n), id, 0, IntervalWalk { dur: None, cmd: None }) {
                    None => None,
                    Some(Err(e)) => Some(Err(e)),
                    Some(Ok(w)) => match w.dur {
                        None => Some(
                            Err(
                                "У интервального триггера '"@ + id
                                    + "' должен быть указан интервал (например, interval \"5m\")"@,
                            ),
                        ),
                        Some(d) => match w.cmd {
                            None => Some(Err(missing_command_msg(id))),
                            Some(c) => Some(
                                Ok(
                                    TriggerView {
                                        id,
                                        trigger_type: TriggerTypeView::Interval { duration_secs: d },
                                        command: c,
                                    },
                                ),
                            ),
                        },
                    },
                }
            } else if t == "wm"@ {
                match wm_walk_from(
                    child_nodes(n),
                    id,
                    0,
                    WmWalk { event_type: None, desktop: None, monitor: None, class: None, cmd: None },
                ) {
                    Err(e) => Some(Err(e)),
                    Ok(w) => match w.event_type {
                        None => Some(
                            Err(
                                "У WM триггера '"@ + id
                                    + "' должно быть указано событие (например, event \"desktop_focus\")"@,
                            ),
                        ),
                        Some(et) => match w.cmd {
                            None => Some(Err(missing_command_msg(id))),
                            Some(c) => Some(
                                Ok(
                                    TriggerView {
                                        id,
                                        trigger_type: TriggerTypeView::Wm {
                                            event_type: et,
                                            desktop: w.desktop,
                                            monitor: w.monitor,
                                            class: w.class,
                                        },
                                        command: c,
                                    },
                                ),
                            ),
                        },
                    },
                }
            } else {
                Some(Err("Неподдерживаемый тип триггера '"@ + t + "' у '"@ + id + "'"@))
            },
        },
    }
}

pub open spec fn prepend_opt<T>(acc: Seq<T>, r: Option<Result<Seq<T>, Seq<char>>>) -> Option<
    Result<Seq<T>, Seq<char>>,
> {
    match r {
        None => None,
        Some(x) => Some(prepend_ok(acc, x)),
    }
}

pub open spec fn spec_parse_triggers_from(nodes: Seq<NodeView>, i: int) -> Option<
    Result<Seq<TriggerView>, Seq<char>>,
>
    decreases nodes.len() - i,
{
    if i < 0 || i >= nodes.len() {
        Some(Ok(Seq::empty()))
    } else if nodes[i].name == "trigger"@ {
        match spec_parse_trigger(nodes[i]) {
            None => None,
            Some(Err(e)) => Some(Err(e)),
            Some(Ok(t)) => prepend_opt(seq![t], spec_parse_triggers_from(nodes, i + 1)),
        }
    } else {
        spec_parse_triggers_from(nodes, i + 1)
    }
}

/// The triggers of the configuration: those under the first
/// `feature "triggers"` node, none where there is no such node; `None`
/// where an interval is unreadable.
pub open spec fn spec_parse_triggers(root: Seq<NodeView>) -> Option<
    Result<Seq<TriggerView>, Seq<char>>,
> {
    match find_feature(root, "triggers"@) {
        None => Some(Ok(Seq::empty())),
        Some(k) => spec_parse_triggers_from(child_nodes(root[k]), 0),
    }
}

pub open spec fn triggers_result_view(r: Result<TriggersConfig, String>) -> Result<
    Seq<TriggerView>,
    Seq<char>,
> {
    match r {
        Ok(c) => Ok(triggers_view(c.triggers@)),
        Err(e) => Err(e@),
    }
}

pub open spec fn opt_cmd_view(o: Option<CommandAction>) -> Option<CommandView> {
    match o {
        Some(c) => Some(c@),
        None => None,
    }
}

/// The trigger that the `trigger` node `n` stands for; `None` where its
/// interval is unreadable.
pub fn try_parse_trigger(n: &KdlNodeData) -> (r: Option<Result<TriggerConfig, String>>)
    ensures
        match r {
            None => spec_parse_trigger(n@) is None,
            Some(Ok(t)) => spec_parse_trigger(n@) == Some(Ok::<TriggerView, Seq<char>>(t@)),
            Some(Err(e)) => spec_parse_trigger(n@) == Some(Err::<TriggerView, Seq<char>>(e@)),
        },
{
    let id = match node_str_arg(n, 0) {
        Some(s) => s,
        None => {
            return Some(Err(to_string("У узла trigger должен быть строковый идентификатор")));
        },
    };
    let type_str = match node_prop_str(n, "type") {
        Some(t) => t,
        None => {
            return Some(Err(join3("У триггера '", id.as_str(), "' должен быть тип type")));
        },
    };
    let children = node_children(n);
    let ghost cv = nodes_view(children@);
    let mut command: Option<CommandAction> = None;
    let t_type: TriggerType;
    if str_eq(type_str.as_str(), "interval") {
        let mut duration: Option<u64> = None;
        let mut i: usize = 0;
        while i < children.len()
            invariant
                cv == nodes_view(children@),
                cv == child_nodes(n@),
                cv.len() == children@.len(),
                str_arg(n@, 0) == Some(id@),
                prop_str(n@, "type"@) == Some(type_str@),
                type_str@ == "interval"@,
                i <= cv.len(),
                interval_walk_from(cv, id@, 0, IntervalWalk { dur: None, cmd: None })
                    == interval_walk_from(
                    cv,
                    id@,
                    i as int,
                    IntervalWalk { dur: duration, cmd: opt_cmd_view(command) },
                ),
            decreases cv.len() - i,
        {
            let c = &children[i];
            assert(cv[i as int] == c@);
            let name = c.name.as_str();
            if str_eq(name, "interval") {
                match node_str_arg(c, 0) {
                    None => {
                        return Some(
                            Err(join3("У триггера '", id.as_str(), "' должно быть указано время интервала")),
                        );
                    },
                    Some(ds) => match try_parse_duration(ds.as_str()) {
                        None => {
                            return None;
                        },
                        Some(Err(e)) => {
                            return Some(Err(e));
                        },
                        Some(Ok(d)) => {
                            duration = Some(d);
                        },
                    },
                }
            } else if str_eq(name, "run") || str_eq(name, "vpn") || str_eq(name, "daemon") || str_eq(
                name,
                "action",
            ) || str_eq(name, "workspace") {
                match parse_command(c, CommandSite::Trigger, id.as_str()) {
                    Err(e) => {
                        return Some(Err(e));
                    },
                    Ok(cmd) => {
                        command = Some(cmd);
                    },
                }
            }
            i = i + 1;
        }
        let dur = match duration {
            Some(d) => d,
            None => {
                return Some(
                    Err(
                        join3(
                            "У интервального триггера '",
                            id.as_str(),
                            "' должен быть указан интервал (например, interval \"5m\")",
                        ),
                    ),
                );
            },
        };
        t_type = TriggerType::Interval { duration_secs: dur };
    } else if str_eq(type_str.as_str(), "wm") {
        let mut event_type: Option<String> = None;
        let mut desktop: Option<String> = None;
        let mut monitor: Option<String> = None;
        let mut class: Option<String> = None;
        let ghost init = WmWalk {
            event_type: None,
            desktop: None,
            monitor: None,
            class: None,
            cmd: None,
        };
        let mut i: usize = 0;
        while i < children.len()
            invariant
                cv == nodes_view(children@),
                cv == child_nodes(n@),
                cv.len() == children@.len(),
                str_arg(n@, 0) == Some(id@),
                prop_str(n@, "type"@) == Some(type_str@),
                type_str@ != "interval"@,
                type_str@ == "wm"@,
                init == (WmWalk {
                    event_type: None,
                    desktop: None,
                    monitor: None,
                    class: None,
                    cmd: None,
                }),
                i <= cv.len(),
                wm_walk_from(cv, id@, 0, init) == wm_walk_from(
                    cv,
                    id@,
                    i as int,
                    WmWalk {
                        event_type: opt_view(event_type),
                        desktop: opt_view(desktop),
                        monitor: opt_view(monitor),
                        class: opt_view(class),
                        cmd: opt_cmd_view(command),
                    },
                ),
            decreases cv.len() - i,
        {
            let c = &children[i];
            assert(cv[i as int] == c@);
            let name = c.name.as_str();
            if str_eq(name, "event") {
                event_type = node_str_arg(c, 0);
            } else if str_eq(name, "desktop") {
                desktop = node_str_arg(c, 0);
            } else if str_eq(name, "monitor") {
                monitor = node_str_arg(c, 0);
            } else if str_eq(name, "class") {
                class = node_str_arg(c, 0);
            } else if str_eq(name, "run") || str_eq(name, "vpn") || str_eq(name, "daemon")
                || str_eq(name, "action") || str_eq(name, "workspace") {
                match parse_command(c, CommandSite::Trigger, id.as_str()) {
                    Err(e) => {
                        return Some(Err(e));
                    },
                    Ok(cmd) => {
                        command = Some(cmd);
                    },
                }
            }
            i = i + 1;
        }
        let et = match event_type {
            Some(e) => e,
            None => {
                return Some(
                    Err(
                        join3(
                            "У WM триггера '",
                            id.as_str(),
                            "' должно быть указано событие (например, event \"desktop_focus\")",
                        ),
                    ),
                );
            },
        };
        assert(opt_view(desktop) == opt_string_view(desktop));
        assert(opt_view(monitor) == opt_string_view(monitor));
        assert(opt_view(class) == opt_string_view(class));
        t_type = TriggerType::Wm { event_type: et, desktop, monitor, class };
    } else {
        return Some(Err(join5("Неподдерживаемый тип триггера '", type_str.as_str(), "' у '", id.as_str(), "'")));
    }
    match command {
        None => Some(
            Err(
                join3(
                    "У триггера '",
                    id.as_str(),
                    "' должно быть указано выполняемое действие (run, vpn, daemon, action или workspace)",
                ),
            ),
        ),
        Some(cmd) => Some(Ok(TriggerConfig { id, trigger_type: t_type, command: cmd })),
    }
}

impl TriggersConfig {
    /// The triggers under the first `feature "triggers"` node of the
    /// top-level `nodes`; `None` where an interval is unreadable.
    pub fn try_parse_from_nodes(nodes: &Vec<KdlNodeData>) -> (r: Option<Result<Self, String>>)
        ensures
            match r {
                None => spec_parse_triggers(nodes_view(nodes@)) is None,
                Some(x) => spec_parse_triggers(nodes_view(nodes@)) == Some(triggers_result_view(x)),
            },
    {
        let k = match find_feature_index(nodes, "triggers") {
            None => {
                let triggers: Vec<TriggerConfig> = Vec::new();
                assert(triggers_view(triggers@) =~= Seq::<TriggerView>::empty());
                return Some(Ok(TriggersConfig { triggers }));
            },
            Some(k) => k,
        };
        assert(nodes_view(nodes@)[k as int] == nodes@[k as int]@);
        let children = node_children(&nodes[k]);
        let ghost v = nodes_view(children@);
        assert(spec_parse_triggers(nodes_view(nodes@)) == spec_parse_triggers_from(v, 0));
        let mut acc: Vec<TriggerConfig> = Vec::new();
        let mut i: usize = 0;
        assert(triggers_view(acc@) + Seq::<TriggerView>::empty() =~= triggers_view(acc@));
        while i < children.len()
            invariant
                v == nodes_view(children@),
                v.len() == children@.len(),
                spec_parse_triggers(nodes_view(nodes@)) == spec_parse_triggers_from(v, 0),
                i <= v.len(),
                spec_parse_triggers_from(v, 0) == prepend_opt(
                    triggers_view(acc@),
                    spec_parse_triggers_from(v, i as int),
                ),
            decreases v.len() - i,
        {
            let n = &children[i];
            assert(v[i as int] == n@);
            if str_eq(n.name.as_str(), "trigger") {
                match try_parse_trigger(n) {
                    None => {
                        return None;
                    },
                    Some(Ok(t)) => {
                        let ghost before = acc@;
                        acc.push(t);
                        assert(triggers_view(acc@) =~= triggers_view(before) + seq![t@]);
                        assert forall|rest: Seq<TriggerView>| #![auto]
                            triggers_view(acc@) + rest =~= triggers_view(before) + (seq![t@] + rest) by {}
                    },
                    Some(Err(e)) => {
                        return Some(Err(e));
                    },
                }
            }
            i = i + 1;
        }
        assert(triggers_view(acc@) + Seq::<TriggerView>::empty() =~= triggers_view(acc@));
        Some(Ok(TriggersConfig { triggers: acc }))
    }

    /// The triggers of the document's `feature "triggers"` section; `None`
    /// where an interval is unreadable.
    pub fn try_parse_from_root_doc(doc: &kdl::KdlDocument) -> (r: Option<Result<Self, String>>)
        ensures
            match r {
                None => spec_parse_triggers(kdl_document_nodes(*doc)) is None,
                Some(x) => spec_parse_triggers(kdl_document_nodes(*doc)) == Some(
                    triggers_result_view(x),
                ),
            },
    {
        let nodes = document_nodes(doc);
        Self::try_parse_from_nodes(&nodes)
    }

    /// The triggers of the document's `feature "triggers"` section.
    pub fn parse_from_root_doc(doc: &kdl::KdlDocument) -> (r: Result<Self, String>)
        requires
            spec_parse_triggers(kdl_document_nodes(*doc)) is Some,
        ensures
            spec_parse_triggers(kdl_document_nodes(*doc)) == Some(triggers_result_view(r)),
    {
        match Self::try_parse_from_root_doc(doc) {
            Some(r) => r,
            None => {
                assert(false);
                Err(String::new())
            },
        }
    }
}

} // verus!
