//! The commands that actions, keybinds and triggers name in the
//! configuration: `run`, `vpn`, `daemon`, `action` and `workspace`.

use vstd::prelude::*;
use vstd::string::*;
use crate::text::{str_eq, join3, join5};
use crate::document::{KdlNodeData, NodeView, str_arg, str_values, node_str_arg, opt_view, nodes_view};
use crate::base::event_bus::{CommandAction, CommandView, DaemonAction, strings_view};

verus! {

/// Where a command stands in the configuration; the error texts name it.
#[derive(Debug, Clone, Copy, PartialEq, Eq, Structural)]
pub enum CommandSite {
    Action,
    Keybind,
    Trigger,
}

/// The part of a command that the configuration left out.
#[derive(Debug, Clone, Copy, PartialEq, Eq, Structural)]
pub enum MissingPart {
    Run,
    Vpn,
    DaemonId,
    DaemonAction,
    Action,
    Workspace,
}

/// The two pieces around the owner's name in the error text for a missing part.
pub open spec fn missing_text(site: CommandSite, part: MissingPart) -> (Seq<char>, Seq<char>) {
    match site {
        CommandSite::Action => match part {
            MissingPart::Run => ("У действия run в экшене '"@, "' не указана команда"@),
            MissingPart::Vpn => ("У действия vpn в экшене '"@, "' не указано состояние"@),
            MissingPart::DaemonId => ("У действия daemon в экшене '"@, "' не указан ID"@),
            MissingPart::DaemonAction => (
                "У действия daemon в экшене '"@,
                "' не указано действие (on, off, toggle)"@,
            ),
            MissingPart::Action => (
                "У действия action в экшене '"@,
                "' не указано целевое действие"@,
            ),
            MissingPart::Workspace => (
                "У действия workspace в экшене '"@,
                "' не указан ID воркспейса"@,
            ),
        },
        CommandSite::Keybind => match part {
            MissingPart::Run => ("У действия run для бинда '"@, "' не указана команда"@),
            MissingPart::Vpn => (
                "У действия vpn для бинда '"@,
                "' не указано целевое состояние"@,
            ),
            MissingPart::DaemonId => (
                "У действия daemon для бинда '"@,
                "' не указан идентификатор демона"@,
            ),
            MissingPart::DaemonAction => (
                "У действия daemon для бинда '"@,
                "' не указано действие (on, off, toggle)"@,
            ),
            MissingPart::Action => (
                "У действия action для бинда '"@,
                "' не указано целевое действие"@,
            ),
            MissingPart::Workspace => (
                "У действия workspace для бинда '"@,
                "' не указан ID воркспейса"@,
            ),
        },
        CommandSite::Trigger => match part {
            MissingPart::Run => ("У действия run в триггере '"@, "' не указана команда"@),
            MissingPart::Vpn => ("У действия vpn в триггере '"@, "' не указано состояние"@),
            MissingPart::DaemonId => ("У действия daemon в триггере '"@, "' не указан ID"@),
            MissingPart::DaemonAction => (
                "У действия daemon в триггере '"@,
                "' не указано действие"@,
            ),
            MissingPart::Action => (
                "У действия action в триггере '"@,
                "' не указано действие для вызова"@,
            ),
            MissingPart::Workspace => (
                "У действия workspace в триггере '"@,
                "' не указан ID воркспейса"@,
            ),
        },
    }
}

fn missing_text_exec(site: CommandSite, part: MissingPart) -> (r: (&'static str, &'static str))
    ensures
        (r.0@, r.1@) == missing_text(site, part),
{
    match site {
        CommandSite::Action => match part {
            MissingPart::Run => ("У действия run в экшене '", "' не указана команда"),
            MissingPart::Vpn => ("У действия vpn в экшене '", "' не указано состояние"),
            MissingPart::DaemonId => ("У действия daemon в экшене '", "' не указан ID"),
            MissingPart::DaemonAction => (
                "У действия daemon в экшене '",
                "' не указано действие (on, off, toggle)",
            ),
            MissingPart::Action => (
                "У действия action в экшене '",
                "' не указано целевое действие",
            ),
            MissingPart::Workspace => (
                "У действия workspace в экшене '",
                "' не указан ID воркспейса",
            ),
        },
        CommandSite::Keybind => match part {
            MissingPart::Run => ("У действия run для бинда '", "' не указана команда"),
            MissingPart::Vpn => (
                "У действия vpn для бинда '",
                "' не указано целевое состояние",
            ),
            MissingPart::DaemonId => (
                "У действия daemon для бинда '",
                "' не указан идентификатор демона",
            ),
            MissingPart::DaemonAction => (
                "У действия daemon для бинда '",
                "' не указано действие (on, off, toggle)",
            ),
            MissingPart::Action => (
                "У действия action для бинда '",
                "' не указано целевое действие",
            ),
            MissingPart::Workspace => (
                "У действия workspace для бинда '",
                "' не указан ID воркспейса",
            ),
        },
        CommandSite::Trigger => match part {
            MissingPart::Run => ("У действия run в триггере '", "' не указана команда"),
            MissingPart::Vpn => ("У действия vpn в триггере '", "' не указано состояние"),
            MissingPart::DaemonId => ("У действия daemon в триггере '", "' не указан ID"),
            MissingPart::DaemonAction => (
                "У действия daemon в триггере '",
                "' не указано действие",
            ),
            MissingPart::Action => (
                "У действия action в триггере '",
                "' не указано действие для вызова",
            ),
            MissingPart::Workspace => (
                "У действия workspace в триггере '",
                "' не указан ID воркспейса",
            ),
        },
    }
}

/// The error text for a missing part of a command of `owner`.
pub open spec fn missing_msg(site: CommandSite, part: MissingPart, owner: Seq<char>) -> Seq<char> {
    missing_text(site, part).0 + owner + missing_text(site, part).1
}

/// The three pieces around the daemon action and the owner's name in the
/// error text for an unsupported daemon action.
pub open spec fn bad_daemon_action_text(site: CommandSite) -> (Seq<char>, Seq<char>, Seq<char>) {
    match site {
        CommandSite::Action => ("Неподдерживаемое действие демона '"@, "' в экшене '"@, "'"@),
        CommandSite::Keybind => (
            "Неподдерживаемое действие демона '"@,
            "' для бинда '"@,
            "' (разрешены: on, off, toggle)"@,
        ),
        CommandSite::Trigger => ("Неподдерживаемое действие демона '"@, "' в триггере '"@, "'"@),
    }
}

/// The three pieces around the node name and the owner's name in the error
/// text for an unknown command.
pub open spec fn unknown_command_text(site: CommandSite) -> (Seq<char>, Seq<char>, Seq<char>) {
    match site {
        CommandSite::Action => ("Неизвестная команда '"@, "' в экшене '"@, "'"@),
        CommandSite::Keybind => ("Неподдерживаемое действие '"@, "' для бинда '"@, "'"@),
        CommandSite::Trigger => ("Неподдерживаемый узел '"@, "' в триггере '"@, "'"@),
    }
}

pub open spec fn bad_daemon_action_msg(site: CommandSite, other: Seq<char>, owner: Seq<char>) -> Seq<
    char,
> {
    let t = bad_daemon_action_text(site);
    t.0 + other + t.1 + owner + t.2
}

pub open spec fn unknown_command_msg(site: CommandSite, name: Seq<char>, owner: Seq<char>) -> Seq<
    char,
> {
    let t = unknown_command_text(site);
    t.0 + name + t.1 + owner + t.2
}

fn bad_daemon_action_text_exec(site: CommandSite) -> (r: (&'static str, &'static str, &'static str))
    ensures
        (r.0@, r.1@, r.2@) == bad_daemon_action_text(site),
{
    match site {
        CommandSite::Action => ("Неподдерживаемое действие демона '", "' в экшене '", "'"),
        CommandSite::Keybind => (
            "Неподдерживаемое действие демона '",
            "' для бинда '",
            "' (разрешены: on, off, toggle)",
        ),
        CommandSite::Trigger => ("Неподдерживаемое действие демона '", "' в триггере '", "'"),
    }
}

fn unknown_command_text_exec(site: CommandSite) -> (r: (&'static str, &'static str, &'static str))
    ensures
        (r.0@, r.1@, r.2@) == unknown_command_text(site),
{
    match site {
        CommandSite::Action => ("Неизвестная команда '", "' в экшене '", "'"),
        CommandSite::Keybind => ("Неподдерживаемое действие '", "' для бинда '", "'"),
        CommandSite::Trigger => ("Неподдерживаемый узел '", "' в триггере '", "'"),
    }
}

/// The error text for a missing part of a command of `owner`.
pub fn missing_message(site: CommandSite, part: MissingPart, owner: &str) -> (r: String)
    ensures
        r@ == missing_msg(site, part, owner@),
{
    let t = missing_text_exec(site, part);
    join3(t.0, owner, t.1)
}

/// The daemon action that a configuration word names: `on`, `off` or `toggle`.
pub open spec fn daemon_action_of(s: Seq<char>) -> Option<DaemonAction> {
    if s == "on"@ {
        Some(DaemonAction::On)
    } else if s == "off"@ {
        Some(DaemonAction::Off)
    } else if s == "toggle"@ {
        Some(DaemonAction::Toggle)
    } else {
        None
    }
}

/// The daemon action that `s` names, if any.
pub fn daemon_action_from_str(s: &str) -> (r: Option<DaemonAction>)
    ensures
        r == daemon_action_of(s@),
{
    if str_eq(s, "on") {
        Some(DaemonAction::On)
    } else if str_eq(s, "off") {
        Some(DaemonAction::Off)
    } else if str_eq(s, "toggle") {
        Some(DaemonAction::Toggle)
    } else {
        None
    }
}

/// Each daemon-action word names its own action: a word reads as `On`
/// exactly when it is `on`, as `Off` exactly when it is `off`, as `Toggle`
/// exactly when it is `toggle`; any other word names no action.
pub proof fn law_daemon_action_words(s: Seq<char>)
    ensures
        daemon_action_of(s) == Some(DaemonAction::On) <==> s == "on"@,
        daemon_action_of(s) == Some(DaemonAction::Off) <==> s == "off"@,
        daemon_action_of(s) == Some(DaemonAction::Toggle) <==> s == "toggle"@,
        daemon_action_of(s) is None <==> (s != "on"@ && s != "off"@ && s != "toggle"@),
{
    reveal_strlit("on");
    reveal_strlit("off");
    reveal_strlit("toggle");
    assert("on"@.len() != "off"@.len());
    assert("on"@.len() != "toggle"@.len());
    assert("off"@.len() != "toggle"@.len());
}

/// A `daemon` node's command keeps the action its second word names: it
/// controls the daemon its first word names, with `On` exactly when that
/// word is `on`, `Off` exactly when it is `off` and `Toggle` exactly when it
/// is `toggle`.
pub proof fn law_daemon_command_keeps_its_action(n: NodeView, site: CommandSite, owner: Seq<char>)
    requires
        n.name == "daemon"@,
    ensures
        spec_parse_command(n, site, owner) matches Ok(CommandView::Daemon(d, a)) ==> {
            &&& str_arg(n, 0) == Some(d)
            &&& (a == DaemonAction::On <==> str_arg(n, 1) == Some("on"@))
            &&& (a == DaemonAction::Off <==> str_arg(n, 1) == Some("off"@))
            &&& (a == DaemonAction::Toggle <==> str_arg(n, 1) == Some("toggle"@))
        },
        str_arg(n, 0) matches Some(d) ==> (str_arg(n, 1) == Some("on"@) ==> spec_parse_command(
            n,
            site,
            owner,
        ) == Ok::<CommandView, Seq<char>>(CommandView::Daemon(d, DaemonAction::On))),
{
    reveal_strlit("run");
    reveal_strlit("vpn");
    reveal_strlit("daemon");
    assert("daemon"@.len() != "run"@.len());
    assert("daemon"@.len() != "vpn"@.len());
    if let Some(w) = str_arg(n, 1) {
        law_daemon_action_words(w);
    }
    law_daemon_action_words("on"@);
}

/// Whether a node's name is one of the command words.
pub open spec fn is_command_name(name: Seq<char>) -> bool {
    name == "run"@ || name == "vpn"@ || name == "daemon"@ || name == "action"@ || name
        == "workspace"@
}

/// The command that node `n` of `owner` stands for, or the error text.
pub open spec fn spec_parse_command(n: NodeView, site: CommandSite, owner: Seq<char>) -> Result<
    CommandView,
    Seq<char>,
> {
    if n.name == "run"@ {
        let parts = str_values(n.entries);
        if parts.len() == 0 {
            Err(missing_msg(site, MissingPart::Run, owner))
        } else {
            Ok(CommandView::Run(parts))
        }
    } else if n.name == "vpn"@ {
        match str_arg(n, 0) {
            Some(s) => Ok(CommandView::Vpn(s)),
            None => Err(missing_msg(site, MissingPart::Vpn, owner)),
        }
    } else if n.name == "daemon"@ {
        match str_arg(n, 0) {
            None => Err(missing_msg(site, MissingPart::DaemonId, owner)),
            Some(d) => match str_arg(n, 1) {
                None => Err(missing_msg(site, MissingPart::DaemonAction, owner)),
                Some(a) => match daemon_action_of(a) {
                    Some(act) => Ok(CommandView::Daemon(d, act)),
                    None => Err(bad_daemon_action_msg(site, a, owner)),
                },
            },
        }
    } else if n.name == "action"@ {
        match str_arg(n, 0) {
            Some(s) => Ok(CommandView::Action(s)),
            None => Err(missing_msg(site, MissingPart::Action, owner)),
        }
    } else if n.name == "workspace"@ {
        match str_arg(n, 0) {
            Some(w) => Ok(CommandView::Workspace(w, str_arg(n, 1))),
            None => Err(missing_msg(site, MissingPart::Workspace, owner)),
        }
    } else {
        Err(unknown_command_msg(site, n.name, owner))
    }
}

pub open spec fn command_result_view(r: Result<CommandAction, String>) -> Result<
    CommandView,
    Seq<char>,
> {
    match r {
        Ok(c) => Ok(c@),
        Err(e) => Err(e@),
    }
}

/// The string values of all entries of `n`, in order.
pub fn node_string_values(n: &KdlNodeData) -> (r: Vec<String>)
    ensures
        strings_view(r@) == str_values(n@.entries),
{
    let ghost es = n@.entries;
    let mut r: Vec<String> = Vec::new();
    let mut i: usize = 0;
    assert(es.subrange(0, es.len() as int) =~= es);
    assert(strings_view(r@) =~= Seq::<Seq<char>>::empty());
    while i < n.entries.len()
        invariant
            es == n@.entries,
            es.len() == n.entries@.len(),
            i <= es.len(),
            str_values(es) == strings_view(r@) + str_values(es.subrange(i as int, es.len() as int)),
        decreases es.len() - i,
    {
        let e = &n.entries[i];
        assert(es[i as int] == e@);
        let ghost cur = es.subrange(i as int, es.len() as int);
        assert(cur.drop_first() =~= es.subrange(i + 1, es.len() as int));
        assert(cur[0] == e@);
        let ghost before = r@;
        match &e.value {
            crate::document::KdlValueData::Str(s) => {
                r.push(s.clone());
                assert(strings_view(r@) =~= strings_view(before) + seq![s@]);
                assert(strings_view(r@) + str_values(es.subrange(i + 1, es.len() as int))
                    =~= strings_view(before) + (seq![s@] + str_values(es.subrange(i + 1, es.len() as int))));
            },
            _ => {},
        }
        i = i + 1;
    }
    assert(str_values(es.subrange(i as int, es.len() as int)) =~= Seq::<Seq<char>>::empty());
    assert(strings_view(r@) + Seq::<Seq<char>>::empty() =~= strings_view(r@));
    r
}

/// The command that node `n` of `owner` stands for, with the error text of
/// the first part that is missing or wrong.
pub fn parse_command(n: &KdlNodeData, site: CommandSite, owner: &str) -> (r: Result<
    CommandAction,
    String,
>)
    ensures
        command_result_view(r) == spec_parse_command(n@, site, owner@),
{
    let name = n.name.as_str();
    if str_eq(name, "run") {
        let parts = node_string_values(n);
        if parts.len() == 0 {
            Err(missing_message(site, MissingPart::Run, owner))
        } else {
            Ok(CommandAction::Run(parts))
        }
    } else if str_eq(name, "vpn") {
        match node_str_arg(n, 0) {
            Some(s) => Ok(CommandAction::Vpn(s)),
            None => Err(missing_message(site, MissingPart::Vpn, owner)),
        }
    } else if str_eq(name, "daemon") {
        match node_str_arg(n, 0) {
            None => Err(missing_message(site, MissingPart::DaemonId, owner)),
            Some(d) => match node_str_arg(n, 1) {
                None => Err(missing_message(site, MissingPart::DaemonAction, owner)),
                Some(a) => match daemon_action_from_str(a.as_str()) {
                    Some(act) => Ok(CommandAction::Daemon(d, act)),
                    None => {
                        let t = bad_daemon_action_text_exec(site);
                        Err(join5(t.0, a.as_str(), t.1, owner, t.2))
                    },
                },
            },
        }
    } else if str_eq(name, "action") {
        match node_str_arg(n, 0) {
            Some(s) => Ok(CommandAction::Action(s)),
            None => Err(missing_message(site, MissingPart::Action, owner)),
        }
    } else if str_eq(name, "workspace") {
        match node_str_arg(n, 0) {
            Some(w) => {
                let m = node_str_arg(n, 1);
                proof {
                    assert(opt_view(m) == crate::base::event_bus::opt_string_view(m));
                }
                Ok(CommandAction::Workspace(w, m))
            },
            None => Err(missing_message(site, MissingPart::Workspace, owner)),
        }
    } else {
        let t = unknown_command_text_exec(site);
        Err(join5(t.0, name, t.1, owner, t.2))
    }
}

/// `acc` put in front of a parsed sequence; an error passes through.
pub open spec fn prepend_ok<T>(acc: Seq<T>, r: Result<Seq<T>, Seq<char>>) -> Result<Seq<T>, Seq<char>> {
    match r {
        Ok(s) => Ok(acc + s),
        Err(e) => Err(e),
    }
}

/// The commands of the nodes from index `i` on, or the first error.
pub open spec fn spec_parse_commands_from(
    nodes: Seq<NodeView>,
    site: CommandSite,
    owner: Seq<char>,
    i: int,
) -> Result<Seq<CommandView>, Seq<char>>
    decreases nodes.len() - i,
{
    if i < 0 || i >= nodes.len() {
        Ok(Seq::empty())
    } else {
        match spec_parse_command(nodes[i], site, owner) {
            Err(e) => Err(e),
            Ok(c) => prepend_ok(seq![c], spec_parse_commands_from(nodes, site, owner, i + 1)),
        }
    }
}

/// Every node a command, in order, or the first error.
pub open spec fn spec_parse_commands(nodes: Seq<NodeView>, site: CommandSite, owner: Seq<char>) -> Result<
    Seq<CommandView>,
    Seq<char>,
> {
    spec_parse_commands_from(nodes, site, owner, 0)
}

pub open spec fn commands_view(v: Seq<CommandAction>) -> Seq<CommandView> {
    v.map_values(|c: CommandAction| c@)
}

pub open spec fn commands_result_view(r: Result<Vec<CommandAction>, String>) -> Result<
    Seq<CommandView>,
    Seq<char>,
> {
    match r {
        Ok(v) => Ok(commands_view(v@)),
        Err(e) => Err(e@),
    }
}

/// Every node of `nodes` parsed as a command of `owner`, in order; the first
/// error stops the parse.
pub fn parse_command_list(nodes: &Vec<KdlNodeData>, site: CommandSite, owner: &str) -> (r: Result<
    Vec<CommandAction>,
    String,
>)
    ensures
        commands_result_view(r) == spec_parse_commands(nodes_view(nodes@), site, owner@),
{
    let ghost v = nodes_view(nodes@);
    let mut acc: Vec<CommandAction> = Vec::new();
    let mut i: usize = 0;
    assert(commands_view(acc@) + Seq::<CommandView>::empty() =~= commands_view(acc@));
    while i < nodes.len()
        invariant
            v == nodes_view(nodes@),
            v.len() == nodes@.len(),
            i <= v.len(),
            spec_parse_commands(v, site, owner@) == prepend_ok(
                commands_view(acc@),
                spec_parse_commands_from(v, site, owner@, i as int),
            ),
        decreases v.len() - i,
    {
        assert(v[i as int] == nodes@[i as int]@);
        match parse_command(&nodes[i], site, owner) {
            Ok(c) => {
                let ghost before = acc@;
                acc.push(c);
                assert(commands_view(acc@) =~= commands_view(before) + seq![c@]);
                assert forall|rest: Seq<CommandView>| #![auto]
                    commands_view(acc@) + rest =~= commands_view(before) + (seq![c@] + rest) by {}
            },
            Err(e) => {
                return Err(e);
            },
        }
        i = i + 1;
    }
    assert(commands_view(acc@) + Seq::<CommandView>::empty() =~= commands_view(acc@));
    Ok(acc)
}

} // verus!
