//! `feature "daemons"`: the background services that the daemon manages.

use vstd::prelude::*;
use crate::text::{str_eq, join3, to_string};
use crate::document::{
    KdlNodeData, NodeView, kdl_document_nodes, document_nodes, nodes_view, str_arg, str_values,
    prop_bool, prop_str, find_feature, find_feature_index, node_str_arg, node_prop_bool, node_prop_str,
    child_nodes,
    node_children,
};
use crate::base::event_bus::{strings_view, clone_strings};
use crate::features::command::{prepend_ok, node_string_values};

verus! {

/// One daemon: its name, display name, whether it starts with the daemon
/// manager, and how to start and (optionally) stop it.
#[derive(Debug, Clone)]
pub struct DaemonConfig {
    pub id: String,
    pub display_name: String,
    pub autostart: bool,
    pub start_cmd: Vec<String>,
    pub stop_cmd: Option<Vec<String>>,
}

/// All daemons of the configuration, in order.
#[derive(Debug, Clone)]
pub struct DaemonsConfig {
    pub daemons: Vec<DaemonConfig>,
}

pub ghost struct DaemonView {
    pub id: Seq<char>,
    pub display_name: Seq<char>,
    pub autostart: bool,
    pub start_cmd: Seq<Seq<char>>,
    pub stop_cmd: Option<Seq<Seq<char>>>,
}

pub open spec fn opt_strings_view(o: Option<Vec<String>>) -> Option<Seq<Seq<char>>> {
    match o {
        Some(v) => Some(strings_view(v@)),
        None => None,
    }
}

impl View for DaemonConfig {
    type V = DaemonView;

    open spec fn view(&self) -> DaemonView {
        DaemonView {
            id: self.id@,
            display_name: self.display_name@,
            autostart: self.autostart,
            start_cmd: strings_view(self.start_cmd@),
            stop_cmd: opt_strings_view(self.stop_cmd),
        }
    }
}

pub open spec fn daemons_view(v: Seq<DaemonConfig>) -> Seq<DaemonView> {
    v.map_values(|d: DaemonConfig| d@)
}

/// The settings a daemon's child nodes give, read in order; a later node
/// overrides an earlier one of the same name.
pub ghost struct DaemonSettings {
    pub display_name: Seq<char>,
    pub start_cmd: Seq<Seq<char>>,
    pub stop_cmd: Option<Seq<Seq<char>>>,
}

pub open spec fn daemon_setting_step(c: NodeView, id: Seq<char>, s: DaemonSettings) -> DaemonSettings {
    if c.name == "display-name"@ {
        DaemonSettings {
            display_name: match str_arg(c, 0) {
                Some(d) => d,
                None => id,
            },
            ..s
        }
    } else if c.name == "start-cmd"@ {
        DaemonSettings { start_cmd: str_values(c.entries), ..s }
    } else if c.name == "stop-cmd"@ {
        DaemonSettings { stop_cmd: Some(str_values(c.entries)), ..s }
    } else {
        s
    }
}

pub open spec fn daemon_settings_from(
    children: Seq<NodeView>,
    id: Seq<char>,
    i: int,
    s: DaemonSettings,
) -> DaemonSettings
    decreases children.len() - i,
{
    if i < 0 || i >= children.len() {
        s
    } else {
        daemon_settings_from(children, id, i + 1, daemon_setting_step(children[i], id, s))
    }
}

pub open spec fn missing_daemon_id_msg() -> Seq<char> {
    "У узла daemon должен быть строковый идентификатор"@
}

pub open spec fn missing_start_cmd_msg(id: Seq<char>) -> Seq<char> {
    "У демона '"@ + id + "' не указана команда запуска start-cmd"@
}

pub open spec fn missing_daemons_section_msg() -> Seq<char> {
    "Секция feature \"daemons\" не найдена в конфигурации"@
}

/// The start command that an `exec="<program>"` property gives: the
/// program alone; none without that property.
pub open spec fn exec_cmd(n: NodeView) -> Seq<Seq<char>> {
    match prop_str(n, "exec"@) {
        Some(e) => seq![e],
        None => Seq::empty(),
    }
}

/// The daemon that a `daemon` node stands for. Its start command is that of
/// its last `start-cmd` child, else the `exec` property's program.
pub open spec fn spec_parse_daemon(n: NodeView) -> Result<DaemonView, Seq<char>> {
    match str_arg(n, 0) {
        None => Err(missing_daemon_id_msg()),
        Some(id) => {
            let autostart = match prop_bool(n, "autostart"@) {
                Some(b) => b,
                None => false,
            };
            let s = daemon_settings_from(
                child_nodes(n),
                id,
                0,
                DaemonSettings { display_name: id, start_cmd: exec_cmd(n), stop_cmd: None },
            );
            if s.start_cmd.len() == 0 {
                Err(missing_start_cmd_msg(id))
            } else {
                Ok(
                    DaemonView {
                        id,
                        display_name: s.display_name,
                        autostart,
                        start_cmd: s.start_cmd,
                        stop_cmd: s.stop_cmd,
                    },
                )
            }
        },
    }
}

pub open spec fn spec_parse_daemons_from(nodes: Seq<NodeView>, i: int) -> Result<
    Seq<DaemonView>,
    Seq<char>,
>
    decreases nodes.len() - i,
{
    if i < 0 || i >= nodes.len() {
        Ok(Seq::empty())
    } else if nodes[i].name == "daemon"@ {
        match spec_parse_daemon(nodes[i]) {
            Err(e) => Err(e),
            Ok(d) => prepend_ok(seq![d], spec_parse_daemons_from(nodes, i + 1)),
        }
    } else {
        spec_parse_daemons_from(nodes, i + 1)
    }
}

/// The daemons of the configuration: those under the first
/// `feature "daemons"` node, which must exist.
pub open spec fn spec_parse_daemons(root: Seq<NodeView>) -> Result<Seq<DaemonView>, Seq<char>> {
    match find_feature(root, "daemons"@) {
        None => Err(missing_daemons_section_msg()),
        Some(k) => spec_parse_daemons_from(child_nodes(root[k]), 0),
    }
}

pub open spec fn daemons_result_view(r: Result<DaemonsConfig, String>) -> Result<
    Seq<DaemonView>,
    Seq<char>,
> {
    match r {
        Ok(c) => Ok(daemons_view(c.daemons@)),
        Err(e) => Err(e@),
    }
}

/// The daemon that the `daemon` node `n` stands for; `exec="<program>"`
/// gives its start command where no `start-cmd` child does.
pub fn parse_daemon(n: &KdlNodeData) -> (r: Result<DaemonConfig, String>)
    ensures
        match r {
            Ok(d) => spec_parse_daemon(n@) == Ok::<DaemonView, Seq<char>>(d@),
            Err(e) => spec_parse_daemon(n@) == Err::<DaemonView, Seq<char>>(e@),
        },
{
    let id = match node_str_arg(n, 0) {
        Some(s) => s,
        None => {
            return Err(to_string("У узла daemon должен быть строковый идентификатор"));
        },
    };
    let autostart = match node_prop_bool(n, "autostart") {
        Some(b) => b,
        None => false,
    };
    let mut display_name = id.clone();
    let mut start_cmd: Vec<String> = Vec::new();
    match node_prop_str(n, "exec") {
        Some(e) => {
            start_cmd.push(e);
        },
        None => {},
    }
    let mut stop_cmd: Option<Vec<String>> = None;
    let children = node_children(n);
    let ghost cv = nodes_view(children@);
    let ghost init = DaemonSettings {
        display_name: id@,
        start_cmd: exec_cmd(n@),
        stop_cmd: None,
    };
    assert(strings_view(start_cmd@) =~= exec_cmd(n@));
    let mut i: usize = 0;
    while i < children.len()
        invariant
            cv == nodes_view(children@),
            cv.len() == children@.len(),
            i <= cv.len(),
            daemon_settings_from(cv, id@, 0, init) == daemon_settings_from(
                cv,
                id@,
                i as int,
                DaemonSettings {
                    display_name: display_name@,
                    start_cmd: strings_view(start_cmd@),
                    stop_cmd: opt_strings_view(stop_cmd),
                },
            ),
        decreases cv.len() - i,
    {
        let c = &children[i];
        assert(cv[i as int] == c@);
        let name = c.name.as_str();
        if str_eq(name, "display-name") {
            display_name = match node_str_arg(c, 0) {
                Some(d) => d,
                None => id.clone(),
            };
        } else if str_eq(name, "start-cmd") {
            start_cmd = node_string_values(c);
        } else if str_eq(name, "stop-cmd") {
            stop_cmd = Some(node_string_values(c));
        }
        i = i + 1;
    }
    if start_cmd.len() == 0 {
        return Err(join3("У демона '", id.as_str(), "' не указана команда запуска start-cmd"));
    }
    Ok(DaemonConfig { id, display_name, autostart, start_cmd, stop_cmd })
}

/// The daemons of the `daemon` nodes among `nodes`, in order.
pub fn parse_daemon_list(nodes: &Vec<KdlNodeData>) -> (r: Result<Vec<DaemonConfig>, String>)
    ensures
        match r {
            Ok(v) => spec_parse_daemons_from(nodes_view(nodes@), 0) == Ok::<
                Seq<DaemonView>,
                Seq<char>,
            >(daemons_view(v@)),
            Err(e) => spec_parse_daemons_from(nodes_view(nodes@), 0) == Err::<
                Seq<DaemonView>,
                Seq<char>,
            >(e@),
        },
{
    let ghost v = nodes_view(nodes@);
    let mut acc: Vec<DaemonConfig> = Vec::new();
    let mut i: usize = 0;
    assert(daemons_view(acc@) + Seq::<DaemonView>::empty() =~= daemons_view(acc@));
    while i < nodes.len()
        invariant
            v == nodes_view(nodes@),
            v.len() == nodes@.len(),
            i <= v.len(),
            spec_parse_daemons_from(v, 0) == prepend_ok(
                daemons_view(acc@),
                spec_parse_daemons_from(v, i as int),
            ),
        decreases v.len() - i,
    {
        let n = &nodes[i];
        assert(v[i as int] == n@);
        if str_eq(n.name.as_str(), "daemon") {
            match parse_daemon(n) {
                Ok(d) => {
                    let ghost before = acc@;
                    acc.push(d);
                    assert(daemons_view(acc@) =~= daemons_view(before) + seq![d@]);
                    assert forall|rest: Seq<DaemonView>| #![auto]
                        daemons_view(acc@) + rest =~= daemons_view(before) + (seq![d@] + rest) by {}
                },
                Err(e) => {
                    return Err(e);
                },
            }
        }
        i = i + 1;
    }
    assert(daemons_view(acc@) + Seq::<DaemonView>::empty() =~= daemons_view(acc@));
    Ok(acc)
}

impl DaemonsConfig {
    /// The daemons under the first `feature "daemons"` node of the top-level
    /// `nodes`; an error where there is no such node.
    pub fn parse_from_nodes(nodes: &Vec<KdlNodeData>) -> (r: Result<Self, String>)
        ensures
            daemons_result_view(r) == spec_parse_daemons(nodes_view(nodes@)),
    {
        match find_feature_index(nodes, "daemons") {
            None => Err(to_string("Секция feature \"daemons\" не найдена в конфигурации")),
            Some(k) => {
                assert(nodes_view(nodes@)[k as int] == nodes@[k as int]@);
                let children = node_children(&nodes[k]);
                match parse_daemon_list(&children) {
                    Ok(daemons) => Ok(DaemonsConfig { daemons }),
                    Err(e) => Err(e),
                }
            },
        }
    }

    /// The daemons of the document's `feature "daemons"` section.
    pub fn parse_from_root_doc(doc: &kdl::KdlDocument) -> (r: Result<Self, String>)
        ensures
            daemons_result_view(r) == spec_parse_daemons(kdl_document_nodes(*doc)),
    {
        let nodes = document_nodes(doc);
        Self::parse_from_nodes(&nodes)
    }
}

} // verus!
