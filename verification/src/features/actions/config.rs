//! `feature "actions"`: named command sequences.

use vstd::prelude::*;
use crate::text::str_eq;
use crate::document::{
    KdlNodeData, NodeView, kdl_document_nodes, document_nodes, nodes_view, str_arg, prop_bool,
    find_feature, find_feature_index, node_str_arg, node_prop_bool, child_nodes, node_children,
};
use crate::base::event_bus::{CommandAction, CommandView};
use crate::features::command::{
    CommandSite, spec_parse_commands, parse_command_list, commands_view, prepend_ok,
};

verus! {

/// One action: its name, whether `de-action` may call it, and its commands.
#[derive(Debug, Clone)]
pub struct ActionConfig {
    pub id: String,
    pub export: bool,
    pub commands: Vec<CommandAction>,
}

/// All actions of the configuration, in order.
#[derive(Debug, Clone)]
pub struct ActionsConfig {
    pub actions: Vec<ActionConfig>,
}

pub ghost struct ActionView {
    pub id: Seq<char>,
    pub export: bool,
    pub commands: Seq<CommandView>,
}

impl View for ActionConfig {
    type V = ActionView;

    open spec fn view(&self) -> ActionView {
        ActionView { id: self.id@, export: self.export, commands: commands_view(self.commands@) }
    }
}

pub open spec fn actions_view(v: Seq<ActionConfig>) -> Seq<ActionView> {
    v.map_values(|a: ActionConfig| a@)
}

pub open spec fn missing_action_id_msg() -> Seq<char> {
    "У узла action должен быть строковый идентификатор"@
}

/// The action that an `action` node stands for.
pub open spec fn spec_parse_action(n: NodeView) -> Result<ActionView, Seq<char>> {
    match str_arg(n, 0) {
        None => Err(missing_action_id_msg()),
        Some(id) => {
            let export = match prop_bool(n, "export"@) {
                Some(b) => b,
                None => false,
            };
            match spec_parse_commands(child_nodes(n), CommandSite::Action, id) {
                Err(e) => Err(e),
                Ok(cs) => Ok(ActionView { id, export, commands: cs }),
            }
        },
    }
}

/// The actions of the `action` nodes from index `i` on; other nodes are skipped.
pub open spec fn spec_parse_actions_from(nodes: Seq<NodeView>, i: int) -> Result<
    Seq<ActionView>,
    Seq<char>,
>
    decreases nodes.len() - i,
{
    if i < 0 || i >= nodes.len() {
        Ok(Seq::empty())
    } else if nodes[i].name == "action"@ {
        match spec_parse_action(nodes[i]) {
            Err(e) => Err(e),
            Ok(a) => prepend_ok(seq![a], spec_parse_actions_from(nodes, i + 1)),
        }
    } else {
        spec_parse_actions_from(nodes, i + 1)
    }
}

/// The actions of the configuration: those under the first `feature "actions"`
/// node, none where there is no such node.
pub open spec fn spec_parse_actions(root: Seq<NodeView>) -> Result<Seq<ActionView>, Seq<char>> {
    match find_feature(root, "actions"@) {
        None => Ok(Seq::empty()),
        Some(k) => spec_parse_actions_from(child_nodes(root[k]), 0),
    }
}

pub open spec fn actions_result_view(r: Result<ActionsConfig, String>) -> Result<
    Seq<ActionView>,
    Seq<char>,
> {
    match r {
        Ok(c) => Ok(actions_view(c.actions@)),
        Err(e) => Err(e@),
    }
}

/// The action that the `action` node `n` stands for.
pub fn parse_action(n: &KdlNodeData) -> (r: Result<ActionConfig, String>)
    ensures
        match r {
            Ok(a) => spec_parse_action(n@) == Ok::<ActionView, Seq<char>>(a@),
            Err(e) => spec_parse_action(n@) == Err::<ActionView, Seq<char>>(e@),
        },
{
    let id = match node_str_arg(n, 0) {
        Some(s) => s,
        None => {
            return Err(crate::text::to_string("У узла action должен быть строковый идентификатор"));
        },
    };
    let export = match node_prop_bool(n, "export") {
        Some(b) => b,
        None => false,
    };
    let children = node_children(n);
    match parse_command_list(&children, CommandSite::Action, id.as_str()) {
        Ok(commands) => Ok(ActionConfig { id, export, commands }),
        Err(e) => Err(e),
    }
}

/// The actions of the `action` nodes among `nodes`, in order; other nodes
/// are skipped and the first error stops the parse.
pub fn parse_action_list(nodes: &Vec<KdlNodeData>) -> (r: Result<Vec<ActionConfig>, String>)
    ensures
        match r {
            Ok(v) => spec_parse_actions_from(nodes_view(nodes@), 0) == Ok::<
                Seq<ActionView>,
                Seq<char>,
            >(actions_view(v@)),
            Err(e) => spec_parse_actions_from(nodes_view(nodes@), 0) == Err::<
                Seq<ActionView>,
                Seq<char>,
            >(e@),
        },
{
    let ghost v = nodes_view(nodes@);
    let mut acc: Vec<ActionConfig> = Vec::new();
    let mut i: usize = 0;
    assert(actions_view(acc@) + Seq::<ActionView>::empty() =~= actions_view(acc@));
    while i < nodes.len()
        invariant
            v == nodes_view(nodes@),
            v.len() == nodes@.len(),
            i <= v.len(),
            spec_parse_actions_from(v, 0) == prepend_ok(
                actions_view(acc@),
                spec_parse_actions_from(v, i as int),
            ),
        decreases v.len() - i,
    {
        let n = &nodes[i];
        assert(v[i as int] == n@);
        if str_eq(n.name.as_str(), "action") {
            match parse_action(n) {
                Ok(a) => {
                    let ghost before = acc@;
                    acc.push(a);
                    assert(actions_view(acc@) =~= actions_view(before) + seq![a@]);
                    assert forall|rest: Seq<ActionView>| #![auto]
                        actions_view(acc@) + rest =~= actions_view(before) + (seq![a@] + rest) by {}
                },
                Err(e) => {
                    return Err(e);
                },
            }
        }
        i = i + 1;
    }
    assert(actions_view(acc@) + Seq::<ActionView>::empty() =~= actions_view(acc@));
    Ok(acc)
}

impl ActionsConfig {
    /// The actions under the first `feature "actions"` node of the top-level
    /// `nodes`; none where there is no such node.
    pub fn parse_from_nodes(nodes: &Vec<KdlNodeData>) -> (r: Result<Self, String>)
        ensures
            actions_result_view(r) == spec_parse_actions(nodes_view(nodes@)),
    {
        match find_feature_index(nodes, "actions") {
            None => {
                let actions: Vec<ActionConfig> = Vec::new();
                assert(actions_view(actions@) =~= Seq::<ActionView>::empty());
                Ok(ActionsConfig { actions })
            },
            Some(k) => {
                assert(nodes_view(nodes@)[k as int] == nodes@[k as int]@);
                let children = node_children(&nodes[k]);
                match parse_action_list(&children) {
                    Ok(actions) => Ok(ActionsConfig { actions }),
                    Err(e) => Err(e),
                }
            },
        }
    }

    /// The actions of the document's `feature "actions"` section.
    pub fn parse_from_root_doc(doc: &kdl::KdlDocument) -> (r: Result<Self, String>)
        ensures
            actions_result_view(r) == spec_parse_actions(kdl_document_nodes(*doc)),
    {
        let nodes = document_nodes(doc);
        Self::parse_from_nodes(&nodes)
    }
}

} // verus!
