//! `feature "workspaces"`: logical workspaces bound to window classes.

use vstd::prelude::*;
use crate::text::{str_eq, join3, to_string};
use crate::document::{
    KdlNodeData, NodeView, kdl_document_nodes, document_nodes, nodes_view, str_arg, prop_str,
    find_feature, find_feature_index, node_str_arg, node_prop_str, child_nodes, node_children,
};
use crate::features::command::prepend_ok;

verus! {

/// One workspace: its name and the window class that belongs to it.
#[derive(Debug, Clone)]
pub struct WorkspaceConfig {
    pub id: String,
    pub class: String,
}

/// All workspaces of the configuration, in order.
#[derive(Debug, Clone)]
pub struct WorkspacesConfig {
    pub workspaces: Vec<WorkspaceConfig>,
}

pub ghost struct WorkspaceView {
    pub id: Seq<char>,
    pub class: Seq<char>,
}

impl View for WorkspaceConfig {
    type V = WorkspaceView;

    open spec fn view(&self) -> WorkspaceView {
        WorkspaceView { id: self.id@, class: self.class@ }
    }
}

pub open spec fn workspaces_view(v: Seq<WorkspaceConfig>) -> Seq<WorkspaceView> {
    v.map_values(|w: WorkspaceConfig| w@)
}

pub open spec fn spec_parse_workspace(n: NodeView) -> Result<WorkspaceView, Seq<char>> {
    match str_arg(n, 0) {
        None => Err("У узла workspace должен быть идентификатор"@),
        Some(id) => match prop_str(n, "class"@) {
            None => Err("У воркспейса '"@ + id + "' должен быть указан класс class"@),
            Some(class) => Ok(WorkspaceView { id, class }),
        },
    }
}

pub open spec fn spec_parse_workspaces_from(nodes: Seq<NodeView>, i: int) -> Result<
    Seq<WorkspaceView>,
    Seq<char>,
>
    decreases nodes.len() - i,
{
    if i < 0 || i >= nodes.len() {
        Ok(Seq::empty())
    } else if nodes[i].name == "workspace"@ {
        match spec_parse_workspace(nodes[i]) {
            Err(e) => Err(e),
            Ok(w) => prepend_ok(seq![w], spec_parse_workspaces_from(nodes, i + 1)),
        }
    } else {
        spec_parse_workspaces_from(nodes, i + 1)
    }
}

/// The workspaces of the configuration: those under the first
/// `feature "workspaces"` node, which must exist.
pub open spec fn spec_parse_workspaces(root: Seq<NodeView>) -> Result<Seq<WorkspaceView>, Seq<char>> {
    match find_feature(root, "workspaces"@) {
        None => Err("Секция feature \"workspaces\" не найдена в конфигурации"@),
        Some(k) => spec_parse_workspaces_from(child_nodes(root[k]), 0),
    }
}

pub open spec fn workspaces_result_view(r: Result<WorkspacesConfig, String>) -> Result<
    Seq<WorkspaceView>,
    Seq<char>,
> {
    match r {
        Ok(c) => Ok(workspaces_view(c.workspaces@)),
        Err(e) => Err(e@),
    }
}

fn parse_workspace(n: &KdlNodeData) -> (r: Result<WorkspaceConfig, String>)
    ensures
        match r {
            Ok(w) => spec_parse_workspace(n@) == Ok::<WorkspaceView, Seq<char>>(w@),
            Err(e) => spec_parse_workspace(n@) == Err::<WorkspaceView, Seq<char>>(e@),
        },
{
    match node_str_arg(n, 0) {
        None => Err(to_string("У узла workspace должен быть идентификатор")),
        Some(id) => match node_prop_str(n, "class") {
            None => Err(join3("У воркспейса '", id.as_str(), "' должен быть указан класс class")),
            Some(class) => Ok(WorkspaceConfig { id, class }),
        },
    }
}

impl WorkspacesConfig {
    /// The workspaces under the first `feature "workspaces"` node of the
    /// top-level `nodes`.
    pub fn parse_from_nodes(nodes: &Vec<KdlNodeData>) -> (r: Result<Self, String>)
        ensures
            workspaces_result_view(r) == spec_parse_workspaces(nodes_view(nodes@)),
    {
        let k = match find_feature_index(nodes, "workspaces") {
            None => {
                return Err(to_string("Секция feature \"workspaces\" не найдена в конфигурации"));
            },
            Some(k) => k,
        };
        assert(nodes_view(nodes@)[k as int] == nodes@[k as int]@);
        let children = node_children(&nodes[k]);
        let ghost v = nodes_view(children@);
        assert(spec_parse_workspaces(nodes_view(nodes@)) == spec_parse_workspaces_from(v, 0));
        let mut acc: Vec<WorkspaceConfig> = Vec::new();
        let mut i: usize = 0;
        assert(workspaces_view(acc@) + Seq::<WorkspaceView>::empty() =~= workspaces_view(acc@));
        while i < children.len()
            invariant
                v == nodes_view(children@),
                v.len() == children@.len(),
                spec_parse_workspaces(nodes_view(nodes@)) == spec_parse_workspaces_from(v, 0),
                i <= v.len(),
                spec_parse_workspaces_from(v, 0) == prepend_ok(
                    workspaces_view(acc@),
                    spec_parse_workspaces_from(v, i as int),
                ),
            decreases v.len() - i,
        {
            let n = &children[i];
            assert(v[i as int] == n@);
            if str_eq(n.name.as_str(), "workspace") {
                match parse_workspace(n) {
                    Ok(w) => {
                        let ghost before = acc@;
                        acc.push(w);
                        assert(workspaces_view(acc@) =~= workspaces_view(before) + seq![w@]);
                        assert forall|rest: Seq<WorkspaceView>| #![auto]
                            workspaces_view(acc@) + rest =~= workspaces_view(before) + (seq![w@]
                                + rest) by {}
                    },
                    Err(e) => {
                        return Err(e);
                    },
                }
            }
            i = i + 1;
        }
        assert(workspaces_view(acc@) + Seq::<WorkspaceView>::empty() =~= workspaces_view(acc@));
        Ok(WorkspacesConfig { workspaces: acc })
    }

    /// The workspaces of the document's `feature "workspaces"` section.
    pub fn parse_from_root_doc(doc: &kdl::KdlDocument) -> (r: Result<Self, String>)
        ensures
            workspaces_result_view(r) == spec_parse_workspaces(kdl_document_nodes(*doc)),
    {
        let nodes = document_nodes(doc);
        Self::parse_from_nodes(&nodes)
    }
}

} // verus!
