//! `feature "ipc"`: where the control socket lives.

use vstd::prelude::*;
use crate::text::str_eq;
use crate::document::{
    KdlNodeData, NodeView, kdl_document_nodes, document_nodes, nodes_view, str_arg, find_feature,
    find_feature_index, node_str_arg, child_nodes, node_children, opt_view,
};

verus! {

/// The IPC settings: the socket path, if the configuration names one.
#[derive(Debug, Clone)]
pub struct IpcConfig {
    pub path: Option<String>,
}

/// The path that the `path` nodes from index `i` on leave; each overrides
/// the one before.
pub open spec fn ipc_path_from(nodes: Seq<NodeView>, i: int, cur: Option<Seq<char>>) -> Option<
    Seq<char>,
>
    decreases nodes.len() - i,
{
    if i < 0 || i >= nodes.len() {
        cur
    } else if nodes[i].name == "path"@ {
        ipc_path_from(nodes, i + 1, str_arg(nodes[i], 0))
    } else {
        ipc_path_from(nodes, i + 1, cur)
    }
}

/// The socket path of the configuration, if any.
pub open spec fn spec_ipc_path(root: Seq<NodeView>) -> Option<Seq<char>> {
    match find_feature(root, "ipc"@) {
        None => None,
        Some(k) => ipc_path_from(child_nodes(root[k]), 0, None),
    }
}

impl IpcConfig {
    /// The IPC settings of the top-level `nodes`; never an error.
    pub fn parse_from_nodes(nodes: &Vec<KdlNodeData>) -> (r: Result<Self, String>)
        ensures
            r matches Ok(c) && opt_view(c.path) == spec_ipc_path(nodes_view(nodes@)),
    {
        let mut path: Option<String> = None;
        match find_feature_index(nodes, "ipc") {
            None => {},
            Some(k) => {
                assert(nodes_view(nodes@)[k as int] == nodes@[k as int]@);
                let children = node_children(&nodes[k]);
                let ghost cv = nodes_view(children@);
                let mut i: usize = 0;
                while i < children.len()
                    invariant
                        cv == nodes_view(children@),
                        cv.len() == children@.len(),
                        i <= cv.len(),
                        ipc_path_from(cv, 0, None) == ipc_path_from(cv, i as int, opt_view(path)),
                    decreases cv.len() - i,
                {
                    let c = &children[i];
                    assert(cv[i as int] == c@);
                    if str_eq(c.name.as_str(), "path") {
                        path = node_str_arg(c, 0);
                    }
                    i = i + 1;
                }
            },
        }
        Ok(IpcConfig { path })
    }

    /// The IPC settings of the document's `feature "ipc"` section.
    pub fn parse_from_root_doc(doc: &kdl::KdlDocument) -> (r: Result<Self, String>)
        ensures
            r matches Ok(c) && opt_view(c.path) == spec_ipc_path(kdl_document_nodes(*doc)),
    {
        let nodes = document_nodes(doc);
        Self::parse_from_nodes(&nodes)
    }
}

} // verus!
