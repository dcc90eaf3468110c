//! `feature "keybinds"`: keyboard shortcuts and the command each runs.

use vstd::prelude::*;
use crate::text::{str_eq, join3, to_string, str_to_lowercase};
use crate::document::{
    KdlNodeData, NodeView, EntryView, ValueView, kdl_document_nodes, document_nodes, nodes_view, str_arg, find_feature,
    find_feature_index, node_str_arg, child_nodes, node_children,
};
use crate::base::event_bus::{CommandAction, CommandView};
use crate::features::command::{CommandSite, spec_parse_command, parse_command, prepend_ok};
use crate::hotkey::{hotkey_from_str, parse_hotkey, hotkey_text};

verus! {

/// One keybind: the shortcut as written, the id of the hotkey that its
/// lowercased text (`hotkey_text`) parses to, and the command it runs.
#[derive(Debug)]
pub struct KeybindConfig {
    pub hotkey_str: String,
    pub hotkey_id: u32,
    pub action: CommandAction,
}

/// All keybinds of the configuration, in order.
#[derive(Debug)]
pub struct KeybindsConfig {
    pub binds: Vec<KeybindConfig>,
}

pub ghost struct KeybindView {
    pub hotkey_str: Seq<char>,
    pub hotkey_id: u32,
    pub action: CommandView,
}

impl View for KeybindConfig {
    type V = KeybindView;

    open spec fn view(&self) -> KeybindView {
        KeybindView { hotkey_str: self.hotkey_str@, hotkey_id: self.hotkey_id, action: self.action@ }
    }
}

pub open spec fn binds_view(v: Seq<KeybindConfig>) -> Seq<KeybindView> {
    v.map_values(|b: KeybindConfig| b@)
}

/// The hotkey id that a shortcut text gives, lowercased first, or the error text.
pub open spec fn spec_bind_hotkey(hk: Seq<char>) -> Result<u32, Seq<char>> {
    match hotkey_from_str(str_to_lowercase(hk)) {
        Ok(id) => Ok(id),
        Err(dbg) => Err("Не удалось распарсить хоткей '"@ + hk + "': "@ + dbg),
    }
}

/// The keybind that a `bind` node stands for: its shortcut, the command of
/// its first child, and the parsed shortcut.
pub open spec fn spec_parse_bind(n: NodeView) -> Result<KeybindView, Seq<char>> {
    match str_arg(n, 0) {
        None => Err("У узла bind должно быть указано сочетание клавиш (строка)"@),
        Some(hk) => {
            let cs = child_nodes(n);
            if cs.len() == 0 {
                Err(
                    "У бинда '"@ + hk
                        + "' должно быть указано действие (run, vpn, daemon или action)"@,
                )
            } else {
                match spec_parse_command(cs[0], CommandSite::Keybind, hk) {
                    Err(e) => Err(e),
                    Ok(a) => match spec_bind_hotkey(hk) {
                        Err(e) => Err(e),
                        Ok(id) => Ok(KeybindView { hotkey_str: hk, hotkey_id: id, action: a }),
                    },
                }
            }
        },
    }
}

/// `n` with its first entry's value replaced by the string `h`.
pub open spec fn with_shortcut(n: NodeView, h: Seq<char>) -> NodeView {
    NodeView {
        entries: n.entries.update(0, EntryView { name: n.entries[0].name, value: ValueView::Str(h) }),
        ..n
    }
}

/// Two spellings of a shortcut with the same lowercase form, such as
/// `alt+c` and `ALT+C`, bind the same hotkey: the keybind parses alike
/// with either, each keeping its own spelling.
pub proof fn law_shortcut_case_is_ignored(n: NodeView, h1: Seq<char>, h2: Seq<char>)
    requires
        n.entries.len() > 0,
        str_to_lowercase(h1) == str_to_lowercase(h2),
    ensures
        match (spec_parse_bind(with_shortcut(n, h1)), spec_parse_bind(with_shortcut(n, h2))) {
            (Ok(b1), Ok(b2)) => b1.hotkey_id == b2.hotkey_id && b1.action == b2.action && b1.hotkey_str == h1
                && b2.hotkey_str == h2,
            (Err(_), Err(_)) => true,
            _ => false,
        },
{
    let n1 = with_shortcut(n, h1);
    let n2 = with_shortcut(n, h2);
    assert(str_arg(n1, 0) == Some(h1));
    assert(str_arg(n2, 0) == Some(h2));
    assert(child_nodes(n1) == child_nodes(n2));
}

pub open spec fn spec_parse_binds_from(nodes: Seq<NodeView>, i: int) -> Result<
    Seq<KeybindView>,
    Seq<char>,
>
    decreases nodes.len() - i,
{
    if i < 0 || i >= nodes.len() {
        Ok(Seq::empty())
    } else if nodes[i].name == "bind"@ {
        match spec_parse_bind(nodes[i]) {
            Err(e) => Err(e),
            Ok(b) => prepend_ok(seq![b], spec_parse_binds_from(nodes, i + 1)),
        }
    } else {
        spec_parse_binds_from(nodes, i + 1)
    }
}

/// The keybinds of the configuration: those under the first
/// `feature "keybinds"` node, which must exist.
pub open spec fn spec_parse_keybinds(root: Seq<NodeView>) -> Result<Seq<KeybindView>, Seq<char>> {
    match find_feature(root, "keybinds"@) {
        None => Err("Секция feature \"keybinds\" не найдена в конфигурации"@),
        Some(k) => spec_parse_binds_from(child_nodes(root[k]), 0),
    }
}

pub open spec fn keybinds_result_view(r: Result<KeybindsConfig, String>) -> Result<
    Seq<KeybindView>,
    Seq<char>,
> {
    match r {
        Ok(c) => Ok(binds_view(c.binds@)),
        Err(e) => Err(e@),
    }
}

/// The id of a shortcut text, lowercased first, parsed by `global_hotkey`.
pub fn bind_hotkey(hk: &str) -> (r: Result<u32, String>)
    ensures
        match r {
            Ok(id) => spec_bind_hotkey(hk@) == Ok::<u32, Seq<char>>(id),
            Err(e) => spec_bind_hotkey(hk@) == Err::<u32, Seq<char>>(e@),
        },
{
    let clean = hotkey_text(hk);
    match parse_hotkey(clean.as_str()) {
        Ok(id) => Ok(id),
        Err(dbg) => {
            let mut m = join3("Не удалось распарсить хоткей '", hk, "': ");
            m.append(dbg.as_str());
            Err(m)
        },
    }
}

/// The keybind that the `bind` node `n` stands for.
pub fn parse_bind(n: &KdlNodeData) -> (r: Result<KeybindConfig, String>)
    ensures
        match r {
            Ok(b) => spec_parse_bind(n@) == Ok::<KeybindView, Seq<char>>(b@),
            Err(e) => spec_parse_bind(n@) == Err::<KeybindView, Seq<char>>(e@),
        },
{
    let hotkey_str = match node_str_arg(n, 0) {
        Some(s) => s,
        None => {
            return Err(to_string("У узла bind должно быть указано сочетание клавиш (строка)"));
        },
    };
    let children = node_children(n);
    if children.len() == 0 {
        return Err(
            join3(
                "У бинда '",
                hotkey_str.as_str(),
                "' должно быть указано действие (run, vpn, daemon или action)",
            ),
        );
    }
    assert(nodes_view(children@)[0] == children@[0]@);
    let action = match parse_command(&children[0], CommandSite::Keybind, hotkey_str.as_str()) {
        Ok(a) => a,
        Err(e) => {
            return Err(e);
        },
    };
    match bind_hotkey(hotkey_str.as_str()) {
        Ok(id) => Ok(KeybindConfig { hotkey_str, hotkey_id: id, action }),
        Err(e) => Err(e),
    }
}

impl KeybindsConfig {
    /// The keybinds under the first `feature "keybinds"` node of the
    /// top-level `nodes`.
    pub fn parse_from_nodes(nodes: &Vec<KdlNodeData>) -> (r: Result<Self, String>)
        ensures
            keybinds_result_view(r) == spec_parse_keybinds(nodes_view(nodes@)),
    {
        let k = match find_feature_index(nodes, "keybinds") {
            None => {
                return Err(to_string("Секция feature \"keybinds\" не найдена в конфигурации"));
            },
            Some(k) => k,
        };
        assert(nodes_view(nodes@)[k as int] == nodes@[k as int]@);
        let children = node_children(&nodes[k]);
        let ghost v = nodes_view(children@);
        assert(spec_parse_keybinds(nodes_view(nodes@)) == spec_parse_binds_from(v, 0));
        let mut acc: Vec<KeybindConfig> = Vec::new();
        let mut i: usize = 0;
        assert(binds_view(acc@) + Seq::<KeybindView>::empty() =~= binds_view(acc@));
        while i < children.len()
            invariant
                v == nodes_view(children@),
                v.len() == children@.len(),
                spec_parse_keybinds(nodes_view(nodes@)) == spec_parse_binds_from(v, 0),
                i <= v.len(),
                spec_parse_binds_from(v, 0) == prepend_ok(
                    binds_view(acc@),
                    spec_parse_binds_from(v, i as int),
                ),
            decreases v.len() - i,
        {
            let n = &children[i];
            assert(v[i as int] == n@);
            if str_eq(n.name.as_str(), "bind") {
                match parse_bind(n) {
                    Ok(b) => {
                        let ghost before = acc@;
                        acc.push(b);
                        assert(binds_view(acc@) =~= binds_view(before) + seq![b@]);
                        assert forall|rest: Seq<KeybindView>| #![auto]
                            binds_view(acc@) + rest =~= binds_view(before) + (seq![b@] + rest) by {}
                    },
                    Err(e) => {
                        return Err(e);
                    },
                }
            }
            i = i + 1;
        }
        assert(binds_view(acc@) + Seq::<KeybindView>::empty() =~= binds_view(acc@));
        Ok(KeybindsConfig { binds: acc })
    }

    /// The keybinds of the document's `feature "keybinds"` section.
    pub fn parse_from_root_doc(doc: &kdl::KdlDocument) -> (r: Result<Self, String>)
        ensures
            keybinds_result_view(r) == spec_parse_keybinds(kdl_document_nodes(*doc)),
    {
        let nodes = document_nodes(doc);
        Self::parse_from_nodes(&nodes)
    }
}

} // verus!
