//! `feature "vpn"`: the VPN profiles ("states") the daemon switches between.

use vstd::prelude::*;
use crate::text::{str_eq, join3, join5, to_string};
use crate::document::{
    KdlNodeData, NodeView, kdl_document_nodes, document_nodes, nodes_view, str_arg, str_values,
    find_feature, find_feature_index, node_str_arg, child_nodes, node_children, opt_view,
};
use crate::base::event_bus::{strings_view, opt_string_view};
use crate::features::command::{prepend_ok, node_string_values};
use crate::hotkey::hotkey_from_str;
use crate::text::str_to_lowercase;

verus! {

/// One VPN profile: its id, optional shortcut, display name, network
/// interface (none for "off") and the commands that bring it up and down.
#[derive(Debug)]
pub struct VpnStateConfig {
    pub id: String,
    pub hotkey_str: String,
    pub hotkey_id: Option<u32>,
    pub display_name: String,
    pub interface: Option<String>,
    pub up_cmd: Vec<String>,
    pub down_cmd: Vec<String>,
}

/// All VPN profiles of the configuration, in order.
#[derive(Debug)]
pub struct VpnConfig {
    pub states: Vec<VpnStateConfig>,
}

pub ghost struct VpnStateView {
    pub id: Seq<char>,
    pub hotkey_str: Seq<char>,
    pub hotkey_id: Option<u32>,
    pub display_name: Seq<char>,
    pub interface: Option<Seq<char>>,
    pub up_cmd: Seq<Seq<char>>,
    pub down_cmd: Seq<Seq<char>>,
}

impl View for VpnStateConfig {
    type V = VpnStateView;

    open spec fn view(&self) -> VpnStateView {
        VpnStateView {
            id: self.id@,
            hotkey_str: self.hotkey_str@,
            hotkey_id: self.hotkey_id,
            display_name: self.display_name@,
            interface: opt_string_view(self.interface),
            up_cmd: strings_view(self.up_cmd@),
            down_cmd: strings_view(self.down_cmd@),
        }
    }
}

pub open spec fn states_view(v: Seq<VpnStateConfig>) -> Seq<VpnStateView> {
    v.map_values(|s: VpnStateConfig| s@)
}

/// The settings that the child nodes of a `state` node give, read in order;
/// a later node overrides an earlier one of the same name.
pub ghost struct StateSettingsView {
    pub hotkey_str: Seq<char>,
    pub display_name: Seq<char>,
    pub interface: Option<Seq<char>>,
    pub up_cmd: Seq<Seq<char>>,
    pub down_cmd: Seq<Seq<char>>,
}

pub open spec fn state_setting_step(c: NodeView, id: Seq<char>, s: StateSettingsView) -> StateSettingsView {
    if c.name == "hotkey"@ {
        StateSettingsView {
            hotkey_str: match str_arg(c, 0) {
                Some(h) => h,
                None => Seq::empty(),
            },
            ..s
        }
    } else if c.name == "display-name"@ {
        StateSettingsView {
            display_name: match str_arg(c, 0) {
                Some(d) => d,
                None => id,
            },
            ..s
        }
    } else if c.name == "interface"@ {
        StateSettingsView { interface: str_arg(c, 0), ..s }
    } else if c.name == "up-cmd"@ {
        StateSettingsView { up_cmd: str_values(c.entries), ..s }
    } else if c.name == "down-cmd"@ {
        StateSettingsView { down_cmd: str_values(c.entries), ..s }
    } else {
        s
    }
}

pub open spec fn state_settings_from(
    children: Seq<NodeView>,
    id: Seq<char>,
    i: int,
    s: StateSettingsView,
) -> StateSettingsView
    decreases children.len() - i,
{
    if i < 0 || i >= children.len() {
        s
    } else {
        state_settings_from(children, id, i + 1, state_setting_step(children[i], id, s))
    }
}

/// The settings of a `state` node whose id is `id`.
pub open spec fn state_settings(n: NodeView, id: Seq<char>) -> StateSettingsView {
    state_settings_from(
        child_nodes(n),
        id,
        0,
        StateSettingsView {
            hotkey_str: Seq::empty(),
            display_name: id,
            interface: None,
            up_cmd: Seq::empty(),
            down_cmd: Seq::empty(),
        },
    )
}

/// The settings of a `state` node, as plain values.
pub struct StateSettings {
    pub hotkey_str: String,
    pub display_name: String,
    pub interface: Option<String>,
    pub up_cmd: Vec<String>,
    pub down_cmd: Vec<String>,
}

impl View for StateSettings {
    type V = StateSettingsView;

    open spec fn view(&self) -> StateSettingsView {
        StateSettingsView {
            hotkey_str: self.hotkey_str@,
            display_name: self.display_name@,
            interface: opt_string_view(self.interface),
            up_cmd: strings_view(self.up_cmd@),
            down_cmd: strings_view(self.down_cmd@),
        }
    }
}

/// Reads the settings of the `state` node `n` whose id is `id`.
pub fn read_state_settings(n: &KdlNodeData, id: &String) -> (r: StateSettings)
    ensures
        r@ == state_settings(n@, id@),
{
    let mut st = StateSettings {
        hotkey_str: to_string(""),
        display_name: id.clone(),
        interface: None,
        up_cmd: Vec::new(),
        down_cmd: Vec::new(),
    };
    proof {
        reveal_strlit("");
        assert(st.hotkey_str@ =~= Seq::<char>::empty());
        assert(strings_view(st.up_cmd@) =~= Seq::<Seq<char>>::empty());
        assert(strings_view(st.down_cmd@) =~= Seq::<Seq<char>>::empty());
    }
    let children = node_children(n);
    let ghost cv = nodes_view(children@);
    let mut i: usize = 0;
    while i < children.len()
        invariant
            cv == nodes_view(children@),
            cv == child_nodes(n@),
            cv.len() == children@.len(),
            i <= cv.len(),
            state_settings(n@, id@) == state_settings_from(cv, id@, i as int, st@),
        decreases cv.len() - i,
    {
        let c = &children[i];
        assert(cv[i as int] == c@);
        let name = c.name.as_str();
        if str_eq(name, "hotkey") {
            st.hotkey_str = match node_str_arg(c, 0) {
                Some(h) => h,
                None => {
                    let e = to_string("");
                    proof {
                        reveal_strlit("");
                        assert(e@ =~= Seq::<char>::empty());
                    }
                    e
                },
            };
        } else if str_eq(name, "display-name") {
            st.display_name = match node_str_arg(c, 0) {
                Some(d) => d,
                None => id.clone(),
            };
        } else if str_eq(name, "interface") {
            let itf = node_str_arg(c, 0);
            assert(opt_view(itf) == opt_string_view(itf));
            st.interface = itf;
        } else if str_eq(name, "up-cmd") {
            st.up_cmd = node_string_values(c);
        } else if str_eq(name, "down-cmd") {
            st.down_cmd = node_string_values(c);
        }
        i = i + 1;
    }
    st
}

pub open spec fn missing_state_id_msg() -> Seq<char> {
    "У узла state должен быть строковый идентификатор"@
}

/// The profile that a `state` node of `feature "vpn"` stands for; its
/// shortcut is optional.
pub open spec fn spec_parse_vpn_state(n: NodeView) -> Result<VpnStateView, Seq<char>> {
    match str_arg(n, 0) {
        None => Err(missing_state_id_msg()),
        Some(id) => {
            let s = state_settings(n, id);
            let hk: Result<Option<u32>, Seq<char>> = if s.hotkey_str.len() == 0 {
                Ok(None)
            } else {
                match hotkey_from_str(str_to_lowercase(s.hotkey_str)) {
                    Ok(h) => Ok(Some(h)),
                    Err(dbg) => Err(
                        "Не удалось распарсить хоткей '"@ + s.hotkey_str + "' для состояния '"@
                            + id + "': "@ + dbg,
                    ),
                }
            };
            match hk {
                Err(e) => Err(e),
                Ok(h) => Ok(
                    VpnStateView {
                        id,
                        hotkey_str: s.hotkey_str,
                        hotkey_id: h,
                        display_name: s.display_name,
                        interface: s.interface,
                        up_cmd: s.up_cmd,
                        down_cmd: s.down_cmd,
                    },
                ),
            }
        },
    }
}

pub open spec fn spec_parse_vpn_states_from(nodes: Seq<NodeView>, i: int) -> Result<
    Seq<VpnStateView>,
    Seq<char>,
>
    decreases nodes.len() - i,
{
    if i < 0 || i >= nodes.len() {
        Ok(Seq::empty())
    } else if nodes[i].name == "state"@ {
        match spec_parse_vpn_state(nodes[i]) {
            Err(e) => Err(e),
            Ok(s) => prepend_ok(seq![s], spec_parse_vpn_states_from(nodes, i + 1)),
        }
    } else {
        spec_parse_vpn_states_from(nodes, i + 1)
    }
}

/// The VPN profiles of the configuration: those under the first
/// `feature "vpn"` node, which must exist.
pub open spec fn spec_parse_vpn(root: Seq<NodeView>) -> Result<Seq<VpnStateView>, Seq<char>> {
    match find_feature(root, "vpn"@) {
        None => Err("Секция feature \"vpn\" не найдена в конфигурации"@),
        Some(k) => spec_parse_vpn_states_from(child_nodes(root[k]), 0),
    }
}

pub open spec fn vpn_result_view(r: Result<VpnConfig, String>) -> Result<
    Seq<VpnStateView>,
    Seq<char>,
> {
    match r {
        Ok(c) => Ok(states_view(c.states@)),
        Err(e) => Err(e@),
    }
}

/// The profile that the `state` node `n` stands for.
pub fn parse_vpn_state(n: &KdlNodeData) -> (r: Result<VpnStateConfig, String>)
    ensures
        match r {
            Ok(s) => spec_parse_vpn_state(n@) == Ok::<VpnStateView, Seq<char>>(s@),
            Err(e) => spec_parse_vpn_state(n@) == Err::<VpnStateView, Seq<char>>(e@),
        },
{
    let id = match node_str_arg(n, 0) {
        Some(s) => s,
        None => {
            return Err(to_string("У узла state должен быть строковый идентификатор"));
        },
    };
    let st = read_state_settings(n, &id);
    let mut hotkey_id: Option<u32> = None;
    if st.hotkey_str.unicode_len() != 0 {
        let clean = crate::hotkey::hotkey_text(st.hotkey_str.as_str());
        match crate::hotkey::parse_hotkey(clean.as_str()) {
            Ok(h) => {
                hotkey_id = Some(h);
            },
            Err(dbg) => {
                let mut m = join5(
                    "Не удалось распарсить хоткей '",
                    st.hotkey_str.as_str(),
                    "' для состояния '",
                    id.as_str(),
                    "': ",
                );
                m.append(dbg.as_str());
                return Err(m);
            },
        }
    }
    Ok(
        VpnStateConfig {
            id,
            hotkey_str: st.hotkey_str,
            hotkey_id,
            display_name: st.display_name,
            interface: st.interface,
            up_cmd: st.up_cmd,
            down_cmd: st.down_cmd,
        },
    )
}

impl VpnConfig {
    /// The VPN profiles under the first `feature "vpn"` node of the
    /// top-level `nodes`.
    pub fn parse_from_nodes(nodes: &Vec<KdlNodeData>) -> (r: Result<Self, String>)
        ensures
            vpn_result_view(r) == spec_parse_vpn(nodes_view(nodes@)),
    {
        let k = match find_feature_index(nodes, "vpn") {
            None => {
                return Err(to_string("Секция feature \"vpn\" не найдена в конфигурации"));
            },
            Some(k) => k,
        };
        assert(nodes_view(nodes@)[k as int] == nodes@[k as int]@);
        let children = node_children(&nodes[k]);
        let ghost v = nodes_view(children@);
        assert(spec_parse_vpn(nodes_view(nodes@)) == spec_parse_vpn_states_from(v, 0));
        let mut acc: Vec<VpnStateConfig> = Vec::new();
        let mut i: usize = 0;
        assert(states_view(acc@) + Seq::<VpnStateView>::empty() =~= states_view(acc@));
        while i < children.len()
            invariant
                v == nodes_view(children@),
                v.len() == children@.len(),
                spec_parse_vpn(nodes_view(nodes@)) == spec_parse_vpn_states_from(v, 0),
                i <= v.len(),
                spec_parse_vpn_states_from(v, 0) == prepend_ok(
                    states_view(acc@),
                    spec_parse_vpn_states_from(v, i as int),
                ),
            decreases v.len() - i,
        {
            let n = &children[i];
            assert(v[i as int] == n@);
            if str_eq(n.name.as_str(), "state") {
                match parse_vpn_state(n) {
                    Ok(s) => {
                        let ghost before = acc@;
                        acc.push(s);
                        assert(states_view(acc@) =~= states_view(before) + seq![s@]);
                        assert forall|rest: Seq<VpnStateView>| #![auto]
                            states_view(acc@) + rest =~= states_view(before) + (seq![s@] + rest) by {}
                    },
                    Err(e) => {
                        return Err(e);
                    },
                }
            }
            i = i + 1;
        }
        assert(states_view(acc@) + Seq::<VpnStateView>::empty() =~= states_view(acc@));
        Ok(VpnConfig { states: acc })
    }

    /// The VPN profiles of the document's `feature "vpn"` section.
    pub fn parse_from_root_doc(doc: &kdl::KdlDocument) -> (r: Result<Self, String>)
        ensures
            vpn_result_view(r) == spec_parse_vpn(kdl_document_nodes(*doc)),
    {
        let nodes = document_nodes(doc);
        Self::parse_from_nodes(&nodes)
    }
}

} // verus!
