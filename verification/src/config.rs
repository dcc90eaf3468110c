//! The stand-alone VPN configuration: top-level `state` nodes, each with a
//! required shortcut.

use vstd::prelude::*;
use crate::text::{str_eq, join3, join5, to_string, str_to_lowercase};
use crate::document::{
    KdlNodeData, NodeView, kdl_parse, kdl_error_text, parse_kdl, document_nodes, nodes_view,
    str_arg, node_str_arg,
};
use crate::base::event_bus::{strings_view, opt_string_view};
use crate::features::command::prepend_ok;
use crate::features::vpn::config::{state_settings, read_state_settings};
use crate::hotkey::{hotkey_from_str, parse_hotkey, hotkey_text};

verus! {

/// One VPN profile with its shortcut.
#[derive(Debug)]
pub struct VpnStateConfig {
    pub id: String,
    pub hotkey_str: String,
    pub hotkey_id: u32,
    pub display_name: String,
    pub interface: Option<String>,
    pub up_cmd: Vec<String>,
    pub down_cmd: Vec<String>,
}

/// The profiles of a stand-alone VPN configuration.
#[derive(Debug)]
pub struct Config {
    pub states: Vec<VpnStateConfig>,
}

pub ghost struct StateView {
    pub id: Seq<char>,
    pub hotkey_str: Seq<char>,
    pub hotkey_id: u32,
    pub display_name: Seq<char>,
    pub interface: Option<Seq<char>>,
    pub up_cmd: Seq<Seq<char>>,
    pub down_cmd: Seq<Seq<char>>,
}

impl View for VpnStateConfig {
    type V = StateView;

    open spec fn view(&self) -> StateView {
        StateView {
            id: self.id@,
            hotkey_str: self.hotkey_str@,
            hotkey_id: self.hotkey_id,
            display_name: self.display_name@,
            interface: opt_string_view(self.interface),
            up_cmd: strings_view(self.up_cmd@),
            down_cmd: strings_view(self.down_cmd@),
        }
    }
}

pub open spec fn config_states_view(v: Seq<VpnStateConfig>) -> Seq<StateView> {
    v.map_values(|s: VpnStateConfig| s@)
}

/// The profile that a top-level `state` node stands for; the shortcut must
/// be given and must parse.
pub open spec fn spec_parse_state(n: NodeView) -> Result<StateView, Seq<char>> {
    match str_arg(n, 0) {
        None => Err("У узла state должен быть строковый идентификатор"@),
        Some(id) => {
            let s = state_settings(n, id);
            if s.hotkey_str.len() == 0 {
                Err("У узла state '"@ + id + "' должен быть указан hotkey"@)
            } else {
                match hotkey_from_str(str_to_lowercase(s.hotkey_str)) {
                    Err(dbg) => Err(
                        "Не удалось распарсить хоткей '"@ + s.hotkey_str + "' для состояния '"@
                            + id + "': "@ + dbg,
                    ),
                    Ok(h) => Ok(
                        StateView {
                            id,
                            hotkey_str: s.hotkey_str,
                            hotkey_id: h,
                            display_name: s.display_name,
                            interface: s.interface,
                            up_cmd: s.up_cmd,
                            down_cmd: s.down_cmd,
                        },
                    ),
                }
            }
        },
    }
}

pub open spec fn spec_parse_states_from(nodes: Seq<NodeView>, i: int) -> Result<
    Seq<StateView>,
    Seq<char>,
>
    decreases nodes.len() - i,
{
    if i < 0 || i >= nodes.len() {
        Ok(Seq::empty())
    } else if nodes[i].name == "state"@ {
        match spec_parse_state(nodes[i]) {
            Err(e) => Err(e),
            Ok(s) => prepend_ok(seq![s], spec_parse_states_from(nodes, i + 1)),
        }
    } else {
        spec_parse_states_from(nodes, i + 1)
    }
}

/// The profiles of a configuration text: the error of `kdl` where it refuses
/// the text, else the top-level `state` nodes, in order.
pub open spec fn spec_load_config(text: Seq<char>) -> Result<Seq<StateView>, Seq<char>> {
    match kdl_parse(text) {
        None => Err("Ошибка парсинга KDL: "@ + kdl_error_text()),
        Some(nodes) => spec_parse_states_from(nodes, 0),
    }
}

pub open spec fn config_result_view(r: Result<Config, String>) -> Result<Seq<StateView>, Seq<char>> {
    match r {
        Ok(c) => Ok(config_states_view(c.states@)),
        Err(e) => Err(e@),
    }
}

fn parse_state(n: &KdlNodeData) -> (r: Result<VpnStateConfig, String>)
    ensures
        match r {
            Ok(s) => spec_parse_state(n@) == Ok::<StateView, Seq<char>>(s@),
            Err(e) => spec_parse_state(n@) == Err::<StateView, Seq<char>>(e@),
        },
{
    let id = match node_str_arg(n, 0) {
        Some(s) => s,
        None => {
            return Err(to_string("У узла state должен быть строковый идентификатор"));
        },
    };
    let st = read_state_settings(n, &id);
    if st.hotkey_str.unicode_len() == 0 {
        return Err(join3("У узла state '", id.as_str(), "' должен быть указан hotkey"));
    }
    let clean = hotkey_text(st.hotkey_str.as_str());
    match parse_hotkey(clean.as_str()) {
        Ok(h) => Ok(
            VpnStateConfig {
                id,
                hotkey_str: st.hotkey_str,
                hotkey_id: h,
                display_name: st.display_name,
                interface: st.interface,
                up_cmd: st.up_cmd,
                down_cmd: st.down_cmd,
            },
        ),
        Err(dbg) => {
            let mut m = join5(
                "Не удалось распарсить хоткей '",
                st.hotkey_str.as_str(),
                "' для состояния '",
                id.as_str(),
                "': ",
            );
            m.append(dbg.as_str());
            Err(m)
        },
    }
}

impl Config {
    /// The profiles of the `state` nodes among the top-level `nodes`.
    pub fn from_nodes(nodes: &Vec<KdlNodeData>) -> (r: Result<Self, String>)
        ensures
            config_result_view(r) == spec_parse_states_from(nodes_view(nodes@), 0),
    {
        let ghost v = nodes_view(nodes@);
        let mut acc: Vec<VpnStateConfig> = Vec::new();
        let mut i: usize = 0;
        assert(config_states_view(acc@) + Seq::<StateView>::empty() =~= config_states_view(acc@));
        while i < nodes.len()
            invariant
                v == nodes_view(nodes@),
                v.len() == nodes@.len(),
                i <= v.len(),
                spec_parse_states_from(v, 0) == prepend_ok(
                    config_states_view(acc@),
                    spec_parse_states_from(v, i as int),
                ),
            decreases v.len() - i,
        {
            let n = &nodes[i];
            assert(v[i as int] == n@);
            if str_eq(n.name.as_str(), "state") {
                match parse_state(n) {
                    Ok(s) => {
                        let ghost before = acc@;
                        acc.push(s);
                        assert(config_states_view(acc@) =~= config_states_view(before) + seq![s@]);
                        assert forall|rest: Seq<StateView>| #![auto]
                            config_states_view(acc@) + rest =~= config_states_view(before) + (seq![
                                s@,
                            ] + rest) by {}
                    },
                    Err(e) => {
                        return Err(e);
                    },
                }
            }
            i = i + 1;
        }
        assert(config_states_view(acc@) + Seq::<StateView>::empty() =~= config_states_view(acc@));
        Ok(Config { states: acc })
    }

    /// Parses a configuration text.
    pub fn load_from_str(s: &str) -> (r: Result<Self, String>)
        ensures
            config_result_view(r) == spec_load_config(s@),
    {
        match parse_kdl(s) {
            Err(e) => {
                let mut m = to_string("Ошибка парсинга KDL: ");
                m.append(e.as_str());
                Err(m)
            },
            Ok(doc) => {
                let nodes = document_nodes(&doc);
                Self::from_nodes(&nodes)
            },
        }
    }
}

} // verus!
