//! `feature "wm"`: which window-manager driver runs, and the registry of
//! the running one.

pub mod bspwm;

use vstd::prelude::*;
use crate::text::{str_eq, to_string};
use crate::document::{
    KdlNodeData, NodeView, kdl_document_nodes, document_nodes, nodes_view, str_arg, find_feature,
    find_feature_index, node_str_arg, child_nodes, node_children, opt_view,
};

verus! {

/// The window-manager settings: the driver's name.
#[derive(Debug, Clone)]
pub struct WmConfig {
    pub driver: String,
}

pub open spec fn wm_driver_from(nodes: Seq<NodeView>, i: int, cur: Option<Seq<char>>) -> Option<
    Seq<char>,
>
    decreases nodes.len() - i,
{
    if i < 0 || i >= nodes.len() {
        cur
    } else if nodes[i].name == "driver"@ {
        wm_driver_from(nodes, i + 1, str_arg(nodes[i], 0))
    } else {
        wm_driver_from(nodes, i + 1, cur)
    }
}

/// The driver the configuration picks: the last `driver` node's value, else
/// `hyprland` in a Hyprland session, else `bspwm`; an error where the
/// configuration has no `feature "wm"` node.
pub open spec fn spec_wm_driver(root: Seq<NodeView>, hyprland_session: bool) -> Result<
    Seq<char>,
    Seq<char>,
> {
    match find_feature(root, "wm"@) {
        None => Err("Секция feature \"wm\" не найдена"@),
        Some(k) => match wm_driver_from(child_nodes(root[k]), 0, None) {
            Some(d) => Ok(d),
            None => if hyprland_session {
                Ok("hyprland"@)
            } else {
                Ok("bspwm"@)
            },
        },
    }
}

impl WmConfig {
    /// The window-manager settings of the top-level `nodes`;
    /// `hyprland_session` tells whether `HYPRLAND_INSTANCE_SIGNATURE` is set.
    pub fn parse_from_nodes(nodes: &Vec<KdlNodeData>, hyprland_session: bool) -> (r: Result<
        Self,
        String,
    >)
        ensures
            match r {
                Ok(c) => spec_wm_driver(nodes_view(nodes@), hyprland_session) == Ok::<
                    Seq<char>,
                    Seq<char>,
                >(c.driver@),
                Err(e) => spec_wm_driver(nodes_view(nodes@), hyprland_session) == Err::<
                    Seq<char>,
                    Seq<char>,
                >(e@),
            },
    {
        let k = match find_feature_index(nodes, "wm") {
            None => {
                return Err(to_string("Секция feature \"wm\" не найдена"));
            },
            Some(k) => k,
        };
        assert(nodes_view(nodes@)[k as int] == nodes@[k as int]@);
        let children = node_children(&nodes[k]);
        let ghost cv = nodes_view(children@);
        let mut driver: Option<String> = None;
        let mut i: usize = 0;
        while i < children.len()
            invariant
                cv == nodes_view(children@),
                cv.len() == children@.len(),
                i <= cv.len(),
                wm_driver_from(cv, 0, None) == wm_driver_from(cv, i as int, opt_view(driver)),
            decreases cv.len() - i,
        {
            let c = &children[i];
            assert(cv[i as int] == c@);
            if str_eq(c.name.as_str(), "driver") {
                driver = node_str_arg(c, 0);
            }
            i = i + 1;
        }
        let drv = match driver {
            Some(d) => d,
            None => if hyprland_session {
                to_string("hyprland")
            } else {
                to_string("bspwm")
            },
        };
        Ok(WmConfig { driver: drv })
    }

    /// The window-manager settings of the document's `feature "wm"` section.
    pub fn parse_from_root_doc(doc: &kdl::KdlDocument, hyprland_session: bool) -> (r: Result<
        Self,
        String,
    >)
        ensures
            match r {
                Ok(c) => spec_wm_driver(kdl_document_nodes(*doc), hyprland_session) == Ok::<
                    Seq<char>,
                    Seq<char>,
                >(c.driver@),
                Err(e) => spec_wm_driver(kdl_document_nodes(*doc), hyprland_session) == Err::<
                    Seq<char>,
                    Seq<char>,
                >(e@),
            },
    {
        let nodes = document_nodes(doc);
        Self::parse_from_nodes(&nodes, hyprland_session)
    }
}

/// The drivers that the feature can run.
#[derive(Debug, Clone, Copy, PartialEq, Eq, Structural)]
pub enum WmDriver {
    Bspwm,
}

/// The driver that a configured name selects, or why none can run.
pub open spec fn spec_driver_choice(name: Seq<char>) -> Result<WmDriver, Seq<char>> {
    if name == "bspwm"@ {
        Ok(WmDriver::Bspwm)
    } else if name == "hyprland"@ {
        Err("Драйвер hyprland ещё не реализован"@)
    } else {
        Err("Неподдерживаемый драйвер оконного менеджера: "@ + name)
    }
}

/// The window-manager feature.
pub struct WmFeature;

impl WmFeature {
    /// The driver to start for the configured driver name.
    pub fn driver_choice(config: &WmConfig) -> (r: Result<WmDriver, String>)
        ensures
            match r {
                Ok(d) => spec_driver_choice(config.driver@) == Ok::<WmDriver, Seq<char>>(d),
                Err(e) => spec_driver_choice(config.driver@) == Err::<WmDriver, Seq<char>>(e@),
            },
    {
        if str_eq(config.driver.as_str(), "bspwm") {
            Ok(WmDriver::Bspwm)
        } else if str_eq(config.driver.as_str(), "hyprland") {
            Err(to_string("Драйвер hyprland ещё не реализован"))
        } else {
            Err(crate::text::join2("Неподдерживаемый драйвер оконного менеджера: ", config.driver.as_str()))
        }
    }
}

/// The running window manager, once one has been registered: the first
/// registration holds, later ones are ignored.
pub struct WmRegistry<W> {
    active: Option<W>,
}

impl<W> WmRegistry<W> {
    /// The window manager registered, if any.
    pub closed spec fn active(&self) -> Option<W> {
        self.active
    }

    /// A registry with no window manager.
    pub fn new() -> (r: Self)
        ensures
            r.active() is None,
    {
        WmRegistry { active: None }
    }
}

/// The registered window manager after a registration of `wm`.
pub open spec fn after_register<W>(active: Option<W>, wm: W) -> Option<W> {
    match active {
        Some(w) => Some(w),
        None => Some(wm),
    }
}

/// Registers `wm` as the running window manager, unless one already is.
pub fn register_wm<W>(registry: &mut WmRegistry<W>, wm: W)
    ensures
        final(registry).active() == after_register(old(registry).active(), wm),
{
    if registry.active.is_none() {
        registry.active = Some(wm);
    }
}

/// The running window manager, if one has been registered.
pub fn get_wm<W>(registry: &WmRegistry<W>) -> (r: Option<&W>)
    ensures
        match registry.active() {
            Some(w) => r == Some(&w),
            None => r is None,
        },
{
    match &registry.active {
        Some(w) => Some(w),
        None => None,
    }
}

/// Once a window manager is registered, a later registration changes
/// nothing: of any registrations on an empty registry, the first holds.
pub proof fn law_first_registration_holds<W>(active: Option<W>, a: W, b: W)
    ensures
        active is Some ==> after_register(active, b) == active,
        active is None ==> after_register(after_register(active, a), b) == Some(a),
{
}

/// The registered window manager after registrations of `regs`, in order,
/// on an empty registry.
pub open spec fn registered_after<W>(regs: Seq<W>) -> Option<W>
    decreases regs.len(),
{
    if regs.len() == 0 {
        None
    } else {
        after_register(registered_after(regs.drop_last()), regs.last())
    }
}

/// Before any registration there is no window manager; after any number of
/// registrations, the registered one is the first, whatever came later.
pub proof fn law_first_of_many_registrations_holds<W>(regs: Seq<W>)
    ensures
        regs.len() == 0 ==> registered_after(regs) is None,
        regs.len() > 0 ==> registered_after(regs) == Some(regs[0]),
    decreases regs.len(),
{
    if regs.len() > 0 {
        law_first_of_many_registrations_holds(regs.drop_last());
        if regs.len() > 1 {
            assert(regs.drop_last()[0] == regs[0]);
        } else {
            assert(regs.drop_last().len() == 0);
        }
    }
}

} // verus!
