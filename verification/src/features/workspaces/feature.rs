//! The workspaces feature's own logic: the desktop that holds a workspace
//! on a monitor, the desktops made at start, and what a focus request asks.

use vstd::prelude::*;
use crate::text::{join3, str_eq};
use crate::base::event_bus::{SystemEvent, opt_string_view, clone_opt_string};
use crate::features::workspaces::config::{WorkspaceConfig, WorkspacesConfig, WorkspaceView, workspaces_view};

verus! {

/// The workspaces feature.
pub struct WorkspacesFeature;

/// The desktop that holds workspace `ws` on monitor `monitor`: `<monitor>_<ws>`.
pub open spec fn desktop_name_of(monitor: Seq<char>, ws: Seq<char>) -> Seq<char> {
    monitor + "_"@ + ws
}

/// The desktops to make at start: for each monitor in order, the desktop of
/// each workspace in order, with its monitor.
pub open spec fn initial_desktops_of(monitors: Seq<Seq<char>>, ws: Seq<WorkspaceView>) -> Seq<(Seq<char>, Seq<char>)> {
    Seq::new(
        monitors.len() * ws.len(),
        |k: int| (monitors[k / (ws.len() as int)], desktop_name_of(monitors[k / (ws.len() as int)], ws[k % (ws.len() as int)].id)),
    )
}

/// The index of the first workspace named `id`.
pub open spec fn find_workspace(ws: Seq<WorkspaceView>, id: Seq<char>) -> Option<int>
    decreases ws.len(),
{
    if ws.len() == 0 {
        None
    } else {
        match find_workspace(ws.drop_last(), id) {
            Some(k) => Some(k),
            None => if ws.last().id == id {
                Some(ws.len() - 1)
            } else {
                None
            },
        }
    }
}

pub proof fn lemma_find_workspace(ws: Seq<WorkspaceView>, id: Seq<char>)
    ensures
        match find_workspace(ws, id) {
            Some(k) => 0 <= k < ws.len() && ws[k].id == id && forall|j: int|
                0 <= j < k ==> ws[j].id != id,
            None => forall|j: int| 0 <= j < ws.len() ==> ws[j].id != id,
        },
    decreases ws.len(),
{
    if ws.len() > 0 {
        let p = ws.drop_last();
        lemma_find_workspace(p, id);
        assert(forall|j: int| 0 <= j < p.len() ==> p[j] == ws[j]);
    }
}

/// A focus request for a configured workspace: the workspace's index, and
/// the monitor the request names, if any.
#[derive(Debug, Clone)]
pub struct FocusRequest {
    pub workspace: usize,
    pub monitor_name: Option<String>,
}

/// One call to the window manager while a workspace is focused.
#[derive(Debug, Clone, PartialEq, Eq)]
pub enum WmStep {
    /// Send the window to the desktop.
    MoveWindow { window: String, desktop: String },
    /// Send new windows of the class to the desktop.
    SetSpawnRule { class: String, desktop: String },
    /// Show the desktop.
    FocusDesktop { desktop: String },
}

pub ghost enum WmStepView {
    MoveWindow { window: Seq<char>, desktop: Seq<char> },
    SetSpawnRule { class: Seq<char>, desktop: Seq<char> },
    FocusDesktop { desktop: Seq<char> },
}

impl View for WmStep {
    type V = WmStepView;

    open spec fn view(&self) -> WmStepView {
        match self {
            WmStep::MoveWindow { window, desktop } => WmStepView::MoveWindow { window: window@, desktop: desktop@ },
            WmStep::SetSpawnRule { class, desktop } => WmStepView::SetSpawnRule { class: class@, desktop: desktop@ },
            WmStep::FocusDesktop { desktop } => WmStepView::FocusDesktop { desktop: desktop@ },
        }
    }
}

/// Focusing workspace `ws` on `monitor`, where `windows` are the windows of
/// its class: each window is moved to the workspace's desktop on that
/// monitor, in order; then new windows of the class are sent there; then the
/// desktop is shown.
pub open spec fn spec_focus_plan(ws: WorkspaceView, monitor: Seq<char>, windows: Seq<Seq<char>>) -> Seq<WmStepView> {
    let d = desktop_name_of(monitor, ws.id);
    windows.map_values(|w: Seq<char>| WmStepView::MoveWindow { window: w, desktop: d }) + seq![
        WmStepView::SetSpawnRule { class: ws.class, desktop: d },
        WmStepView::FocusDesktop { desktop: d },
    ]
}

impl WorkspacesFeature {
    /// The desktop that holds workspace `ws` on monitor `monitor`.
    pub fn desktop_name(monitor: &str, ws: &str) -> (r: String)
        ensures
            r@ == desktop_name_of(monitor@, ws@),
    {
        join3(monitor, "_", ws)
    }

    /// The monitors and desktops to make sure exist at start.
    pub fn initial_desktops(monitors: &Vec<String>, config: &WorkspacesConfig) -> (r: Vec<(String, String)>)
        requires
            monitors@.len() * config.workspaces@.len() <= usize::MAX,
        ensures
            r@.map_values(|p: (String, String)| (p.0@, p.1@)) == initial_desktops_of(
                monitors@.map_values(|m: String| m@),
                workspaces_view(config.workspaces@),
            ),
    {
        let ghost mv = monitors@.map_values(|m: String| m@);
        let ghost wv = workspaces_view(config.workspaces@);
        let n = config.workspaces.len();
        let mut r: Vec<(String, String)> = Vec::new();
        let mut i: usize = 0;
        while i < monitors.len()
            invariant
                mv == monitors@.map_values(|m: String| m@),
                wv == workspaces_view(config.workspaces@),
                n == wv.len(),
                n == config.workspaces@.len(),
                mv.len() * n <= usize::MAX,
                i <= mv.len(),
                r@.len() == i * n,
                forall|k: int| 0 <= k < r@.len() ==> (#[trigger] r@[k].0@, r@[k].1@) == initial_desktops_of(mv, wv)[k],
            decreases mv.len() - i,
        {
            let mut j: usize = 0;
            while j < config.workspaces.len()
                invariant
                    mv == monitors@.map_values(|m: String| m@),
                    wv == workspaces_view(config.workspaces@),
                    n == wv.len(),
                    n == config.workspaces@.len(),
                    mv.len() * n <= usize::MAX,
                    i < mv.len(),
                    j <= n,
                    r@.len() == i * n + j,
                    forall|k: int| 0 <= k < r@.len() ==> (#[trigger] r@[k].0@, r@[k].1@) == initial_desktops_of(mv, wv)[k],
                decreases n - j,
            {
                let m = &monitors[i];
                let w = &config.workspaces[j];
                let d = Self::desktop_name(m.as_str(), w.id.as_str());
                let ghost k = (i * n + j) as int;
                proof {
                    assert(k / (n as int) == i as int && k % (n as int) == j as int) by (nonlinear_arith)
                        requires k == i * n + j, j < n;
                    assert(k < mv.len() * n) by (nonlinear_arith)
                        requires k == i * n + j, j < n, i < mv.len();
                    assert(mv[i as int] == m@);
                    assert(wv[j as int] == w@);
                }
                r.push((m.clone(), d));
                j = j + 1;
            }
            proof {
                assert((i + 1) * n == i * n + n) by (nonlinear_arith);
            }
            i = i + 1;
        }
        assert(r@.map_values(|p: (String, String)| (p.0@, p.1@)) =~= initial_desktops_of(mv, wv));
        r
    }

    /// The workspace and monitor that a focus request asks for, where it
    /// names a configured workspace (the first of that name).
    pub fn focus_request(config: &WorkspacesConfig, e: &SystemEvent) -> (r: Option<FocusRequest>)
        ensures
            match *e {
                SystemEvent::RequestWorkspaceFocus { workspace_id, monitor_name, .. } => match find_workspace(
                    workspaces_view(config.workspaces@),
                    workspace_id@,
                ) {
                    Some(k) => r matches Some(f) && f.workspace as int == k && opt_string_view(f.monitor_name)
                        == opt_string_view(monitor_name),
                    None => r is None,
                },
                _ => r is None,
            },
    {
        match e {
            SystemEvent::RequestWorkspaceFocus { workspace_id, monitor_name, context } => {
                let ghost wv = workspaces_view(config.workspaces@);
                let mut i: usize = 0;
                while i < config.workspaces.len()
                    invariant
                        wv == workspaces_view(config.workspaces@),
                        wv.len() == config.workspaces@.len(),
                        i <= wv.len(),
                        forall|j: int| 0 <= j < i ==> wv[j].id != workspace_id@,
                        *e == (SystemEvent::RequestWorkspaceFocus {
                            workspace_id: *workspace_id,
                            monitor_name: *monitor_name,
                            context: *context,
                        }),
                    decreases wv.len() - i,
                {
                    assert(wv[i as int] == config.workspaces@[i as int]@);
                    if str_eq(config.workspaces[i].id.as_str(), workspace_id.as_str()) {
                        proof {
                            lemma_find_workspace(wv, workspace_id@);
                            if find_workspace(wv, workspace_id@) != Some(i as int) {
                                let k = find_workspace(wv, workspace_id@)->0;
                                assert(k < i || k > i);
                            }
                        }
                        return Some(FocusRequest { workspace: i, monitor_name: clone_opt_string(monitor_name) });
                    }
                    i = i + 1;
                }
                proof {
                    lemma_find_workspace(wv, workspace_id@);
                }
                None
            },
            _ => None,
        }
    }

    /// The calls that focus workspace `ws` on `monitor`, given the windows
    /// of its class.
    pub fn focus_plan(ws: &WorkspaceConfig, monitor: &str, windows: &Vec<String>) -> (r: Vec<WmStep>)
        ensures
            r@.map_values(|s: WmStep| s@) == spec_focus_plan(ws@, monitor@, windows@.map_values(|w: String| w@)),
    {
        let d = Self::desktop_name(monitor, ws.id.as_str());
        let ghost wv = windows@.map_values(|w: String| w@);
        let ghost dv = d@;
        let ghost moves = wv.map_values(|w: Seq<char>| WmStepView::MoveWindow { window: w, desktop: dv });
        let mut r: Vec<WmStep> = Vec::new();
        let mut i: usize = 0;
        while i < windows.len()
            invariant
                i <= windows@.len(),
                wv == windows@.map_values(|w: String| w@),
                dv == d@,
                moves == wv.map_values(|w: Seq<char>| WmStepView::MoveWindow { window: w, desktop: dv }),
                r@.map_values(|s: WmStep| s@) == moves.take(i as int),
            decreases windows@.len() - i,
        {
            let ghost before = r@.map_values(|s: WmStep| s@);
            r.push(WmStep::MoveWindow { window: windows[i].clone(), desktop: d.clone() });
            assert(r@.map_values(|s: WmStep| s@) =~= before.push(moves[i as int]));
            assert(moves.take(i + 1) =~= moves.take(i as int).push(moves[i as int]));
            i = i + 1;
        }
        assert(moves.take(windows@.len() as int) =~= moves);
        r.push(WmStep::SetSpawnRule { class: ws.class.clone(), desktop: d.clone() });
        r.push(WmStep::FocusDesktop { desktop: d });
        assert(r@.map_values(|s: WmStep| s@) =~= spec_focus_plan(ws@, monitor@, wv));
        r
    }
}

} // verus!
