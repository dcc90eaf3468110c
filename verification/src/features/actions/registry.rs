//! The action registry and the execution of actions: an action unfolds into
//! the primitive commands it runs, nested actions included, up to a depth
//! limit.

use vstd::prelude::*;
use vstd::string::*;
use crate::text::{str_eq, join2, to_string};
use crate::base::event_bus::{
    CommandAction, CommandView, DaemonAction, EventContext, Initiator, SystemEvent, strings_view,
    opt_string_view, clone_strings, clone_opt_string,
};
use crate::features::command::commands_view;
use crate::features::actions::config::{ActionConfig, ActionsConfig, ActionView, actions_view};
use crate::notifier::Notification;

verus! {

/// Runs an external command.
#[derive(Debug, Clone)]
pub struct RunCommand {
    pub parts: Vec<String>,
}

/// Asks the VPN feature to switch profiles.
#[derive(Debug, Clone)]
pub struct VpnSwitchCommand {
    pub state_id: String,
}

/// Asks the daemon manager to act on a daemon.
#[derive(Debug, Clone)]
pub struct DaemonControlCommand {
    pub daemon_id: String,
    pub action: DaemonAction,
}

/// Runs another action.
#[derive(Debug, Clone)]
pub struct ActionReferenceCommand {
    pub action_id: String,
}

/// Asks the workspaces feature to focus a workspace.
#[derive(Debug, Clone)]
pub struct WorkspaceFocusCommand {
    pub workspace_id: String,
    pub monitor_name: Option<String>,
}

impl RunCommand {
    pub fn command(&self) -> (r: CommandAction)
        ensures
            r@ == CommandView::Run(strings_view(self.parts@)),
    {
        CommandAction::Run(clone_strings(&self.parts))
    }
}

impl VpnSwitchCommand {
    pub fn command(&self) -> (r: CommandAction)
        ensures
            r@ == CommandView::Vpn(self.state_id@),
    {
        CommandAction::Vpn(self.state_id.clone())
    }
}

impl DaemonControlCommand {
    pub fn command(&self) -> (r: CommandAction)
        ensures
            r@ == CommandView::Daemon(self.daemon_id@, self.action),
    {
        CommandAction::Daemon(self.daemon_id.clone(), self.action)
    }
}

impl ActionReferenceCommand {
    pub fn command(&self) -> (r: CommandAction)
        ensures
            r@ == CommandView::Action(self.action_id@),
    {
        CommandAction::Action(self.action_id.clone())
    }
}

impl WorkspaceFocusCommand {
    pub fn command(&self) -> (r: CommandAction)
        ensures
            r@ == CommandView::Workspace(self.workspace_id@, opt_string_view(self.monitor_name)),
    {
        CommandAction::Workspace(self.workspace_id.clone(), clone_opt_string(&self.monitor_name))
    }
}

/// A registered action.
#[derive(Debug, Clone)]
pub struct ActionExpression {
    pub id: String,
    pub export: bool,
    pub commands: Vec<CommandAction>,
}

impl View for ActionExpression {
    type V = ActionView;

    open spec fn view(&self) -> ActionView {
        ActionView { id: self.id@, export: self.export, commands: commands_view(self.commands@) }
    }
}

/// The registered actions. Where two share an id, the later one counts.
#[derive(Debug, Clone)]
pub struct ActionRegistry {
    pub actions: Vec<ActionExpression>,
}

impl View for ActionRegistry {
    type V = Seq<ActionView>;

    open spec fn view(&self) -> Seq<ActionView> {
        self.actions@.map_values(|a: ActionExpression| a@)
    }
}

/// The index of the action that `id` names: the last one registered under it.
pub open spec fn find_action(reg: Seq<ActionView>, id: Seq<char>) -> Option<int>
    decreases reg.len(),
{
    if reg.len() == 0 {
        None
    } else if reg.last().id == id {
        Some(reg.len() - 1)
    } else {
        find_action(reg.drop_last(), id)
    }
}

pub proof fn lemma_find_action_bounds(reg: Seq<ActionView>, id: Seq<char>)
    ensures
        find_action(reg, id) matches Some(k) ==> 0 <= k < reg.len() && reg[k].id == id,
    decreases reg.len(),
{
    if reg.len() > 0 && reg.last().id != id {
        lemma_find_action_bounds(reg.drop_last(), id);
    }
}

/// The actions may nest this deep; one level further is an error.
pub open spec fn max_depth() -> int {
    10
}

pub open spec fn plan_measure(depth: int) -> int {
    if depth <= 11 {
        11 - depth
    } else {
        0
    }
}

pub open spec fn depth_exceeded_msg(id: Seq<char>) -> Seq<char> {
    "Max recursion depth exceeded for action: "@ + id
}

pub open spec fn action_not_found_msg(id: Seq<char>) -> Seq<char> {
    "Action not found: "@ + id
}

/// What running action `id` at nesting `depth` does: the primitive commands
/// it runs, in order (nested actions unfolded, empty `run` commands doing
/// nothing), and the error that stops it, if any.
pub open spec fn spec_plan(reg: Seq<ActionView>, id: Seq<char>, depth: int) -> (
    Seq<CommandView>,
    Option<Seq<char>>,
)
    decreases plan_measure(depth), 1int, 0int,
{
    if depth > max_depth() {
        (Seq::empty(), Some(depth_exceeded_msg(id)))
    } else {
        match find_action(reg, id) {
            None => (Seq::empty(), Some(action_not_found_msg(id))),
            Some(k) => if 0 <= k < reg.len() {
                spec_plan_cmds(reg, reg[k].commands, 0, depth)
            } else {
                (Seq::empty(), None)
            },
        }
    }
}

/// What running `cmds` from index `i` on, inside an action at `depth`, does.
pub open spec fn spec_plan_cmds(reg: Seq<ActionView>, cmds: Seq<CommandView>, i: int, depth: int) -> (
    Seq<CommandView>,
    Option<Seq<char>>,
)
    decreases plan_measure(depth), 0int, cmds.len() - i,
{
    if depth > max_depth() || i < 0 || i >= cmds.len() {
        (Seq::empty(), None)
    } else {
        let head: (Seq<CommandView>, Option<Seq<char>>) = match cmds[i] {
            CommandView::Action(a) => spec_plan(reg, a, depth + 1),
            CommandView::Run(p) => if p.len() == 0 {
                (Seq::empty(), None)
            } else {
                (seq![cmds[i]], None)
            },
            _ => (seq![cmds[i]], None),
        };
        match head.1 {
            Some(e) => (head.0, Some(e)),
            None => {
                let rest = spec_plan_cmds(reg, cmds, i + 1, depth);
                (head.0 + rest.0, rest.1)
            },
        }
    }
}

pub open spec fn opt_str_view(o: Option<String>) -> Option<Seq<char>> {
    match o {
        Some(s) => Some(s@),
        None => None,
    }
}

/// Running `pre + more` from inside `more` is running `more` alone.
proof fn lemma_plan_cmds_shift(
    reg: Seq<ActionView>,
    pre: Seq<CommandView>,
    more: Seq<CommandView>,
    j: int,
    depth: int,
)
    requires
        0 <= j,
    ensures
        spec_plan_cmds(reg, pre + more, pre.len() + j, depth) == spec_plan_cmds(reg, more, j, depth),
    decreases more.len() - j,
{
    if j < more.len() {
        assert((pre + more)[pre.len() + j] == more[j]);
        lemma_plan_cmds_shift(reg, pre, more, j + 1, depth);
    }
}

/// Running `cmds + more` from index `i` of `cmds`: where the rest of `cmds`
/// fails, exactly what `cmds` alone does; else the commands of `cmds`, then
/// what `more` does.
proof fn lemma_plan_cmds_append(
    reg: Seq<ActionView>,
    cmds: Seq<CommandView>,
    more: Seq<CommandView>,
    i: int,
    depth: int,
)
    requires
        0 <= i <= cmds.len(),
    ensures
        spec_plan_cmds(reg, cmds, i, depth).1 is Some ==> spec_plan_cmds(reg, cmds + more, i, depth)
            == spec_plan_cmds(reg, cmds, i, depth),
        spec_plan_cmds(reg, cmds, i, depth).1 is None ==> spec_plan_cmds(reg, cmds + more, i, depth)
            == (spec_plan_cmds(reg, cmds, i, depth).0 + spec_plan_cmds(reg, more, 0, depth).0,
            spec_plan_cmds(reg, more, 0, depth).1),
    decreases cmds.len() - i,
{
    if i == cmds.len() {
        lemma_plan_cmds_shift(reg, cmds, more, 0, depth);
        assert(Seq::<CommandView>::empty() + spec_plan_cmds(reg, more, 0, depth).0
            =~= spec_plan_cmds(reg, more, 0, depth).0);
    } else {
        assert((cmds + more)[i] == cmds[i]);
        lemma_plan_cmds_append(reg, cmds, more, i + 1, depth);
        if depth <= max_depth() {
            let head: (Seq<CommandView>, Option<Seq<char>>) = match cmds[i] {
                CommandView::Action(a) => spec_plan(reg, a, depth + 1),
                CommandView::Run(p) => if p.len() == 0 {
                    (Seq::empty(), None)
                } else {
                    (seq![cmds[i]], None)
                },
                _ => (seq![cmds[i]], None),
            };
            if head.1 is None {
                let rest = spec_plan_cmds(reg, cmds, i + 1, depth);
                let tail = spec_plan_cmds(reg, more, 0, depth);
                assert(head.0 + (rest.0 + tail.0) =~= (head.0 + rest.0) + tail.0);
            }
        } else {
            assert(Seq::<CommandView>::empty() + spec_plan_cmds(reg, more, 0, depth).0
                =~= spec_plan_cmds(reg, more, 0, depth).0);
        }
    }
}

/// Commands run in order and a failure stops them: where running `cmds`
/// fails, running `cmds` followed by any further commands plans the same
/// commands and reports the same error, so nothing after the failing
/// command runs; where `cmds` succeeds, the further commands run after it,
/// and their outcome is the outcome of the whole.
pub proof fn law_failure_stops_the_rest(
    reg: Seq<ActionView>,
    cmds: Seq<CommandView>,
    more: Seq<CommandView>,
    depth: int,
)
    ensures
        spec_plan_cmds(reg, cmds, 0, depth).1 is Some ==> spec_plan_cmds(reg, cmds + more, 0, depth)
            == spec_plan_cmds(reg, cmds, 0, depth),
        spec_plan_cmds(reg, cmds, 0, depth).1 is None ==> spec_plan_cmds(reg, cmds + more, 0, depth)
            == (spec_plan_cmds(reg, cmds, 0, depth).0 + spec_plan_cmds(reg, more, 0, depth).0,
            spec_plan_cmds(reg, more, 0, depth).1),
{
    lemma_plan_cmds_append(reg, cmds, more, 0, depth);
}

/// A single command plans as follows: a `run` with no parts does nothing;
/// a command that names an action runs what that action runs one level
/// deeper; any other command is planned as itself and does not fail. Past
/// the depth limit nothing is planned.
pub proof fn law_single_command(reg: Seq<ActionView>, c: CommandView, depth: int)
    ensures
        depth > max_depth() ==> spec_plan_cmds(reg, seq![c], 0, depth) == (
            Seq::<CommandView>::empty(),
            None::<Seq<char>>,
        ),
        depth <= max_depth() ==> spec_plan_cmds(reg, seq![c], 0, depth) == match c {
            CommandView::Action(a) => spec_plan(reg, a, depth + 1),
            CommandView::Run(p) => if p.len() == 0 {
                (Seq::<CommandView>::empty(), None::<Seq<char>>)
            } else {
                (seq![c], None::<Seq<char>>)
            },
            _ => (seq![c], None::<Seq<char>>),
        },
{
    let one = seq![c];
    assert(one[0] == c);
    assert(spec_plan_cmds(reg, one, 1, depth) == (Seq::<CommandView>::empty(), None::<Seq<char>>));
    assert(Seq::<CommandView>::empty() + Seq::<CommandView>::empty() =~= Seq::<CommandView>::empty());
    assert(seq![c] + Seq::<CommandView>::empty() =~= seq![c]);
    match c {
        CommandView::Action(a) => {
            let h = spec_plan(reg, a, depth + 1);
            assert(h.0 + Seq::<CommandView>::empty() =~= h.0);
        },
        _ => {},
    }
}

/// Running an action: past the depth limit it fails with the depth error;
/// an id that names no action fails with "Action not found"; otherwise it
/// runs the commands of the last action registered under that id.
pub proof fn law_action_runs_its_commands(reg: Seq<ActionView>, id: Seq<char>, depth: int)
    ensures
        depth > max_depth() ==> spec_plan(reg, id, depth) == (
            Seq::<CommandView>::empty(),
            Some(depth_exceeded_msg(id)),
        ),
        depth <= max_depth() && (forall|k: int| 0 <= k < reg.len() ==> reg[k].id != id)
            ==> spec_plan(reg, id, depth) == (
            Seq::<CommandView>::empty(),
            Some(action_not_found_msg(id)),
        ),
        forall|k: int|
            0 <= k < reg.len() && reg[k].id == id && (forall|j: int|
                k < j < reg.len() ==> reg[j].id != id) ==> depth <= max_depth() ==> spec_plan(
                reg,
                id,
                depth,
            ) == spec_plan_cmds(reg, reg[k].commands, 0, depth),
{
    lemma_find_action_last(reg, id);
}

proof fn lemma_find_action_last(reg: Seq<ActionView>, id: Seq<char>)
    ensures
        (forall|k: int| 0 <= k < reg.len() ==> reg[k].id != id) ==> find_action(reg, id) is None,
        forall|k: int|
            0 <= k < reg.len() && reg[k].id == id && (forall|j: int|
                k < j < reg.len() ==> reg[j].id != id) ==> find_action(reg, id) == Some(k),
    decreases reg.len(),
{
    if reg.len() > 0 {
        lemma_find_action_last(reg.drop_last(), id);
        assert forall|k: int|
            0 <= k < reg.len() && reg[k].id == id && (forall|j: int|
                k < j < reg.len() ==> reg[j].id != id) implies find_action(reg, id) == Some(k) by {
            if k < reg.len() - 1 {
                assert(reg[reg.len() - 1].id != id);
                assert forall|j: int| k < j < reg.drop_last().len() implies reg.drop_last()[j].id
                    != id by {
                    assert(reg.drop_last()[j] == reg[j]);
                }
                assert(reg.drop_last()[k] == reg[k]);
            }
        }
        if forall|k: int| 0 <= k < reg.len() ==> reg[k].id != id {
            assert forall|k: int| 0 <= k < reg.drop_last().len() implies reg.drop_last()[k].id
                != id by {
                assert(reg.drop_last()[k] == reg[k]);
            }
            assert(reg.last() == reg[reg.len() - 1]);
        }
    }
}

/// A command that names a missing action fails with "Action not found" and
/// plans nothing, and the commands after it are not run: an action whose
/// commands start with it plans nothing at all and reports that error.
pub proof fn law_missing_action_stops_the_action(
    reg: Seq<ActionView>,
    missing: Seq<char>,
    more: Seq<CommandView>,
    depth: int,
)
    requires
        0 <= depth < max_depth(),
        find_action(reg, missing) is None,
    ensures
        spec_plan_cmds(reg, seq![CommandView::Action(missing)] + more, 0, depth) == (
            Seq::<CommandView>::empty(),
            Some(action_not_found_msg(missing)),
        ),
{
    let first = seq![CommandView::Action(missing)];
    lemma_plan_cmds_append(reg, first, more, 0, depth);
    assert(first[0] == CommandView::Action(missing));
    assert(spec_plan(reg, missing, depth + 1) == (
        Seq::<CommandView>::empty(),
        Some(action_not_found_msg(missing)),
    ));
    assert(spec_plan_cmds(reg, first, 0, depth) == (
        Seq::<CommandView>::empty(),
        Some(action_not_found_msg(missing)),
    ));
    assert(spec_plan_cmds(reg, first, 1, depth) == (
        Seq::<CommandView>::empty(),
        None::<Seq<char>>,
    ));
}

/// An action whose first command runs the action itself stops, at every
/// nesting depth, with the depth-limit error: the recursion always ends.
pub proof fn law_self_reference_stops(reg: Seq<ActionView>, id: Seq<char>, depth: int)
    requires
        0 <= depth,
        find_action(reg, id) matches Some(k) && 0 <= k < reg.len() && reg[k].commands.len() > 0
            && reg[k].commands[0] == CommandView::Action(id),
    ensures
        spec_plan(reg, id, depth).1 == Some(depth_exceeded_msg(id)),
    decreases plan_measure(depth),
{
    if depth <= max_depth() {
        law_self_reference_stops(reg, id, depth + 1);
    }
}

impl ActionRegistry {
    /// A registry of the configured actions, in order.
    pub fn new(config: ActionsConfig) -> (r: Self)
        ensures
            r@ == actions_view(config.actions@),
    {
        let mut actions: Vec<ActionExpression> = Vec::new();
        let ghost src = actions_view(config.actions@);
        let mut i: usize = 0;
        while i < config.actions.len()
            invariant
                src == actions_view(config.actions@),
                i <= config.actions@.len(),
                actions@.len() == i,
                forall|k: int| 0 <= k < i ==> #[trigger] actions@[k]@ == src[k],
            decreases config.actions@.len() - i,
        {
            let a = &config.actions[i];
            let mut cmds: Vec<CommandAction> = Vec::new();
            let mut j: usize = 0;
            while j < a.commands.len()
                invariant
                    j <= a.commands@.len(),
                    cmds@.len() == j,
                    forall|k: int| 0 <= k < j ==> #[trigger] cmds@[k]@ == a.commands@[k]@,
                decreases a.commands@.len() - j,
            {
                cmds.push(a.commands[j].duplicate());
                j = j + 1;
            }
            assert(commands_view(cmds@) =~= commands_view(a.commands@));
            actions.push(ActionExpression { id: a.id.clone(), export: a.export, commands: cmds });
            i = i + 1;
        }
        let r = ActionRegistry { actions };
        assert(r@ =~= src);
        r
    }

    /// The index of the action registered under `id`, the last one if several.
    pub fn find(&self, id: &str) -> (r: Option<usize>)
        ensures
            match r {
                Some(k) => find_action(self@, id@) == Some(k as int) && k < self.actions@.len(),
                None => find_action(self@, id@) is None,
            },
    {
        let mut j: usize = self.actions.len();
        assert(self@.subrange(0, j as int) =~= self@);
        while j > 0
            invariant
                j <= self.actions@.len(),
                find_action(self@, id@) == find_action(self@.subrange(0, j as int), id@),
            decreases j,
        {
            let ghost pre = self@.subrange(0, j as int);
            assert(pre.last() == self.actions@[j - 1]@);
            if str_eq(self.actions[j - 1].id.as_str(), id) {
                return Some(j - 1);
            }
            assert(pre.drop_last() =~= self@.subrange(0, j - 1));
            j = j - 1;
        }
        None
    }

    /// Appends to `out` the primitive commands that running action `id` at
    /// nesting `depth` runs; returns the error that stops it, if any.
    pub fn plan_into(&self, id: &str, depth: usize, out: &mut Vec<CommandAction>) -> (r: Option<
        String,
    >)
        ensures
            commands_view(final(out)@) == commands_view(old(out)@) + spec_plan(
                self@,
                id@,
                depth as int,
            ).0,
            opt_str_view(r) == spec_plan(self@, id@, depth as int).1,
        decreases plan_measure(depth as int), 1int, 0int,
    {
        if depth > 10 {
            assert(commands_view(out@) + Seq::<CommandView>::empty() =~= commands_view(out@));
            return Some(join2("Max recursion depth exceeded for action: ", id));
        }
        match self.find(id) {
            None => {
                assert(commands_view(out@) + Seq::<CommandView>::empty() =~= commands_view(out@));
                Some(join2("Action not found: ", id))
            },
            Some(k) => {
                assert(self@[k as int] == self.actions@[k as int]@);
                self.plan_cmds_into(&self.actions[k].commands, depth, out)
            },
        }
    }

    /// Appends to `out` the primitive commands that running `cmds` inside an
    /// action at nesting `depth` runs; returns the error that stops it.
    pub fn plan_cmds_into(&self, cmds: &Vec<CommandAction>, depth: usize, out: &mut Vec<CommandAction>) -> (r: Option<String>)
        requires
            depth <= 10,
        ensures
            commands_view(final(out)@) == commands_view(old(out)@) + spec_plan_cmds(
                self@,
                commands_view(cmds@),
                0,
                depth as int,
            ).0,
            opt_str_view(r) == spec_plan_cmds(self@, commands_view(cmds@), 0, depth as int).1,
        decreases plan_measure(depth as int), 0int, 0int,
    {
        let ghost cv = commands_view(cmds@);
        let ghost start = commands_view(out@);
        let mut i: usize = 0;
        assert(commands_view(out@) == start + Seq::<CommandView>::empty());
        assert(spec_plan_cmds(self@, cv, 0, depth as int).0 == Seq::<CommandView>::empty()
            + spec_plan_cmds(self@, cv, 0, depth as int).0);
        while i < cmds.len()
            invariant
                cv == commands_view(cmds@),
                cv.len() == cmds@.len(),
                start == commands_view(old(out)@),
                depth <= 10,
                i <= cv.len(),
                ({
                    let whole = spec_plan_cmds(self@, cv, 0, depth as int);
                    let rest = spec_plan_cmds(self@, cv, i as int, depth as int);
                    &&& whole.1 == rest.1
                    &&& exists|pre: Seq<CommandView>|
                        commands_view(out@) == start + pre && whole.0 == pre + rest.0
                }),
            decreases cv.len() - i,
        {
            let ghost before = commands_view(out@);
            let ghost rest_next = spec_plan_cmds(self@, cv, i + 1, depth as int);
            let ghost pre = choose|pre: Seq<CommandView>|
                commands_view(out@) == start + pre && spec_plan_cmds(
                    self@,
                    cv,
                    0,
                    depth as int,
                ).0 == pre + spec_plan_cmds(self@, cv, i as int, depth as int).0;
            assert(cv[i as int] == cmds@[i as int]@);
            match &cmds[i] {
                CommandAction::Action(a) => {
                    let e = self.plan_into(a.as_str(), depth + 1, out);
                    let ghost head = spec_plan(self@, a@, depth + 1);
                    match e {
                        Some(err) => {
                            assert(commands_view(out@) == start + (pre + head.0));
                            assert(spec_plan_cmds(self@, cv, i as int, depth as int) == (
                                head.0,
                                Some(err@),
                            ));
                            return Some(err);
                        },
                        None => {
                            assert(commands_view(out@) == start + (pre + head.0));
                            assert(spec_plan_cmds(self@, cv, 0, depth as int).0 == (pre + head.0)
                                + rest_next.0);
                        },
                    }
                },
                CommandAction::Run(p) => {
                    if p.len() != 0 {
                        out.push(cmds[i].duplicate());
                        assert(commands_view(out@) =~= before + seq![cv[i as int]]);
                        assert(commands_view(out@) == start + (pre + seq![cv[i as int]]));
                    } else {
                        assert(strings_view(p@).len() == 0);
                        assert(pre + Seq::<CommandView>::empty() =~= pre);
                    }
                },
                _ => {
                    out.push(cmds[i].duplicate());
                    assert(commands_view(out@) =~= before + seq![cv[i as int]]);
                    assert(commands_view(out@) == start + (pre + seq![cv[i as int]]));
                },
            }
            i = i + 1;
        }
        assert(commands_view(out@) == start + spec_plan_cmds(self@, cv, 0, depth as int).0) by {
            let pre = choose|pre: Seq<CommandView>|
                commands_view(out@) == start + pre && spec_plan_cmds(
                    self@,
                    cv,
                    0,
                    depth as int,
                ).0 == pre + spec_plan_cmds(self@, cv, i as int, depth as int).0;
            assert(pre + Seq::<CommandView>::empty() =~= pre);
        }
        None
    }
}

} // verus!
