//! Switching between VPN profiles: which profile is active given the
//! interfaces that are up, the commands a switch runs, and the events that
//! report it.

use vstd::prelude::*;
use vstd::string::*;
use crate::text::{join2, join3, to_string};
use crate::base::event_bus::{
    EventContext, Initiator, SystemEvent, strings_view, clone_strings, opt_string_view,
};
use crate::features::vpn::config::{VpnStateConfig, VpnStateView, states_view};

verus! {

/// Where the daemon is on the network after a switch.
#[derive(Debug, Clone)]
pub struct IpInfo {
    pub query: String,
    pub city: String,
    pub country: String,
}

/// How the switch reports the address: `IP: <query> (<city>, <country>)`.
pub open spec fn ip_info_text(query: Seq<char>, city: Seq<char>, country: Seq<char>) -> Seq<char> {
    "IP: "@ + query + " ("@ + city + ", "@ + country + ")"@
}

impl IpInfo {
    /// The text that reports this address.
    pub fn describe(&self) -> (r: String)
        ensures
            r@ == ip_info_text(self.query@, self.city@, self.country@),
    {
        let mut r = join3("IP: ", self.query.as_str(), " (");
        r.append(self.city.as_str());
        r.append(", ");
        r.append(self.country.as_str());
        r.append(")");
        r
    }
}

/// One step of a switch: run `cmd` if the network interface `interface` is
/// up (`when_up`) or down (`!when_up`) at that moment.
#[derive(Debug, Clone)]
pub struct SwitchStep {
    pub interface: String,
    pub when_up: bool,
    pub cmd: Vec<String>,
}

pub ghost struct SwitchStepView {
    pub interface: Seq<char>,
    pub when_up: bool,
    pub cmd: Seq<Seq<char>>,
}

impl View for SwitchStep {
    type V = SwitchStepView;

    open spec fn view(&self) -> SwitchStepView {
        SwitchStepView { interface: self.interface@, when_up: self.when_up, cmd: strings_view(self.cmd@) }
    }
}

impl SwitchStep {
    /// Whether the step runs, given whether its interface is up now.
    pub fn should_run(&self, interface_up: bool) -> (r: bool)
        ensures
            r == (interface_up == self.when_up),
    {
        interface_up == self.when_up
    }
}

pub open spec fn steps_view(v: Seq<SwitchStep>) -> Seq<SwitchStepView> {
    v.map_values(|s: SwitchStep| s@)
}

/// The steps that take down every other profile's interface that is up.
pub open spec fn down_steps_from(states: Seq<VpnStateView>, target: int, i: int) -> Seq<SwitchStepView>
    decreases states.len() - i,
{
    if i < 0 || i >= states.len() {
        Seq::empty()
    } else {
        let rest = down_steps_from(states, target, i + 1);
        if i != target && states[i].interface is Some && states[i].down_cmd.len() > 0 {
            seq![SwitchStepView { interface: states[i].interface->0, when_up: true, cmd: states[i].down_cmd }]
                + rest
        } else {
            rest
        }
    }
}

/// A switch to the profile at `target`: take down the other profiles'
/// interfaces that are up, in order, then bring the target's interface up
/// if it is down.
pub open spec fn spec_switch_plan(states: Seq<VpnStateView>, target: int) -> Seq<SwitchStepView> {
    let downs = down_steps_from(states, target, 0);
    match states[target].interface {
        Some(itf) => if states[target].up_cmd.len() > 0 {
            downs + seq![SwitchStepView { interface: itf, when_up: false, cmd: states[target].up_cmd }]
        } else {
            downs
        },
        None => downs,
    }
}

/// The index of the active profile given which interfaces are up
/// (`up[k]` for the profile at `k`): the first profile with an interface
/// that is up, else the first profile without an interface.
pub open spec fn spec_detect(states: Seq<VpnStateView>, up: Seq<bool>) -> Option<int> {
    match first_up(states, up, 0) {
        Some(k) => Some(k),
        None => first_without_interface(states, 0),
    }
}

pub open spec fn first_up(states: Seq<VpnStateView>, up: Seq<bool>, i: int) -> Option<int>
    decreases states.len() - i,
{
    if i < 0 || i >= states.len() {
        None
    } else if states[i].interface is Some && i < up.len() && up[i] {
        Some(i)
    } else {
        first_up(states, up, i + 1)
    }
}

pub open spec fn first_without_interface(states: Seq<VpnStateView>, i: int) -> Option<int>
    decreases states.len() - i,
{
    if i < 0 || i >= states.len() {
        None
    } else if states[i].interface is None {
        Some(i)
    } else {
        first_without_interface(states, i + 1)
    }
}

/// The interfaces that are up after a step, where each command does what
/// it is for: a step runs when its interface is in the state it expects,
/// and then takes the interface down (`when_up`) or brings it up.
pub open spec fn step_effect(up: Set<Seq<char>>, s: SwitchStepView) -> Set<Seq<char>> {
    if up.contains(s.interface) == s.when_up {
        if s.when_up {
            up.remove(s.interface)
        } else {
            up.insert(s.interface)
        }
    } else {
        up
    }
}

/// The interfaces that are up after the steps, run in order.
pub open spec fn run_steps(up: Set<Seq<char>>, steps: Seq<SwitchStepView>) -> Set<Seq<char>>
    decreases steps.len(),
{
    if steps.len() == 0 {
        up
    } else {
        run_steps(step_effect(up, steps[0]), steps.drop_first())
    }
}

/// For each profile, whether its interface is among those up.
pub open spec fn up_flags(states: Seq<VpnStateView>, up: Set<Seq<char>>) -> Seq<bool> {
    Seq::new(
        states.len(),
        |j: int| states[j].interface matches Some(i) && up.contains(i),
    )
}

pub proof fn lemma_run_steps_append(up: Set<Seq<char>>, a: Seq<SwitchStepView>, b: Seq<SwitchStepView>)
    ensures
        run_steps(up, a + b) == run_steps(run_steps(up, a), b),
    decreases a.len(),
{
    if a.len() > 0 {
        assert((a + b).drop_first() =~= a.drop_first() + b);
        lemma_run_steps_append(step_effect(up, a[0]), a.drop_first(), b);
    } else {
        assert(a + b =~= b);
    }
}

/// The down steps from profile `i` on take down every interface they name,
/// and bring none up.
pub proof fn lemma_down_steps(states: Seq<VpnStateView>, target: int, i: int, up: Set<Seq<char>>)
    requires
        0 <= i,
    ensures
        forall|x: Seq<char>|
            #[trigger] run_steps(up, down_steps_from(states, target, i)).contains(x) ==> up.contains(x),
        forall|j: int|
            #![trigger states[j]]
            i <= j < states.len() && j != target && states[j].interface is Some
                && states[j].down_cmd.len() > 0 ==> !run_steps(up, down_steps_from(states, target, i)).contains(
                states[j].interface->0,
            ),
    decreases states.len() - i,
{
    if i < states.len() {
        let rest = down_steps_from(states, target, i + 1);
        if i != target && states[i].interface is Some && states[i].down_cmd.len() > 0 {
            let st = SwitchStepView { interface: states[i].interface->0, when_up: true, cmd: states[i].down_cmd };
            let up1 = step_effect(up, st);
            assert(up1 =~= up.remove(st.interface));
            lemma_down_steps(states, target, i + 1, up1);
            assert(down_steps_from(states, target, i) == seq![st] + rest);
            assert((seq![st] + rest).drop_first() =~= rest);
            assert((seq![st] + rest)[0] == st);
            assert(run_steps(up, seq![st] + rest) == run_steps(up1, rest));
            if run_steps(up1, rest).contains(st.interface) {
                assert(up1.contains(st.interface));
                assert(false);
            }
        } else {
            lemma_down_steps(states, target, i + 1, up);
        }
    } else {
        assert(down_steps_from(states, target, i) =~= Seq::<SwitchStepView>::empty());
    }
}

pub proof fn lemma_first_up_is(states: Seq<VpnStateView>, up: Seq<bool>, i: int, k: int)
    requires
        0 <= i <= k < states.len(),
        k < up.len(),
        states[k].interface is Some && up[k],
        forall|j: int| i <= j < k ==> !(states[j].interface is Some && j < up.len() && up[j]),
    ensures
        first_up(states, up, i) == Some(k),
    decreases k - i,
{
    if i < k {
        lemma_first_up_is(states, up, i + 1, k);
    }
}

pub proof fn lemma_no_first_up(states: Seq<VpnStateView>, up: Seq<bool>, i: int)
    requires
        0 <= i,
        forall|j: int| i <= j < states.len() ==> !(states[j].interface is Some && j < up.len() && up[j]),
    ensures
        first_up(states, up, i) is None,
    decreases states.len() - i,
{
    if i < states.len() {
        lemma_no_first_up(states, up, i + 1);
    }
}

/// Where each command does what it is for, a switch to a profile makes
/// detection report that profile: to one with an interface, if the other
/// profiles with interfaces use other interfaces and can take them down;
/// to one without, if every profile with an interface can take it down,
/// and then detection reports the first profile without an interface.
pub proof fn law_switch_then_detect(states: Seq<VpnStateView>, target: int, up: Set<Seq<char>>)
    requires
        0 <= target < states.len(),
        forall|j: int|
            #![trigger states[j]]
            0 <= j < states.len() && j != target && states[j].interface is Some ==> states[j].down_cmd.len() > 0,
        states[target].interface matches Some(t) ==> states[target].up_cmd.len() > 0 && forall|j: int|
            #![trigger states[j]]
            0 <= j < states.len() && j != target && states[j].interface is Some ==> states[j].interface->0 != t,
    ensures
        ({
            let after = up_flags(states, run_steps(up, spec_switch_plan(states, target)));
            match states[target].interface {
                Some(_) => spec_detect(states, after) == Some(target),
                None => spec_detect(states, after) == first_without_interface(states, 0),
            }
        }),
{
    let downs = down_steps_from(states, target, 0);
    lemma_down_steps(states, target, 0, up);
    let mid = run_steps(up, downs);
    match states[target].interface {
        Some(t) => {
            let st = SwitchStepView { interface: t, when_up: false, cmd: states[target].up_cmd };
            lemma_run_steps_append(up, downs, seq![st]);
            assert(seq![st].drop_first() =~= Seq::<SwitchStepView>::empty());
            let fin = run_steps(mid, seq![st]);
            assert(seq![st][0] == st);
            assert(run_steps(step_effect(mid, st), Seq::<SwitchStepView>::empty()) == step_effect(mid, st));
            assert(fin == step_effect(mid, st));
            assert(fin =~= mid.insert(t));
            let after = up_flags(states, fin);
            assert forall|j: int| 0 <= j < target implies !(states[j].interface is Some && j < after.len() && after[j]) by {
                if states[j].interface is Some {
                    assert(states[j].down_cmd.len() > 0);
                    assert(states[j].interface->0 != t);
                }
            }
            lemma_first_up_is(states, after, 0, target);
        },
        None => {
            assert(spec_switch_plan(states, target) == downs);
            let after = up_flags(states, mid);
            assert forall|j: int| 0 <= j < states.len() implies !(states[j].interface is Some && j < after.len() && after[j]) by {
                if states[j].interface is Some {
                    assert(states[j].down_cmd.len() > 0);
                }
            }
            lemma_no_first_up(states, after, 0);
        },
    }
}

/// The VPN manager: detection and switch planning over the profiles.
pub struct VpnManager;

impl VpnManager {
    pub fn new() -> (r: Self) {
        VpnManager
    }

    /// The active profile given which interfaces are up.
    pub fn detect_state(&self, states: &Vec<VpnStateConfig>, up: &Vec<bool>) -> (r: Option<usize>)
        ensures
            match r {
                Some(k) => spec_detect(states_view(states@), up@) == Some(k as int) && k < states@.len(),
                None => spec_detect(states_view(states@), up@) is None,
            },
    {
        let ghost sv = states_view(states@);
        let mut i: usize = 0;
        while i < states.len()
            invariant
                sv == states_view(states@),
                sv.len() == states@.len(),
                i <= sv.len(),
                first_up(sv, up@, 0) == first_up(sv, up@, i as int),
            decreases sv.len() - i,
        {
            assert(sv[i as int] == states@[i as int]@);
            if states[i].interface.is_some() && i < up.len() && up[i] {
                return Some(i);
            }
            i = i + 1;
        }
        let mut j: usize = 0;
        while j < states.len()
            invariant
                sv == states_view(states@),
                sv.len() == states@.len(),
                j <= sv.len(),
                first_up(sv, up@, 0) is None,
                first_without_interface(sv, 0) == first_without_interface(sv, j as int),
            decreases sv.len() - j,
        {
            assert(sv[j as int] == states@[j as int]@);
            if states[j].interface.is_none() {
                return Some(j);
            }
            j = j + 1;
        }
        None
    }

    /// The steps of a switch to the profile at `target`; the switch then
    /// looks up the address if the profile has an interface.
    pub fn switch_plan(&self, states: &Vec<VpnStateConfig>, target: usize) -> (r: Vec<SwitchStep>)
        requires
            target < states@.len(),
        ensures
            steps_view(r@) == spec_switch_plan(states_view(states@), target as int),
    {
        let ghost sv = states_view(states@);
        let mut r: Vec<SwitchStep> = Vec::new();
        let mut i: usize = 0;
        assert(steps_view(r@) + down_steps_from(sv, target as int, 0) =~= down_steps_from(sv, target as int, 0));
        while i < states.len()
            invariant
                sv == states_view(states@),
                sv.len() == states@.len(),
                target < sv.len(),
                i <= sv.len(),
                down_steps_from(sv, target as int, 0) == steps_view(r@) + down_steps_from(sv, target as int, i as int),
            decreases sv.len() - i,
        {
            assert(sv[i as int] == states@[i as int]@);
            let s = &states[i];
            if i != target && s.down_cmd.len() > 0 {
                match &s.interface {
                    Some(itf) => {
                        let ghost before = steps_view(r@);
                        r.push(SwitchStep { interface: itf.clone(), when_up: true, cmd: clone_strings(&s.down_cmd) });
                        assert(steps_view(r@) =~= before.push(r@[r@.len() - 1]@));
                        assert(steps_view(r@) + down_steps_from(sv, target as int, i + 1) =~= before
                            + down_steps_from(sv, target as int, i as int));
                    },
                    None => {},
                }
            }
            i = i + 1;
        }
        assert(steps_view(r@) + down_steps_from(sv, target as int, i as int) =~= steps_view(r@));
        assert(sv[target as int] == states@[target as int]@);
        let t = &states[target];
        match &t.interface {
            Some(itf) => {
                if t.up_cmd.len() > 0 {
                    let ghost before = steps_view(r@);
                    r.push(SwitchStep { interface: itf.clone(), when_up: false, cmd: clone_strings(&t.up_cmd) });
                    assert(steps_view(r@) =~= before + seq![r@[r@.len() - 1]@]);
                }
            },
            None => {},
        }
        r
    }
}

/// The VPN feature.
pub struct VpnFeature;

impl VpnFeature {
    /// The report that a switch to `state` begins.
    pub fn transition_started(state: &VpnStateConfig, context: EventContext) -> (r: SystemEvent)
        ensures
            r matches SystemEvent::VpnTransitionStarted { state_id, display_name, has_interface, context: c }
                && state_id@ == state.id@ && display_name@ == state.display_name@ && has_interface
                == (state.interface is Some) && c == context,
    {
        SystemEvent::VpnTransitionStarted {
            state_id: state.id.clone(),
            display_name: state.display_name.clone(),
            has_interface: state.interface.is_some(),
            context,
        }
    }

    /// The report of how a switch to `state` ended: the new state with its
    /// address text, or the failure.
    pub fn switch_outcome(state: &VpnStateConfig, result: Result<Option<IpInfo>, String>, context: EventContext) -> (r: SystemEvent)
        ensures
            match result {
                Ok(ip) => r matches SystemEvent::VpnStateChanged { state_id, display_name, ip_info, context: c }
                    && state_id@ == state.id@ && display_name@ == state.display_name@ && c == context
                    && match ip {
                        Some(i) => opt_string_view(ip_info) == Some(ip_info_text(i.query@, i.city@, i.country@)),
                        None => ip_info is None,
                    },
                Err(e) => r matches SystemEvent::VpnStateTransitionFailed { state_id, display_name, error, context: c }
                    && state_id@ == state.id@ && display_name@ == state.display_name@ && error@ == e@
                    && c == context,
            },
    {
        match result {
            Ok(ip) => SystemEvent::VpnStateChanged {
                state_id: state.id.clone(),
                display_name: state.display_name.clone(),
                ip_info: match ip {
                    Some(i) => Some(i.describe()),
                    None => None,
                },
                context,
            },
            Err(e) => SystemEvent::VpnStateTransitionFailed {
                state_id: state.id.clone(),
                display_name: state.display_name.clone(),
                error: e,
                context,
            },
        }
    }

    /// The silent report of the profile found active at start-up.
    pub fn initial_report(state: &VpnStateConfig) -> (r: SystemEvent)
        ensures
            r matches SystemEvent::VpnStateChanged { state_id, display_name, ip_info, context: c }
                && state_id@ == state.id@ && display_name@ == state.display_name@ && ip_info is None
                && c == (EventContext { initiator: Initiator::Direct, silent: true }),
    {
        SystemEvent::VpnStateChanged {
            state_id: state.id.clone(),
            display_name: state.display_name.clone(),
            ip_info: None,
            context: EventContext { initiator: Initiator::Direct, silent: true },
        }
    }
}

} // verus!
