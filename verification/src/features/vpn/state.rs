//! The VPN feature's state machine: which profile is active, whether a
//! switch is under way, and when each profile was last requested.

use vstd::prelude::*;
use crate::text::{str_eq, to_string, join3};
use crate::base::event_bus::{EventContext, Initiator, SystemEvent, opt_string_view};
use crate::features::vpn::config::{VpnConfig, VpnStateConfig, VpnStateView, states_view};

verus! {

/// The state of the VPN as the feature sees it.
pub trait VpnState {
    fn state_id(&self) -> &str;

    fn display_name(&self) -> &str;

    /// Whether a switch is under way; a state that does not say otherwise
    /// is not transitioning.
    fn is_transitioning(&self) -> (r: bool)
        default_ensures
            !r,
    {
        false
    }
}

/// No VPN profile is active.
pub struct Disconnected;

/// The profile `id` is active.
pub struct Connected {
    pub id: String,
    pub display_name: String,
}

/// A switch to the profile `target_id` is under way.
pub struct Transitioning {
    pub target_id: String,
    pub display_name: String,
}

impl VpnState for Disconnected {
    fn state_id(&self) -> (r: &str)
        ensures
            r@ == "off"@,
    {
        "off"
    }

    fn display_name(&self) -> (r: &str)
        ensures
            r@ == "VPN выключен"@,
    {
        "VPN выключен"
    }
}

impl VpnState for Connected {
    fn state_id(&self) -> (r: &str)
        ensures
            r@ == self.id@,
    {
        self.id.as_str()
    }

    fn display_name(&self) -> (r: &str)
        ensures
            r@ == self.display_name@,
    {
        self.display_name.as_str()
    }
}

impl VpnState for Transitioning {
    fn state_id(&self) -> (r: &str)
        ensures
            r@ == self.target_id@,
    {
        self.target_id.as_str()
    }

    fn display_name(&self) -> (r: &str)
        ensures
            r@ == self.display_name@,
    {
        self.display_name.as_str()
    }

    fn is_transitioning(&self) -> (r: bool)
        ensures
            r,
    {
        true
    }
}

/// The phase of the VPN feature.
#[derive(Debug, Clone)]
pub enum VpnPhase {
    Disconnected,
    Connected { id: String, display_name: String },
    Transitioning { target_id: String, display_name: String },
}

pub ghost enum PhaseView {
    Disconnected,
    Connected { id: Seq<char>, display_name: Seq<char> },
    Transitioning { target_id: Seq<char>, display_name: Seq<char> },
}

impl View for VpnPhase {
    type V = PhaseView;

    open spec fn view(&self) -> PhaseView {
        match self {
            VpnPhase::Disconnected => PhaseView::Disconnected,
            VpnPhase::Connected { id, display_name } => PhaseView::Connected {
                id: id@,
                display_name: display_name@,
            },
            VpnPhase::Transitioning { target_id, display_name } => PhaseView::Transitioning {
                target_id: target_id@,
                display_name: display_name@,
            },
        }
    }
}

/// Requests for one profile closer together than this many milliseconds
/// are ignored.
pub open spec fn throttle_ms() -> u64 {
    1000
}

/// The VPN feature's state: its profiles, its phase, and for each profile
/// the time (in milliseconds) it was last requested.
pub struct VpnApp {
    pub config: VpnConfig,
    pub state: VpnPhase,
    pub last_triggers: Vec<Option<u64>>,
}

pub ghost struct VpnAppView {
    pub states: Seq<VpnStateView>,
    pub phase: PhaseView,
    pub last: Seq<Option<u64>>,
}

impl View for VpnApp {
    type V = VpnAppView;

    open spec fn view(&self) -> VpnAppView {
        VpnAppView {
            states: states_view(self.config.states@),
            phase: self.state@,
            last: self.last_triggers@,
        }
    }
}

/// What the VPN feature asks its runner to do after an event.
#[derive(Debug)]
pub enum VpnCommand {
    /// Nothing.
    Nothing,
    /// Switch to the profile at `index`, reporting with `context`.
    Switch { index: usize, context: EventContext },
    /// Find out which profile is active, and report it with `detected`.
    Redetect,
}

/// The index of the first profile named `id`.
pub open spec fn find_state(states: Seq<VpnStateView>, id: Seq<char>) -> Option<int>
    decreases states.len(),
{
    if states.len() == 0 {
        None
    } else {
        match find_state(states.drop_last(), id) {
            Some(k) => Some(k),
            None => if states.last().id == id {
                Some(states.len() - 1)
            } else {
                None
            },
        }
    }
}

pub proof fn lemma_find_state(states: Seq<VpnStateView>, id: Seq<char>)
    ensures
        match find_state(states, id) {
            Some(k) => 0 <= k < states.len() && states[k].id == id && forall|j: int|
                0 <= j < k ==> states[j].id != id,
            None => forall|j: int| 0 <= j < states.len() ==> states[j].id != id,
        },
    decreases states.len(),
{
    if states.len() > 0 {
        let p = states.drop_last();
        lemma_find_state(p, id);
        assert(forall|j: int| 0 <= j < p.len() ==> p[j] == states[j]);
    }
}

/// Whether a request at `now` for a profile last requested at `last` is too
/// soon: less than a second later (a clock that went back counts as no time).
pub open spec fn too_soon(last: Option<u64>, now: u64) -> bool {
    match last {
        Some(t) => (if now >= t {
            now - t
        } else {
            0
        }) < throttle_ms(),
        None => false,
    }
}

/// The phase a profile leaves when it is known to be active: connected where
/// it has an interface, disconnected otherwise.
pub open spec fn phase_for(s: VpnStateView) -> PhaseView {
    match s.interface {
        Some(_) => PhaseView::Connected { id: s.id, display_name: s.display_name },
        None => PhaseView::Disconnected,
    }
}

/// The state after the event `e` at time `now`, and the command for the runner.
pub open spec fn spec_vpn_step(a: VpnAppView, e: SystemEvent, now: u64) -> (VpnAppView, Option<(int, EventContext)>, bool) {
    match e {
        SystemEvent::RequestVpnSwitch { state_id, context } => match find_state(a.states, state_id@) {
            None => (a, None, false),
            Some(k) => if too_soon(a.last[k], now) {
                (a, None, false)
            } else {
                let a1 = VpnAppView { last: a.last.update(k, Some(now)), ..a };
                if a.phase is Transitioning {
                    (a1, None, false)
                } else {
                    (
                        VpnAppView {
                            phase: PhaseView::Transitioning {
                                target_id: a.states[k].id,
                                display_name: a.states[k].display_name,
                            },
                            ..a1
                        },
                        Some((k, context)),
                        false,
                    )
                }
            },
        },
        SystemEvent::VpnStateChanged { state_id, display_name, .. } => (
            VpnAppView {
                phase: if state_id@ == "off"@ {
                    PhaseView::Disconnected
                } else {
                    PhaseView::Connected { id: state_id@, display_name: display_name@ }
                },
                ..a
            },
            None,
            false,
        ),
        SystemEvent::VpnStateTransitionFailed { .. } => (a, None, true),
        _ => (a, None, false),
    }
}

/// The profile that a switch request names.
pub open spec fn request_target(e: SystemEvent) -> Option<Seq<char>> {
    match e {
        SystemEvent::RequestVpnSwitch { state_id, .. } => Some(state_id@),
        _ => None,
    }
}

/// A second request for the same profile less than a second after one that
/// got past the time check changes nothing and starts nothing.
pub proof fn law_vpn_requests_are_throttled(
    a: VpnAppView,
    e1: SystemEvent,
    t1: u64,
    e2: SystemEvent,
    t2: u64,
)
    requires
        a.last.len() == a.states.len(),
        request_target(e1) matches Some(id) && find_state(a.states, id) matches Some(k) && !too_soon(
            a.last[k],
            t1,
        ),
        request_target(e2) == request_target(e1),
        t1 <= t2 < t1 + throttle_ms(),
    ensures
        ({
            let a1 = spec_vpn_step(a, e1, t1).0;
            let s2 = spec_vpn_step(a1, e2, t2);
            s2.0 == a1 && s2.1 is None && !s2.2
        }),
{
    lemma_find_state(a.states, request_target(e1)->0);
}

/// While a switch is under way, no event starts another one.
pub proof fn law_vpn_no_switch_while_transitioning(a: VpnAppView, e: SystemEvent, now: u64)
    requires
        a.phase is Transitioning,
    ensures
        spec_vpn_step(a, e, now).1 is None,
{
}

/// A request that starts a switch puts the feature in the transitioning
/// phase for that profile and records the request's time.
pub proof fn law_vpn_switch_enters_transition(a: VpnAppView, e: SystemEvent, now: u64)
    requires
        a.last.len() == a.states.len(),
        spec_vpn_step(a, e, now).1 is Some,
    ensures
        ({
            let (a1, cmd, _) = spec_vpn_step(a, e, now);
            let pair = cmd->0;
            let k = pair.0;
            &&& 0 <= k < a.states.len()
            &&& a1.phase == (PhaseView::Transitioning {
                target_id: a.states[k].id,
                display_name: a.states[k].display_name,
            })
            &&& a1.last[k] == Some(now)
        }),
{
    if let SystemEvent::RequestVpnSwitch { state_id, .. } = e {
        lemma_find_state(a.states, state_id@);
    }
}

/// A failed switch never leaves the feature switching: the failure asks for
/// a detection, and once it has set the phase (`detected` or
/// `nothing_detected`), a request that is not too soon starts a switch again.
pub proof fn law_failed_switch_recovers(
    a: VpnAppView,
    fail: SystemEvent,
    now: u64,
    found: Option<int>,
    req: SystemEvent,
    t: u64,
)
    requires
        a.last.len() == a.states.len(),
        fail is VpnStateTransitionFailed,
        found matches Some(k) ==> 0 <= k < a.states.len(),
        request_target(req) matches Some(id) && find_state(a.states, id) matches Some(j) && !too_soon(
            a.last[j],
            t,
        ),
    ensures
        spec_vpn_step(a, fail, now).2,
        ({
            let a1 = spec_vpn_step(a, fail, now).0;
            let a2 = VpnAppView {
                phase: match found {
                    Some(k) => phase_for(a.states[k]),
                    None => PhaseView::Disconnected,
                },
                ..a1
            };
            spec_vpn_step(a2, req, t).1 is Some
        }),
{
    lemma_find_state(a.states, request_target(req)->0);
}

impl VpnApp {
    /// A new VPN feature state: disconnected, no profile requested yet.
    pub fn new(config: VpnConfig) -> (r: Self)
        ensures
            r@.states == states_view(config.states@),
            r@.phase == PhaseView::Disconnected,
            r@.last.len() == r@.states.len(),
            forall|k: int| 0 <= k < r@.last.len() ==> r@.last[k] is None,
    {
        let mut last_triggers: Vec<Option<u64>> = Vec::new();
        let mut i: usize = 0;
        while i < config.states.len()
            invariant
                i <= config.states@.len(),
                last_triggers@.len() == i,
                forall|k: int| 0 <= k < i ==> last_triggers@[k] is None,
            decreases config.states@.len() - i,
        {
            last_triggers.push(None);
            i = i + 1;
        }
        VpnApp { config, state: VpnPhase::Disconnected, last_triggers }
    }

    /// The index of the first profile named `id`.
    pub fn find_state(&self, id: &str) -> (r: Option<usize>)
        ensures
            match r {
                Some(k) => find_state(self@.states, id@) == Some(k as int) && k
                    < self.config.states@.len(),
                None => find_state(self@.states, id@) is None,
            },
    {
        proof {
            lemma_find_state(self@.states, id@);
        }
        let mut i: usize = 0;
        while i < self.config.states.len()
            invariant
                i <= self.config.states@.len(),
                forall|j: int| 0 <= j < i ==> self@.states[j].id != id@,
            decreases self.config.states@.len() - i,
        {
            assert(self@.states[i as int] == self.config.states@[i as int]@);
            if str_eq(self.config.states[i].id.as_str(), id) {
                proof {
                    lemma_find_state(self@.states, id@);
                    if find_state(self@.states, id@) != Some(i as int) {
                        let k = find_state(self@.states, id@)->0;
                        assert(k < i || k > i);
                    }
                }
                return Some(i);
            }
            i = i + 1;
        }
        None
    }

    /// Handles the event `e` at time `now` (milliseconds): a request starts a
    /// switch unless it comes less than a second after the last request for
    /// the same profile or a switch is under way; a reported change sets the
    /// phase; a reported failure asks for a new detection.
    pub fn handle_event(&mut self, e: &SystemEvent, now: u64) -> (r: VpnCommand)
        requires
            old(self)@.last.len() == old(self)@.states.len(),
        ensures
            final(self)@.last.len() == final(self)@.states.len(),
            final(self)@ == spec_vpn_step(old(self)@, *e, now).0,
            match spec_vpn_step(old(self)@, *e, now).1 {
                Some((k, c)) => r matches VpnCommand::Switch { index, context } && index == k
                    && context == c,
                None => if spec_vpn_step(old(self)@, *e, now).2 {
                    r is Redetect
                } else {
                    r is Nothing
                },
            },
    {
        match e {
            SystemEvent::RequestVpnSwitch { state_id, context } => {
                let k = match self.find_state(state_id.as_str()) {
                    None => {
                        return VpnCommand::Nothing;
                    },
                    Some(k) => k,
                };
                let soon = match self.last_triggers[k] {
                    Some(t) => {
                        let elapsed = if now >= t {
                            now - t
                        } else {
                            0
                        };
                        elapsed < 1000
                    },
                    None => false,
                };
                if soon {
                    return VpnCommand::Nothing;
                }
                self.last_triggers.set(k, Some(now));
                let transitioning = match &self.state {
                    VpnPhase::Transitioning { .. } => true,
                    _ => false,
                };
                if transitioning {
                    return VpnCommand::Nothing;
                }
                assert(self@.states[k as int] == self.config.states@[k as int]@);
                self.state = VpnPhase::Transitioning {
                    target_id: self.config.states[k].id.clone(),
                    display_name: self.config.states[k].display_name.clone(),
                };
                VpnCommand::Switch { index: k, context: *context }
            },
            SystemEvent::VpnStateChanged { state_id, display_name, .. } => {
                if str_eq(state_id.as_str(), "off") {
                    self.state = VpnPhase::Disconnected;
                } else {
                    self.state = VpnPhase::Connected {
                        id: state_id.clone(),
                        display_name: display_name.clone(),
                    };
                }
                VpnCommand::Nothing
            },
            SystemEvent::VpnStateTransitionFailed { .. } => VpnCommand::Redetect,
            _ => VpnCommand::Nothing,
        }
    }

    /// Sets the phase from a detection that found the profile at `index` active.
    pub fn detected(&mut self, index: usize)
        requires
            index < old(self).config.states@.len(),
        ensures
            final(self)@ == (VpnAppView { phase: phase_for(old(self)@.states[index as int]), ..old(self)@ }),
    {
        assert(self@.states[index as int] == self.config.states@[index as int]@);
        let s = &self.config.states[index];
        match &s.interface {
            Some(_) => {
                self.state = VpnPhase::Connected { id: s.id.clone(), display_name: s.display_name.clone() };
            },
            None => {
                self.state = VpnPhase::Disconnected;
            },
        }
    }

    /// Sets the phase from a detection that found no profile active: the
    /// VPN counts as disconnected.
    pub fn nothing_detected(&mut self)
        ensures
            final(self)@ == (VpnAppView { phase: PhaseView::Disconnected, ..old(self)@ }),
    {
        self.state = VpnPhase::Disconnected;
    }
}

} // verus!
