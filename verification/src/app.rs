//! The decisions of the stand-alone VPN manager: which switch requests
//! start a switch, and the events that report one.

use vstd::prelude::*;
use crate::text::str_eq;
use crate::config::{Config, VpnStateConfig, StateView, config_states_view};
use crate::event::{InputEvent, DomainEvent};
use crate::vpn::IpInfo;
use crate::features::vpn::state::{too_soon, throttle_ms};

verus! {

/// The stand-alone manager's state: its configuration, whether a switch is
/// under way, and for each profile the time (in milliseconds) it was last
/// requested.
pub struct App {
    pub config: Config,
    pub is_transitioning: bool,
    pub last_triggers: Vec<Option<u64>>,
}

pub ghost struct AppView {
    pub states: Seq<StateView>,
    pub transitioning: bool,
    pub last: Seq<Option<u64>>,
}

impl View for App {
    type V = AppView;

    open spec fn view(&self) -> AppView {
        AppView {
            states: config_states_view(self.config.states@),
            transitioning: self.is_transitioning,
            last: self.last_triggers@,
        }
    }
}

/// The index of the first profile named `id`.
pub open spec fn find_profile(states: Seq<StateView>, id: Seq<char>) -> Option<int>
    decreases states.len(),
{
    if states.len() == 0 {
        None
    } else {
        match find_profile(states.drop_last(), id) {
            Some(k) => Some(k),
            None => if states.last().id == id {
                Some(states.len() - 1)
            } else {
                None
            },
        }
    }
}

pub proof fn lemma_find_profile(states: Seq<StateView>, id: Seq<char>)
    ensures
        match find_profile(states, id) {
            Some(k) => 0 <= k < states.len() && states[k].id == id && forall|j: int|
                0 <= j < k ==> states[j].id != id,
            None => forall|j: int| 0 <= j < states.len() ==> states[j].id != id,
        },
    decreases states.len(),
{
    if states.len() > 0 {
        let p = states.drop_last();
        lemma_find_profile(p, id);
        assert(forall|j: int| 0 <= j < p.len() ==> p[j] == states[j]);
    }
}

/// The state after a request for profile `id` at `now`, and the profile to
/// switch to, if any: an unknown profile, or a request less than a second
/// after the last one for it, changes nothing; otherwise the time is
/// recorded, and unless a switch is under way, one starts.
pub open spec fn spec_app_step(a: AppView, id: Seq<char>, now: u64) -> (AppView, Option<int>) {
    match find_profile(a.states, id) {
        None => (a, None),
        Some(k) => if too_soon(a.last[k], now) {
            (a, None)
        } else {
            let a1 = AppView { last: a.last.update(k, Some(now)), ..a };
            if a.transitioning {
                (a1, None)
            } else {
                (AppView { transitioning: true, ..a1 }, Some(k))
            }
        },
    }
}

/// While a switch is under way, no request starts another one.
pub proof fn law_app_one_switch_at_a_time(a: AppView, id: Seq<char>, now: u64)
    requires
        a.transitioning,
    ensures
        spec_app_step(a, id, now).1 is None,
        spec_app_step(a, id, now).0.transitioning,
{
}

/// A second request for the same profile less than a second after one that
/// got past the time check changes nothing and starts nothing.
pub proof fn law_app_requests_are_throttled(a: AppView, id: Seq<char>, t1: u64, t2: u64)
    requires
        a.last.len() == a.states.len(),
        find_profile(a.states, id) matches Some(k) && !too_soon(a.last[k], t1),
        t1 <= t2 < t1 + throttle_ms(),
    ensures
        ({
            let a1 = spec_app_step(a, id, t1).0;
            spec_app_step(a1, id, t2) == (a1, None::<int>)
        }),
{
    lemma_find_profile(a.states, id);
}

impl App {
    /// The manager at start: no switch under way, no profile requested yet.
    pub fn new(config: Config) -> (r: Self)
        ensures
            r@.states == config_states_view(config.states@),
            !r@.transitioning,
            r@.last.len() == r@.states.len(),
            forall|k: int| 0 <= k < r@.last.len() ==> r@.last[k] is None,
    {
        let mut last_triggers: Vec<Option<u64>> = Vec::new();
        let mut i: usize = 0;
        while i < config.states.len()
            invariant
                i <= config.states@.len(),
                last_triggers@.len() == i,
                forall|k: int| 0 <= k < last_triggers@.len() ==> last_triggers@[k] is None,
            decreases config.states@.len() - i,
        {
            last_triggers.push(None);
            i = i + 1;
        }
        App { config, is_transitioning: false, last_triggers }
    }

    /// Handles a request at `now` (milliseconds): the profile to switch to,
    /// if the request starts a switch.
    pub fn handle_event(&mut self, e: &InputEvent, now: u64) -> (r: Option<usize>)
        requires
            old(self)@.last.len() == old(self)@.states.len(),
        ensures
            final(self)@.last.len() == final(self)@.states.len(),
            match *e {
                InputEvent::RequestStateSwitch(id) => {
                    &&& final(self)@ == spec_app_step(old(self)@, id@, now).0
                    &&& match spec_app_step(old(self)@, id@, now).1 {
                        Some(k) => r matches Some(i) && i as int == k,
                        None => r is None,
                    }
                },
            },
    {
        let InputEvent::RequestStateSwitch(id) = e;
        let ghost sv = self@.states;
        proof {
            lemma_find_profile(sv, id@);
        }
        let mut i: usize = 0;
        while i < self.config.states.len()
            invariant
                sv == self@.states,
                sv.len() == self.config.states@.len(),
                i <= sv.len(),
                forall|j: int| 0 <= j < i ==> sv[j].id != id@,
                self@ == old(self)@,
                self.config.states@ == old(self).config.states@,
                old(self)@.last.len() == sv.len(),
                *e == InputEvent::RequestStateSwitch(*id),
            decreases sv.len() - i,
        {
            assert(sv[i as int] == self.config.states@[i as int]@);
            if str_eq(self.config.states[i].id.as_str(), id.as_str()) {
                proof {
                    lemma_find_profile(sv, id@);
                    if find_profile(sv, id@) != Some(i as int) {
                        let k = find_profile(sv, id@)->0;
                        assert(k < i || k > i);
                    }
                }
                let soon = match self.last_triggers[i] {
                    Some(t) => {
                        let elapsed = if now >= t {
                            now - t
                        } else {
                            0
                        };
                        elapsed < 1000
                    },
                    None => false,
                };
                if soon {
                    return None;
                }
                self.last_triggers.set(i, Some(now));
                if self.is_transitioning {
                    return None;
                }
                self.is_transitioning = true;
                return Some(i);
            }
            i = i + 1;
        }
        None
    }

    /// Records that the switch under way has ended.
    pub fn transition_finished(&mut self)
        ensures
            final(self)@ == (AppView { transitioning: false, ..old(self)@ }),
    {
        self.is_transitioning = false;
    }

    /// The report that a switch to `state` begins.
    pub fn started_event(state: &VpnStateConfig) -> (r: DomainEvent)
        ensures
            r matches DomainEvent::TransitionStarted { state_id, display_name, has_interface }
                && state_id@ == state.id@ && display_name@ == state.display_name@
                && has_interface == (state.interface is Some),
    {
        DomainEvent::TransitionStarted {
            state_id: state.id.clone(),
            display_name: state.display_name.clone(),
            has_interface: state.interface.is_some(),
        }
    }

    /// The report of how a switch to `state` ended.
    pub fn outcome_event(state: &VpnStateConfig, result: Result<Option<IpInfo>, String>) -> (r: DomainEvent)
        ensures
            match result {
                Ok(ip) => r matches DomainEvent::TransitionCompleted { state_id, display_name, ip_info }
                    && state_id@ == state.id@ && display_name@ == state.display_name@ && ip_info == ip,
                Err(e) => r matches DomainEvent::TransitionFailed { state_id, display_name, error }
                    && state_id@ == state.id@ && display_name@ == state.display_name@ && error == e,
            },
    {
        match result {
            Ok(ip) => DomainEvent::TransitionCompleted {
                state_id: state.id.clone(),
                display_name: state.display_name.clone(),
                ip_info: ip,
            },
            Err(e) => DomainEvent::TransitionFailed {
                state_id: state.id.clone(),
                display_name: state.display_name.clone(),
                error: e,
            },
        }
    }
}

} // verus!
