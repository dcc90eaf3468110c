//! The shared picture of the desktop: the active VPN profile and the
//! daemons that run, kept up to date from the events that report them.

use vstd::prelude::*;
use crate::text::str_eq;
use crate::base::event_bus::SystemEvent;

verus! {

/// The active VPN profile's id and the ids of the running daemons, each
/// once.
#[derive(Debug, Clone)]
pub struct AppState {
    pub active_vpn_state: String,
    pub running_daemons: Vec<String>,
}

pub ghost struct AppStateView {
    pub vpn: Seq<char>,
    pub running: Set<Seq<char>>,
}

impl View for AppState {
    type V = AppStateView;

    open spec fn view(&self) -> AppStateView {
        AppStateView {
            vpn: self.active_vpn_state@,
            running: self.running_daemons@.map_values(|s: String| s@).to_set(),
        }
    }
}

/// The state after an event: a reported VPN profile becomes the active
/// one; a daemon reported running joins the running ones, one reported
/// stopped leaves them; other events change nothing.
pub open spec fn spec_apply(s: AppStateView, e: SystemEvent) -> AppStateView {
    match e {
        SystemEvent::VpnStateChanged { state_id, .. } => AppStateView { vpn: state_id@, ..s },
        SystemEvent::DaemonStateChanged { daemon_id, is_running, .. } => AppStateView {
            running: if is_running {
                s.running.insert(daemon_id@)
            } else {
                s.running.remove(daemon_id@)
            },
            ..s
        },
        _ => s,
    }
}

/// The daemon that an event reports on, and whether it runs.
pub open spec fn daemon_report(e: SystemEvent) -> Option<(Seq<char>, bool)> {
    match e {
        SystemEvent::DaemonStateChanged { daemon_id, is_running, .. } => Some((daemon_id@, is_running)),
        _ => None,
    }
}

/// A daemon reported stopped after it was reported running is not among
/// the running ones, and the others are as they were before.
pub proof fn law_stop_undoes_start(s: AppStateView, start: SystemEvent, stop: SystemEvent)
    requires
        daemon_report(start) matches Some((id, running)) && running && daemon_report(stop) == Some(
            (id, false),
        ),
    ensures
        ({
            let p = daemon_report(start)->0;
            spec_apply(spec_apply(s, start), stop) == (AppStateView { running: s.running.remove(p.0), ..s })
        }),
{
    let p = daemon_report(start)->0;
    assert(spec_apply(spec_apply(s, start), stop).running =~= s.running.remove(p.0));
}

/// Events about the VPN leave the running daemons alone, and events about
/// daemons leave the active profile alone.
pub proof fn law_reports_are_independent(s: AppStateView, e: SystemEvent)
    ensures
        e is VpnStateChanged ==> spec_apply(s, e).running == s.running,
        e is DaemonStateChanged ==> spec_apply(s, e).vpn == s.vpn,
{
}

/// The state after the events, applied in order.
pub open spec fn spec_apply_all(s: AppStateView, es: Seq<SystemEvent>) -> AppStateView
    decreases es.len(),
{
    if es.len() == 0 {
        s
    } else {
        spec_apply(spec_apply_all(s, es.drop_last()), es.last())
    }
}

/// The profile of the last VPN report among the events, else `vpn`.
pub open spec fn last_vpn(es: Seq<SystemEvent>, vpn: Seq<char>) -> Seq<char>
    decreases es.len(),
{
    if es.len() == 0 {
        vpn
    } else {
        match es.last() {
            SystemEvent::VpnStateChanged { state_id, .. } => state_id@,
            _ => last_vpn(es.drop_last(), vpn),
        }
    }
}

/// Whether the last report on daemon `d` among the events says it runs,
/// else `running`.
pub open spec fn last_running(es: Seq<SystemEvent>, d: Seq<char>, running: bool) -> bool
    decreases es.len(),
{
    if es.len() == 0 {
        running
    } else {
        match daemon_report(es.last()) {
            Some(p) => if p.0 == d {
                p.1
            } else {
                last_running(es.drop_last(), d, running)
            },
            None => last_running(es.drop_last(), d, running),
        }
    }
}

/// After any sequence of events, the active profile is that of the last
/// VPN report (unchanged if there is none), and each daemon runs as its
/// last report says (unchanged if there is none); other events change nothing.
pub proof fn law_state_follows_last_reports(s: AppStateView, es: Seq<SystemEvent>)
    ensures
        spec_apply_all(s, es).vpn == last_vpn(es, s.vpn),
        forall|d: Seq<char>|
            #[trigger] spec_apply_all(s, es).running.contains(d) == last_running(es, d, s.running.contains(d)),
    decreases es.len(),
{
    if es.len() > 0 {
        law_state_follows_last_reports(s, es.drop_last());
        let prev = spec_apply_all(s, es.drop_last());
        assert forall|d: Seq<char>|
            #[trigger] spec_apply_all(s, es).running.contains(d) == last_running(es, d, s.running.contains(d)) by {
            assert(prev.running.contains(d) == last_running(es.drop_last(), d, s.running.contains(d)));
        }
    }
}

impl AppState {
    /// Whether no daemon id occurs twice.
    pub open spec fn wf(&self) -> bool {
        forall|i: int, j: int|
            0 <= i < j < self.running_daemons@.len() ==> self.running_daemons@[i]@
                != self.running_daemons@[j]@
    }

    /// The state at start: no profile, no daemon.
    pub fn new() -> (r: Self)
        ensures
            r.wf(),
            r@.vpn == Seq::<char>::empty(),
            r@.running == Set::<Seq<char>>::empty(),
    {
        let r = AppState { active_vpn_state: String::new(), running_daemons: Vec::new() };
        assert(r@.running =~= Set::<Seq<char>>::empty());
        r
    }

    /// The id of the active VPN profile.
    pub fn get_vpn_state(&self) -> (r: String)
        ensures
            r@ == self@.vpn,
    {
        self.active_vpn_state.clone()
    }

    fn position(&self, daemon_id: &str) -> (r: Option<usize>)
        ensures
            match r {
                Some(k) => k < self.running_daemons@.len() && self.running_daemons@[k as int]@
                    == daemon_id@,
                None => !self@.running.contains(daemon_id@),
            },
    {
        let mut i: usize = 0;
        while i < self.running_daemons.len()
            invariant
                i <= self.running_daemons@.len(),
                forall|j: int| 0 <= j < i ==> self.running_daemons@[j]@ != daemon_id@,
            decreases self.running_daemons@.len() - i,
        {
            if str_eq(self.running_daemons[i].as_str(), daemon_id) {
                return Some(i);
            }
            i = i + 1;
        }
        proof {
            let v = self.running_daemons@.map_values(|s: String| s@);
            if v.to_set().contains(daemon_id@) {
                let k = choose|k: int| 0 <= k < v.len() && v[k] == daemon_id@;
                assert(self.running_daemons@[k]@ == daemon_id@);
            }
        }
        None
    }

    /// Whether the daemon `daemon_id` runs.
    pub fn is_daemon_running(&self, daemon_id: &str) -> (r: bool)
        ensures
            r == self@.running.contains(daemon_id@),
    {
        match self.position(daemon_id) {
            Some(k) => {
                proof {
                    let v = self.running_daemons@.map_values(|s: String| s@);
                    assert(v[k as int] == daemon_id@);
                }
                true
            },
            None => false,
        }
    }

    /// Makes `state_id` the active VPN profile.
    pub fn update_vpn_state(&mut self, state_id: String)
        ensures
            final(self)@ == (AppStateView { vpn: state_id@, ..old(self)@ }),
            final(self).running_daemons@ == old(self).running_daemons@,
    {
        self.active_vpn_state = state_id;
    }

    /// Records that the daemon `daemon_id` runs.
    pub fn add_daemon(&mut self, daemon_id: String)
        requires
            old(self).wf(),
        ensures
            final(self).wf(),
            final(self)@ == (AppStateView { running: old(self)@.running.insert(daemon_id@), ..old(self)@ }),
    {
        let ghost before = self.running_daemons@;
        match self.position(daemon_id.as_str()) {
            Some(k) => {
                proof {
                    let v = before.map_values(|s: String| s@);
                    assert(v[k as int] == daemon_id@);
                    assert(v.to_set().insert(daemon_id@) =~= v.to_set());
                }
            },
            None => {
                self.running_daemons.push(daemon_id);
                proof {
                    let v0 = before.map_values(|s: String| s@);
                    let v1 = self.running_daemons@.map_values(|s: String| s@);
                    assert(v1 =~= v0.push(daemon_id@));
                    assert(v1.to_set() =~= v0.to_set().insert(daemon_id@)) by {
                        assert forall|x: Seq<char>| v1.to_set().contains(x) implies v0.to_set().insert(daemon_id@).contains(x) by {
                            let k = choose|k: int| 0 <= k < v1.len() && v1[k] == x;
                            if k < v0.len() {
                                assert(v0[k] == x);
                            }
                        }
                        assert forall|x: Seq<char>| v0.to_set().insert(daemon_id@).contains(x) implies v1.to_set().contains(x) by {
                            if x == daemon_id@ {
                                assert(v1[v0.len() as int] == x);
                            } else {
                                let k = choose|k: int| 0 <= k < v0.len() && v0[k] == x;
                                assert(v1[k] == x);
                            }
                        }
                    }
                    assert forall|i: int, j: int|
                        0 <= i < j < self.running_daemons@.len() implies self.running_daemons@[i]@
                        != self.running_daemons@[j]@ by {
                        if j == before.len() {
                            assert(v0[i] == before[i]@);
                        }
                    }
                }
            },
        }
    }

    /// Records that the daemon `daemon_id` no longer runs.
    pub fn remove_daemon(&mut self, daemon_id: &str)
        requires
            old(self).wf(),
        ensures
            final(self).wf(),
            final(self)@ == (AppStateView { running: old(self)@.running.remove(daemon_id@), ..old(self)@ }),
    {
        let ghost before = self.running_daemons@;
        match self.position(daemon_id) {
            Some(k) => {
                self.running_daemons.remove(k);
                proof {
                    let v0 = before.map_values(|s: String| s@);
                    let v1 = self.running_daemons@.map_values(|s: String| s@);
                    assert(v1 =~= v0.remove(k as int));
                    assert(v1.to_set() =~= v0.to_set().remove(daemon_id@)) by {
                        assert forall|x: Seq<char>| v1.to_set().contains(x) implies v0.to_set().remove(daemon_id@).contains(x) by {
                            let m = choose|m: int| 0 <= m < v1.len() && v1[m] == x;
                            if m < k {
                                assert(v0[m] == x);
                                assert(m != k);
                            } else {
                                assert(v0[m + 1] == x);
                            }
                        }
                        assert forall|x: Seq<char>| v0.to_set().remove(daemon_id@).contains(x) implies v1.to_set().contains(x) by {
                            let m = choose|m: int| 0 <= m < v0.len() && v0[m] == x;
                            assert(m != k);
                            if m < k {
                                assert(v1[m] == x);
                            } else {
                                assert(v1[m - 1] == x);
                            }
                        }
                    }
                    assert forall|i: int, j: int|
                        0 <= i < j < self.running_daemons@.len() implies self.running_daemons@[i]@
                        != self.running_daemons@[j]@ by {
                        let i0 = if i < k { i } else { i + 1 };
                        let j0 = if j < k { j } else { j + 1 };
                        assert(self.running_daemons@[i] == before[i0]);
                        assert(self.running_daemons@[j] == before[j0]);
                    }
                }
            },
            None => {
                proof {
                    let v = before.map_values(|s: String| s@);
                    assert(v.to_set().remove(daemon_id@) =~= v.to_set());
                }
            },
        }
    }

    /// Brings the state up to date with an event.
    pub fn apply_event(&mut self, e: &SystemEvent)
        requires
            old(self).wf(),
        ensures
            final(self).wf(),
            final(self)@ == spec_apply(old(self)@, *e),
    {
        match e {
            SystemEvent::VpnStateChanged { state_id, .. } => {
                self.update_vpn_state(state_id.clone());
            },
            SystemEvent::DaemonStateChanged { daemon_id, is_running, .. } => {
                if *is_running {
                    self.add_daemon(daemon_id.clone());
                } else {
                    self.remove_daemon(daemon_id.as_str());
                }
            },
            _ => {},
        }
    }

    /// Brings the state up to date with events, in order.
    pub fn apply_events(&mut self, es: &Vec<SystemEvent>)
        requires
            old(self).wf(),
        ensures
            final(self).wf(),
            final(self)@ == spec_apply_all(old(self)@, es@),
    {
        let ghost s0 = self@;
        let mut i: usize = 0;
        assert(es@.take(0) =~= Seq::<SystemEvent>::empty());
        while i < es.len()
            invariant
                i <= es@.len(),
                self.wf(),
                self@ == spec_apply_all(s0, es@.take(i as int)),
            decreases es@.len() - i,
        {
            assert(es@.take(i + 1).drop_last() =~= es@.take(i as int));
            assert(es@.take(i + 1).last() == es@[i as int]);
            self.apply_event(&es[i]);
            i = i + 1;
        }
        assert(es@.take(es@.len() as int) =~= es@);
    }
}

} // verus!
