//! The decisions of the daemons feature: which daemons start with it,
//! what a control request asks of a daemon given whether it runs, and
//! which events report the outcome.

use vstd::prelude::*;
use crate::text::{join3, to_string};
use crate::base::event_bus::{
    DaemonAction, EventContext, Initiator, SystemEvent, strings_view, clone_strings,
};
use crate::features::daemons::config::{DaemonConfig, DaemonsConfig, DaemonView, daemons_view};
use crate::features::daemons::manager::{file_name_of, path_file_name};

verus! {

/// The daemons feature.
pub struct DaemonsFeature;

/// The ids of the daemons that start with the feature, in order.
pub open spec fn autostart_ids(ds: Seq<DaemonView>) -> Seq<Seq<char>>
    decreases ds.len(),
{
    if ds.len() == 0 {
        Seq::empty()
    } else {
        let rest = autostart_ids(ds.drop_last());
        if ds.last().autostart {
            rest.push(ds.last().id)
        } else {
            rest
        }
    }
}

/// The context of the requests that the feature makes on its own.
pub open spec fn quiet_direct() -> EventContext {
    EventContext { initiator: Initiator::Direct, silent: true }
}

/// Whether `e` asks, silently and directly, to turn on the daemon `id`.
pub open spec fn is_autostart_request(e: SystemEvent, id: Seq<char>) -> bool {
    e matches SystemEvent::RequestDaemonControl { daemon_id, action, context } && daemon_id@ == id
        && action == DaemonAction::On && context == quiet_direct()
}

impl DaemonsFeature {
    /// The requests that turn on each daemon marked `autostart`, in order.
    pub fn autostart_requests(config: &DaemonsConfig) -> (r: Vec<SystemEvent>)
        ensures
            r@.len() == autostart_ids(daemons_view(config.daemons@)).len(),
            forall|j: int|
                0 <= j < r@.len() ==> is_autostart_request(
                    #[trigger] r@[j],
                    autostart_ids(daemons_view(config.daemons@))[j],
                ),
    {
        let ghost dv = daemons_view(config.daemons@);
        let mut r: Vec<SystemEvent> = Vec::new();
        let mut i: usize = 0;
        while i < config.daemons.len()
            invariant
                dv == daemons_view(config.daemons@),
                dv.len() == config.daemons@.len(),
                i <= dv.len(),
                r@.len() == autostart_ids(dv.take(i as int)).len(),
                forall|j: int|
                    0 <= j < r@.len() ==> is_autostart_request(
                        #[trigger] r@[j],
                        autostart_ids(dv.take(i as int))[j],
                    ),
            decreases dv.len() - i,
        {
            let d = &config.daemons[i];
            assert(dv.take(i + 1).drop_last() =~= dv.take(i as int));
            assert(dv.take(i + 1).last() == d@);
            if d.autostart {
                r.push(
                    SystemEvent::RequestDaemonControl {
                        daemon_id: d.id.clone(),
                        action: DaemonAction::On,
                        context: EventContext { initiator: Initiator::Direct, silent: true },
                    },
                );
            }
            i = i + 1;
        }
        assert(dv.take(dv.len() as int) =~= dv);
        r
    }
}

/// The index of the first daemon named `id`.
pub open spec fn find_daemon(ds: Seq<DaemonView>, id: Seq<char>) -> Option<int>
    decreases ds.len(),
{
    if ds.len() == 0 {
        None
    } else {
        match find_daemon(ds.drop_last(), id) {
            Some(k) => Some(k),
            None => if ds.last().id == id {
                Some(ds.len() - 1)
            } else {
                None
            },
        }
    }
}

pub proof fn lemma_find_daemon(ds: Seq<DaemonView>, id: Seq<char>)
    ensures
        match find_daemon(ds, id) {
            Some(k) => 0 <= k < ds.len() && ds[k].id == id && forall|j: int|
                0 <= j < k ==> ds[j].id != id,
            None => forall|j: int| 0 <= j < ds.len() ==> ds[j].id != id,
        },
    decreases ds.len(),
{
    if ds.len() > 0 {
        let p = ds.drop_last();
        lemma_find_daemon(p, id);
        assert(forall|j: int| 0 <= j < p.len() ==> p[j] == ds[j]);
    }
}

/// What a control request comes to, given whether the daemon runs.
#[derive(Debug, Clone)]
pub enum DaemonDecision {
    /// Spawn the daemon's start command.
    Start,
    /// Stop the daemon's processes.
    Stop,
    /// Leave it as it is, with a line for the log where the request is not silent.
    Ignore(Option<String>),
}

pub open spec fn already_running_msg(id: Seq<char>) -> Seq<char> {
    "Запрос на запуск '"@ + id + "' проигнорирован, процесс уже запущен"@
}

pub open spec fn not_running_msg(id: Seq<char>) -> Seq<char> {
    "Запрос на остановку '"@ + id + "' проигнорирован, процесс не запущен"@
}

/// The decision on `action` for the daemon `id`: turning on a running
/// daemon or off a stopped one does nothing; a toggle flips it.
pub open spec fn decision_ok(r: DaemonDecision, id: Seq<char>, action: DaemonAction, context: EventContext, is_running: bool) -> bool {
    match action {
        DaemonAction::On => if is_running {
            r matches DaemonDecision::Ignore(m) && (if context.silent {
                m is None
            } else {
                m matches Some(t) && t@ == already_running_msg(id)
            })
        } else {
            r is Start
        },
        DaemonAction::Off => if !is_running {
            r matches DaemonDecision::Ignore(m) && (if context.silent {
                m is None
            } else {
                m matches Some(t) && t@ == not_running_msg(id)
            })
        } else {
            r is Stop
        },
        DaemonAction::Toggle => if is_running {
            r is Stop
        } else {
            r is Start
        },
    }
}

/// The daemons feature's state: its configuration. The processes it
/// spawned stay with the caller, which runs them.
pub struct DaemonApp {
    pub config: DaemonsConfig,
}

impl DaemonApp {
    pub fn new(config: DaemonsConfig) -> (r: Self)
        ensures
            daemons_view(r.config.daemons@) == daemons_view(config.daemons@),
    {
        DaemonApp { config }
    }

    /// The daemon, action and context of a control request for a daemon of
    /// the configuration (the first of that name); none for another event.
    pub fn control_request(&self, e: &SystemEvent) -> (r: Option<(usize, DaemonAction, EventContext)>)
        ensures
            match *e {
                SystemEvent::RequestDaemonControl { daemon_id, action, context } => match find_daemon(
                    daemons_view(self.config.daemons@),
                    daemon_id@,
                ) {
                    Some(k) => r matches Some((i, a, c)) && i as int == k && a == action && c == context,
                    None => r is None,
                },
                _ => r is None,
            },
    {
        match e {
            SystemEvent::RequestDaemonControl { daemon_id, action, context } => {
                let ghost dv = daemons_view(self.config.daemons@);
                proof {
                    lemma_find_daemon(dv, daemon_id@);
                }
                let mut i: usize = 0;
                while i < self.config.daemons.len()
                    invariant
                        dv == daemons_view(self.config.daemons@),
                        dv.len() == self.config.daemons@.len(),
                        i <= dv.len(),
                        forall|j: int| 0 <= j < i ==> dv[j].id != daemon_id@,
                        *e == (SystemEvent::RequestDaemonControl {
                            daemon_id: *daemon_id,
                            action: *action,
                            context: *context,
                        }),
                    decreases dv.len() - i,
                {
                    assert(dv[i as int] == self.config.daemons@[i as int]@);
                    if crate::text::str_eq(self.config.daemons[i].id.as_str(), daemon_id.as_str()) {
                        proof {
                            lemma_find_daemon(dv, daemon_id@);
                            if find_daemon(dv, daemon_id@) != Some(i as int) {
                                let k = find_daemon(dv, daemon_id@)->0;
                                assert(k < i || k > i);
                            }
                        }
                        return Some((i, *action, *context));
                    }
                    i = i + 1;
                }
                None
            },
            _ => None,
        }
    }

    /// What to do with the daemon `daemon` on `action`, given whether it runs.
    pub fn decide(daemon: &DaemonConfig, action: DaemonAction, context: EventContext, is_running: bool) -> (r: DaemonDecision)
        ensures
            decision_ok(r, daemon.id@, action, context, is_running),
    {
        match action {
            DaemonAction::On => {
                if is_running {
                    if context.silent {
                        DaemonDecision::Ignore(None)
                    } else {
                        DaemonDecision::Ignore(Some(join3("Запрос на запуск '", daemon.id.as_str(), "' проигнорирован, процесс уже запущен")))
                    }
                } else {
                    DaemonDecision::Start
                }
            },
            DaemonAction::Off => {
                if !is_running {
                    if context.silent {
                        DaemonDecision::Ignore(None)
                    } else {
                        DaemonDecision::Ignore(Some(join3("Запрос на остановку '", daemon.id.as_str(), "' проигнорирован, процесс не запущен")))
                    }
                } else {
                    DaemonDecision::Stop
                }
            },
            DaemonAction::Toggle => {
                if is_running {
                    DaemonDecision::Stop
                } else {
                    DaemonDecision::Start
                }
            },
        }
    }

    /// The name the daemon's process runs under: the final component of
    /// its program's path, else its id.
    pub fn process_name(daemon: &DaemonConfig) -> (r: String)
        requires
            daemon.start_cmd@.len() > 0,
        ensures
            r@ == match file_name_of(daemon.start_cmd@[0]@) {
                Some(n) => n,
                None => daemon.id@,
            },
    {
        match path_file_name(daemon.start_cmd[0].as_str()) {
            Some(n) => n,
            None => daemon.id.clone(),
        }
    }

    /// The event that reports a start: the daemon runs, or the spawn failed.
    pub fn start_outcome(daemon: &DaemonConfig, spawned: Result<(), String>, context: EventContext) -> (r: SystemEvent)
        ensures
            match spawned {
                Ok(_) => r matches SystemEvent::DaemonStateChanged { daemon_id, display_name, is_running, context: c }
                    && daemon_id@ == daemon.id@ && display_name@ == daemon.display_name@ && is_running && c == context,
                Err(e) => r matches SystemEvent::DaemonStateTransitionFailed { daemon_id, display_name, action, error, context: c }
                    && daemon_id@ == daemon.id@ && display_name@ == daemon.display_name@ && action == DaemonAction::On
                    && error@ == e@ && c == context,
            },
    {
        match spawned {
            Ok(_) => SystemEvent::DaemonStateChanged {
                daemon_id: daemon.id.clone(),
                display_name: daemon.display_name.clone(),
                is_running: true,
                context,
            },
            Err(e) => SystemEvent::DaemonStateTransitionFailed {
                daemon_id: daemon.id.clone(),
                display_name: daemon.display_name.clone(),
                action: DaemonAction::On,
                error: e,
                context,
            },
        }
    }

    /// What follows the killing of a daemon's processes: on success, its
    /// stop command (if it has one) to run, then the report that it stopped;
    /// on failure, no command and the report of the failure.
    pub fn stop_outcome(daemon: &DaemonConfig, killed: Result<(), String>, context: EventContext) -> (r: (Option<Vec<String>>, SystemEvent))
        ensures
            match killed {
                Ok(_) => {
                    &&& match daemon.stop_cmd {
                        Some(c) => r.0 matches Some(v) && strings_view(v@) == strings_view(c@),
                        None => r.0 is None,
                    }
                    &&& r.1 matches SystemEvent::DaemonStateChanged { daemon_id, display_name, is_running, context: c }
                        && daemon_id@ == daemon.id@ && display_name@ == daemon.display_name@ && !is_running && c == context
                },
                Err(e) => {
                    &&& r.0 is None
                    &&& r.1 matches SystemEvent::DaemonStateTransitionFailed { daemon_id, display_name, action, error, context: c }
                        && daemon_id@ == daemon.id@ && display_name@ == daemon.display_name@ && action == DaemonAction::Off
                        && error@ == e@ && c == context
                },
            },
    {
        match killed {
            Ok(_) => {
                let cmd = match &daemon.stop_cmd {
                    Some(c) => Some(clone_strings(c)),
                    None => None,
                };
                (cmd, SystemEvent::DaemonStateChanged {
                    daemon_id: daemon.id.clone(),
                    display_name: daemon.display_name.clone(),
                    is_running: false,
                    context,
                })
            },
            Err(e) => (None, SystemEvent::DaemonStateTransitionFailed {
                daemon_id: daemon.id.clone(),
                display_name: daemon.display_name.clone(),
                action: DaemonAction::Off,
                error: e,
                context,
            }),
        }
    }
}

} // verus!
