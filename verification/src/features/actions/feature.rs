//! How the actions feature answers the events it receives.

use vstd::prelude::*;
use vstd::string::*;
use crate::text::{join2, join3, to_string};
use crate::base::event_bus::{
    CommandAction, CommandView, EventContext, Initiator, SystemEvent, opt_string_view,
    clone_opt_string,
};
use crate::features::command::commands_view;
use crate::features::actions::registry::{
    ActionRegistry, find_action, spec_plan, spec_plan_cmds, opt_str_view, lemma_find_action_bounds,
};
use crate::notifier::Notification;

verus! {

/// The actions feature.
pub struct ActionsFeature;

/// What asked for an action to run.
#[derive(Debug, Clone, Copy, PartialEq, Eq, Structural)]
pub enum ActionRequest {
    /// `RequestActionExecute`, from a keybind or another feature.
    Execute,
    /// `RequestActionExecuteExported`, from the control socket.
    Exported,
    /// `RequestCommandExecute`: a single command.
    Command,
}

/// A run of an action (or of one command): the primitive commands to carry
/// out in order with `context`, and the error that stops the run after them.
#[derive(Debug)]
pub struct ActionJob {
    pub kind: ActionRequest,
    pub action_id: String,
    pub outer_context: EventContext,
    pub context: EventContext,
    pub steps: Vec<CommandAction>,
    pub error: Option<String>,
}

/// How the actions feature answers an event.
#[derive(Debug)]
pub enum ActionsReaction {
    Nothing,
    Run(ActionJob),
    Refuse(Notification),
}

/// The context in which an action's own commands run: initiated by an
/// action, and silent.
pub open spec fn inner_context() -> EventContext {
    EventContext { initiator: Initiator::Action, silent: true }
}

pub open spec fn app_name() -> Seq<char> {
    "de-configurator"@
}

/// Whether a job runs exactly what `spec_plan` (or, for a single command,
/// `spec_plan_cmds`) gives.
pub open spec fn job_matches(
    job: ActionJob,
    kind: ActionRequest,
    id: Seq<char>,
    outer: EventContext,
    context: EventContext,
    plan: (Seq<CommandView>, Option<Seq<char>>),
) -> bool {
    &&& job.kind == kind
    &&& job.action_id@ == id
    &&& job.outer_context == outer
    &&& job.context == context
    &&& commands_view(job.steps@) == plan.0
    &&& opt_str_view(job.error) == plan.1
}

/// The notification shown when a request from outside names an action that
/// is not exported.
pub open spec fn refusal_body(id: Seq<char>) -> Seq<char> {
    "Экшен '"@ + id + "' не экспортирован для внешнего вызова"@
}

impl ActionsFeature {
    /// The feature's answer to `event`: an action to run (with the plan of
    /// what it does), a refusal, or nothing.
    pub fn handle_event(registry: &ActionRegistry, event: &SystemEvent) -> (r: ActionsReaction)
        ensures
            match *event {
                SystemEvent::RequestActionExecute { action_id, context } => r matches ActionsReaction::Run(job)
                    && job_matches(
                    job,
                    ActionRequest::Execute,
                    action_id@,
                    context,
                    inner_context(),
                    spec_plan(registry@, action_id@, 0),
                ),
                SystemEvent::RequestActionExecuteExported { action_id, context } => match find_action(
                    registry@,
                    action_id@,
                ) {
                    None => r is Nothing,
                    Some(k) => if registry@[k].export {
                        r matches ActionsReaction::Run(job) && job_matches(
                            job,
                            ActionRequest::Exported,
                            action_id@,
                            context,
                            inner_context(),
                            spec_plan(registry@, action_id@, 0),
                        )
                    } else {
                        r matches ActionsReaction::Refuse(n) && n.summary@ == "Ошибка безопасности"@
                            && n.body@ == refusal_body(action_id@) && n.appname is None && !n.critical
                            && n.id is None
                    },
                },
                SystemEvent::RequestCommandExecute { command, context } => r matches ActionsReaction::Run(job)
                    && job_matches(
                    job,
                    ActionRequest::Command,
                    Seq::empty(),
                    context,
                    context,
                    spec_plan_cmds(registry@, seq![command@], 0, 0),
                ),
                _ => r is Nothing,
            },
    {
        match event {
            SystemEvent::RequestActionExecute { action_id, context } => {
                let mut steps: Vec<CommandAction> = Vec::new();
                let error = registry.plan_into(action_id.as_str(), 0, &mut steps);
                assert(commands_view(Seq::<CommandAction>::empty()) =~= Seq::<CommandView>::empty());
                assert(Seq::<CommandView>::empty() + spec_plan(registry@, action_id@, 0).0
                    =~= spec_plan(registry@, action_id@, 0).0);
                ActionsReaction::Run(
                    ActionJob {
                        kind: ActionRequest::Execute,
                        action_id: action_id.clone(),
                        outer_context: *context,
                        context: EventContext { initiator: Initiator::Action, silent: true },
                        steps,
                        error,
                    },
                )
            },
            SystemEvent::RequestActionExecuteExported { action_id, context } => {
                match registry.find(action_id.as_str()) {
                    None => ActionsReaction::Nothing,
                    Some(k) => {
                        assert(registry@[k as int] == registry.actions@[k as int]@);
                        if registry.actions[k].export {
                            let mut steps: Vec<CommandAction> = Vec::new();
                            let error = registry.plan_into(action_id.as_str(), 0, &mut steps);
                            assert(commands_view(Seq::<CommandAction>::empty())
                                =~= Seq::<CommandView>::empty());
                            assert(Seq::<CommandView>::empty() + spec_plan(
                                registry@,
                                action_id@,
                                0,
                            ).0 =~= spec_plan(registry@, action_id@, 0).0);
                            ActionsReaction::Run(
                                ActionJob {
                                    kind: ActionRequest::Exported,
                                    action_id: action_id.clone(),
                                    outer_context: *context,
                                    context: EventContext {
                                        initiator: Initiator::Action,
                                        silent: true,
                                    },
                                    steps,
                                    error,
                                },
                            )
                        } else {
                            ActionsReaction::Refuse(
                                Notification {
                                    id: None,
                                    summary: to_string("Ошибка безопасности"),
                                    body: join3(
                                        "Экшен '",
                                        action_id.as_str(),
                                        "' не экспортирован для внешнего вызова",
                                    ),
                                    appname: None,
                                    critical: false,
                                },
                            )
                        }
                    },
                }
            },
            SystemEvent::RequestCommandExecute { command, context } => {
                let mut steps: Vec<CommandAction> = Vec::new();
                let mut cmds: Vec<CommandAction> = Vec::new();
                cmds.push(command.duplicate());
                assert(commands_view(cmds@) =~= seq![command@]);
                let error = registry.plan_cmds_into(&cmds, 0, &mut steps);
                assert(commands_view(Seq::<CommandAction>::empty()) =~= Seq::<CommandView>::empty());
                assert(Seq::<CommandView>::empty() + spec_plan_cmds(
                    registry@,
                    seq![command@],
                    0,
                    0,
                ).0 =~= spec_plan_cmds(registry@, seq![command@], 0, 0).0);
                let empty = String::new();
                ActionsReaction::Run(
                    ActionJob {
                        kind: ActionRequest::Command,
                        action_id: empty,
                        outer_context: *context,
                        context: *context,
                        steps,
                        error,
                    },
                )
            },
            _ => ActionsReaction::Nothing,
        }
    }

    /// The event that a step publishes with the job's context; `None` for a
    /// `run` step, which spawns a process instead.
    pub fn step_event(step: &CommandAction, context: EventContext) -> (r: Option<SystemEvent>)
        ensures
            match *step {
                CommandAction::Run(_) => r is None,
                CommandAction::Vpn(s) => r matches Some(
                    SystemEvent::RequestVpnSwitch { state_id, context: c },
                ) && state_id@ == s@ && c == context,
                CommandAction::Daemon(d, a) => r matches Some(
                    SystemEvent::RequestDaemonControl { daemon_id, action, context: c },
                ) && daemon_id@ == d@ && action == a && c == context,
                CommandAction::Action(a) => r matches Some(
                    SystemEvent::RequestActionExecute { action_id, context: c },
                ) && action_id@ == a@ && c == context,
                CommandAction::Workspace(w, m) => r matches Some(
                    SystemEvent::RequestWorkspaceFocus { workspace_id, monitor_name, context: c },
                ) && workspace_id@ == w@ && opt_string_view(monitor_name) == opt_string_view(m)
                    && c == context,
            },
    {
        match step {
            CommandAction::Run(_) => None,
            CommandAction::Vpn(s) => Some(SystemEvent::RequestVpnSwitch { state_id: s.clone(), context }),
            CommandAction::Daemon(d, a) => Some(
                SystemEvent::RequestDaemonControl { daemon_id: d.clone(), action: *a, context },
            ),
            CommandAction::Action(a) => Some(
                SystemEvent::RequestActionExecute { action_id: a.clone(), context },
            ),
            CommandAction::Workspace(w, m) => Some(
                SystemEvent::RequestWorkspaceFocus {
                    workspace_id: w.clone(),
                    monitor_name: clone_opt_string(m),
                    context,
                },
            ),
        }
    }

    /// The error text for a `run` step whose process could not be spawned.
    pub fn spawn_failure_message(err: &str) -> (r: String)
        ensures
            r@ == "Failed to spawn command: "@ + err@,
    {
        join2("Failed to spawn command: ", err)
    }

    /// The outcome of a job: the spawn failure that stopped it, else the
    /// error of its plan, else success.
    pub fn job_result(job: &ActionJob, spawn_error: Option<String>) -> (r: Result<(), String>)
        ensures
            match spawn_error {
                Some(e) => r == Err::<(), String>(e),
                None => match job.error {
                    Some(e) => r matches Err(x) && x@ == e@,
                    None => r is Ok,
                },
            },
    {
        match spawn_error {
            Some(e) => Err(e),
            None => match &job.error {
                Some(e) => Err(e.clone()),
                None => Ok(()),
            },
        }
    }

    /// The notification that ends a job: for a whole action, success (unless
    /// the request was silent) or the error; for a single command, none.
    pub fn job_notification(job: &ActionJob, result: &Result<(), String>) -> (r: Option<Notification>)
        ensures
            job.kind == ActionRequest::Command ==> r is None,
            job.kind != ActionRequest::Command ==> match *result {
                Ok(_) => if job.outer_context.silent {
                    r is None
                } else {
                    r matches Some(n) && n.summary@ == "Действие выполнено"@ && n.body@ == "Режим "@
                        + job.action_id@ + " успешно применен"@ && (n.appname matches Some(a) && a@ == app_name())
                        && !n.critical && n.id is None
                },
                Err(e) => r matches Some(n) && n.summary@ == "Ошибка действия"@ && n.body@
                    == "Не удалось применить "@ + job.action_id@ + ": "@ + e@ && (n.appname matches Some(a) && a@ == app_name()) && n.critical && n.id is None,
            },
    {
        if job.kind == ActionRequest::Command {
            return None;
        }
        match result {
            Ok(_) => if job.outer_context.silent {
                None
            } else {
                Some(
                    Notification {
                        id: None,
                        summary: to_string("Действие выполнено"),
                        body: join3("Режим ", job.action_id.as_str(), " успешно применен"),
                        appname: Some(to_string("de-configurator")),
                        critical: false,
                    },
                )
            },
            Err(e) => {
                let mut body = join3("Не удалось применить ", job.action_id.as_str(), ": ");
                body.append(e.as_str());
                Some(
                    Notification {
                        id: None,
                        summary: to_string("Ошибка действия"),
                        body,
                        appname: Some(to_string("de-configurator")),
                        critical: true,
                    },
                )
            },
        }
    }
}

} // verus!
