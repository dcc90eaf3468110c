use de_configurator::base::event_bus::{CommandAction, DaemonAction, EventContext, Initiator, SystemEvent};
use de_configurator::features::actions::config::{ActionConfig, ActionsConfig};
use de_configurator::features::actions::feature::{ActionJob, ActionRequest, ActionsFeature, ActionsReaction};
use de_configurator::features::actions::registry::{
    ActionReferenceCommand, ActionRegistry, DaemonControlCommand, RunCommand, VpnSwitchCommand,
    WorkspaceFocusCommand,
};
use de_configurator::features::triggers::config::{TriggerConfig, TriggerType};
use de_configurator::features::triggers::{matches_opt_value, matches_value, TriggersFeature};

fn ctx(initiator: Initiator, silent: bool) -> EventContext {
    EventContext { initiator, silent }
}

fn action(id: &str, export: bool, commands: Vec<CommandAction>) -> ActionConfig {
    ActionConfig { id: id.to_string(), export, commands }
}

fn registry(actions: Vec<ActionConfig>) -> ActionRegistry {
    ActionRegistry::new(ActionsConfig { actions })
}

fn run_job(r: ActionsReaction) -> ActionJob {
    match r {
        ActionsReaction::Run(job) => job,
        other => panic!("expected a job, got {:?}", other),
    }
}

#[test]
fn event_context_is_read_from_every_event() {
    let c = ctx(Initiator::Ipc, true);
    let e = SystemEvent::RequestVpnSwitch { state_id: "w".to_string(), context: c };
    assert_eq!(*e.context(), c);
    let e = SystemEvent::WmNodeAdded {
        monitor_name: "m".to_string(),
        desktop_name: "d".to_string(),
        node_id: "0x1".to_string(),
        class_name: None,
        context: ctx(Initiator::Trigger, false),
    };
    assert_eq!(*e.context(), ctx(Initiator::Trigger, false));
}

#[test]
fn command_structs_give_their_commands() {
    assert_eq!(RunCommand { parts: vec!["ls".to_string()] }.command(), CommandAction::Run(vec!["ls".to_string()]));
    assert_eq!(VpnSwitchCommand { state_id: "w".to_string() }.command(), CommandAction::Vpn("w".to_string()));
    assert_eq!(
        DaemonControlCommand { daemon_id: "p".to_string(), action: DaemonAction::Off }.command(),
        CommandAction::Daemon("p".to_string(), DaemonAction::Off)
    );
    assert_eq!(ActionReferenceCommand { action_id: "a".to_string() }.command(), CommandAction::Action("a".to_string()));
    assert_eq!(
        WorkspaceFocusCommand { workspace_id: "b".to_string(), monitor_name: None }.command(),
        CommandAction::Workspace("b".to_string(), None)
    );
}

#[test]
fn an_action_unfolds_nested_actions_in_order() {
    let reg = registry(vec![
        action("inner", false, vec![CommandAction::Vpn("warp".to_string())]),
        action(
            "outer",
            true,
            vec![
                CommandAction::Run(vec!["a".to_string()]),
                CommandAction::Action("inner".to_string()),
                CommandAction::Run(vec![]),
                CommandAction::Daemon("picom".to_string(), DaemonAction::Off),
            ],
        ),
    ]);
    let job = run_job(ActionsFeature::handle_event(
        &reg,
        &SystemEvent::RequestActionExecute { action_id: "outer".to_string(), context: ctx(Initiator::Keybind, false) },
    ));
    assert_eq!(job.kind, ActionRequest::Execute);
    assert_eq!(job.context, ctx(Initiator::Action, true));
    assert_eq!(job.outer_context, ctx(Initiator::Keybind, false));
    assert_eq!(
        job.steps,
        vec![
            CommandAction::Run(vec!["a".to_string()]),
            CommandAction::Vpn("warp".to_string()),
            CommandAction::Daemon("picom".to_string(), DaemonAction::Off)
        ]
    );
    assert_eq!(job.error, None);
}

#[test]
fn a_self_referencing_action_stops_at_the_depth_limit() {
    let reg = registry(vec![action("loop", false, vec![
        CommandAction::Vpn("w".to_string()),
        CommandAction::Action("loop".to_string()),
    ])]);
    let mut out = Vec::new();
    let err = reg.plan_into("loop", 0, &mut out);
    assert_eq!(err, Some("Max recursion depth exceeded for action: loop".to_string()));
    assert_eq!(out.len(), 11);
    let mut out2 = Vec::new();
    assert_eq!(reg.plan_into("missing", 0, &mut out2), Some("Action not found: missing".to_string()));
    assert!(out2.is_empty());
}

#[test]
fn the_last_action_of_a_name_counts() {
    let reg = registry(vec![
        action("a", false, vec![CommandAction::Vpn("one".to_string())]),
        action("a", false, vec![CommandAction::Vpn("two".to_string())]),
    ]);
    assert_eq!(reg.find("a"), Some(1));
    let mut out = Vec::new();
    assert_eq!(reg.plan_into("a", 0, &mut out), None);
    assert_eq!(out, vec![CommandAction::Vpn("two".to_string())]);
}

#[test]
fn exported_requests_need_an_exported_action() {
    let reg = registry(vec![action("private", false, vec![]), action("public", true, vec![])]);
    match ActionsFeature::handle_event(
        &reg,
        &SystemEvent::RequestActionExecuteExported { action_id: "private".to_string(), context: ctx(Initiator::Ipc, false) },
    ) {
        ActionsReaction::Refuse(n) => {
            assert_eq!(n.summary, "Ошибка безопасности");
            assert_eq!(n.body, "Экшен 'private' не экспортирован для внешнего вызова");
        },
        other => panic!("{:?}", other),
    }
    let job = run_job(ActionsFeature::handle_event(
        &reg,
        &SystemEvent::RequestActionExecuteExported { action_id: "public".to_string(), context: ctx(Initiator::Ipc, false) },
    ));
    assert_eq!(job.kind, ActionRequest::Exported);
    assert!(matches!(
        ActionsFeature::handle_event(
            &reg,
            &SystemEvent::RequestActionExecuteExported { action_id: "nope".to_string(), context: ctx(Initiator::Ipc, false) },
        ),
        ActionsReaction::Nothing
    ));
}

#[test]
fn a_single_command_runs_in_its_own_context() {
    let reg = registry(vec![]);
    let c = ctx(Initiator::Trigger, false);
    let job = run_job(ActionsFeature::handle_event(
        &reg,
        &SystemEvent::RequestCommandExecute { command: CommandAction::Run(vec!["x".to_string()]), context: c },
    ));
    assert_eq!(job.kind, ActionRequest::Command);
    assert_eq!(job.context, c);
    assert_eq!(job.steps, vec![CommandAction::Run(vec!["x".to_string()])]);
    assert!(ActionsFeature::job_notification(&job, &Ok(())).is_none());
}

#[test]
fn job_outcome_and_notifications() {
    let reg = registry(vec![action("game", false, vec![CommandAction::Action("gone".to_string())])]);
    let job = run_job(ActionsFeature::handle_event(
        &reg,
        &SystemEvent::RequestActionExecute { action_id: "game".to_string(), context: ctx(Initiator::Keybind, false) },
    ));
    assert_eq!(job.error, Some("Action not found: gone".to_string()));
    let result = ActionsFeature::job_result(&job, None);
    assert_eq!(result, Err("Action not found: gone".to_string()));
    let n = ActionsFeature::job_notification(&job, &result).unwrap();
    assert_eq!(n.summary, "Ошибка действия");
    assert_eq!(n.body, "Не удалось применить game: Action not found: gone");
    assert!(n.critical);
    let spawn = ActionsFeature::spawn_failure_message("No such file");
    assert_eq!(spawn, "Failed to spawn command: No such file");
    assert_eq!(ActionsFeature::job_result(&job, Some(spawn.clone())), Err(spawn));
    let ok = ActionsFeature::job_notification(&job, &Ok(())).unwrap();
    assert_eq!(ok.summary, "Действие выполнено");
    assert_eq!(ok.body, "Режим game успешно применен");
    assert!(!ok.critical);
}

#[test]
fn step_events_carry_the_context() {
    let c = ctx(Initiator::Action, true);
    assert!(ActionsFeature::step_event(&CommandAction::Run(vec!["x".to_string()]), c).is_none());
    match ActionsFeature::step_event(&CommandAction::Workspace("b".to_string(), Some("HDMI-0".to_string())), c) {
        Some(SystemEvent::RequestWorkspaceFocus { workspace_id, monitor_name, context }) => {
            assert_eq!(workspace_id, "b");
            assert_eq!(monitor_name.as_deref(), Some("HDMI-0"));
            assert_eq!(context, c);
        },
        other => panic!("{:?}", other),
    }
}

#[test]
fn filters_match_when_absent_or_equal() {
    assert!(matches_value(&None, "x"));
    assert!(matches_value(&Some("x".to_string()), "x"));
    assert!(!matches_value(&Some("x".to_string()), "y"));
    assert!(matches_opt_value(&None, &None));
    assert!(!matches_opt_value(&Some("x".to_string()), &None));
    assert!(matches_opt_value(&Some("x".to_string()), &Some("x".to_string())));
    assert!(!matches_opt_value(&Some("x".to_string()), &Some("y".to_string())));
}

fn wm_trigger(id: &str, event: &str, desktop: Option<&str>, class: Option<&str>, cmd: CommandAction) -> TriggerConfig {
    TriggerConfig {
        id: id.to_string(),
        trigger_type: TriggerType::Wm {
            event_type: event.to_string(),
            desktop: desktop.map(|s| s.to_string()),
            monitor: None,
            class: class.map(|s| s.to_string()),
        },
        command: cmd,
    }
}

#[test]
fn wm_triggers_fire_on_matching_events_in_order() {
    let triggers = vec![
        wm_trigger("a", "desktop_focus", Some("HDMI-0_browser"), None, CommandAction::Vpn("warp".to_string())),
        wm_trigger("b", "node_focus", None, Some("Brave"), CommandAction::Run(vec!["x".to_string()])),
        wm_trigger("c", "desktop_focus", None, None, CommandAction::Action("any".to_string())),
        TriggerConfig {
            id: "t".to_string(),
            trigger_type: TriggerType::Interval { duration_secs: 5 },
            command: CommandAction::Vpn("off".to_string()),
        },
    ];
    let e = SystemEvent::WmDesktopFocused {
        monitor_name: "HDMI-0".to_string(),
        desktop_name: "HDMI-0_browser".to_string(),
        context: ctx(Initiator::Direct, true),
    };
    let reqs = TriggersFeature::wm_requests(&triggers, &e);
    assert_eq!(reqs.len(), 2);
    match &reqs[0] {
        SystemEvent::RequestCommandExecute { command, context } => {
            assert_eq!(*command, CommandAction::Vpn("warp".to_string()));
            assert_eq!(*context, ctx(Initiator::Trigger, true));
        },
        other => panic!("{:?}", other),
    }
    match &reqs[1] {
        SystemEvent::RequestCommandExecute { command, .. } => assert_eq!(*command, CommandAction::Action("any".to_string())),
        other => panic!("{:?}", other),
    }
    let focus = SystemEvent::WmNodeFocused {
        monitor_name: "m".to_string(),
        desktop_name: "d".to_string(),
        node_id: "0x1".to_string(),
        class_name: None,
        context: ctx(Initiator::Direct, true),
    };
    assert!(!TriggersFeature::fires_on(&triggers[1].trigger_type, &focus));
    assert!(!TriggersFeature::fires_on(&triggers[3].trigger_type, &e));
}

#[test]
fn interval_requests_are_loud() {
    match TriggersFeature::interval_request(&CommandAction::Vpn("w".to_string())) {
        SystemEvent::RequestCommandExecute { command, context } => {
            assert_eq!(command, CommandAction::Vpn("w".to_string()));
            assert_eq!(context, ctx(Initiator::Trigger, false));
        },
        other => panic!("{:?}", other),
    }
    let t = wm_trigger("a", "node_add", None, None, CommandAction::Action("x".to_string()));
    match TriggersFeature::fire_trigger(&t, &ctx(Initiator::Direct, false)) {
        SystemEvent::RequestCommandExecute { context, .. } => assert_eq!(context, ctx(Initiator::Trigger, false)),
        other => panic!("{:?}", other),
    }
}
