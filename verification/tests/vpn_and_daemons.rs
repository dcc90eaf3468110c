use de_configurator::app::App;
use de_configurator::base::event_bus::{DaemonAction, EventContext, Initiator, SystemEvent};
use de_configurator::config::{Config, VpnStateConfig as OldStateConfig};
use de_configurator::event::{DomainEvent, InputEvent};
use de_configurator::features::daemons::config::{DaemonConfig, DaemonsConfig};
use de_configurator::features::daemons::event::{DaemonAction as NotifiedAction, DaemonDomainEvent};
use de_configurator::features::daemons::feature::{DaemonApp, DaemonDecision, DaemonsFeature};
use de_configurator::features::daemons::manager::{path_file_name, DaemonManager};
use de_configurator::features::daemons::notifier::DaemonNotificationService;
use de_configurator::features::vpn::config::{VpnConfig, VpnStateConfig};
use de_configurator::features::vpn::manager::{IpInfo, VpnFeature, VpnManager};
use de_configurator::features::vpn::notifier::VpnNotificationService;
use de_configurator::features::vpn::state::{
    Connected, Disconnected, Transitioning, VpnApp, VpnCommand, VpnPhase, VpnState,
};
use de_configurator::notifier::NotificationService;
use de_configurator::vpn::{FetchStep, VpnManager as FixedVpnManager, VpnState as FixedState};

fn strings(v: &[&str]) -> Vec<String> {
    v.iter().map(|s| s.to_string()).collect()
}

fn profile(id: &str, interface: Option<&str>, up: &[&str], down: &[&str]) -> VpnStateConfig {
    VpnStateConfig {
        id: id.to_string(),
        hotkey_str: String::new(),
        hotkey_id: None,
        display_name: id.to_uppercase(),
        interface: interface.map(|s| s.to_string()),
        up_cmd: strings(up),
        down_cmd: strings(down),
    }
}

fn profiles() -> Vec<VpnStateConfig> {
    vec![
        profile("off", None, &[], &[]),
        profile("warp", Some("w"), &["wg-quick", "up", "w"], &["wg-quick", "down", "w"]),
        profile("fin", Some("fl"), &["wg-quick", "up", "fl"], &["wg-quick", "down", "fl"]),
    ]
}

fn keybind() -> EventContext {
    EventContext { initiator: Initiator::Keybind, silent: false }
}

fn request(id: &str) -> SystemEvent {
    SystemEvent::RequestVpnSwitch { state_id: id.to_string(), context: keybind() }
}

#[test]
fn vpn_state_objects_describe_themselves() {
    assert_eq!(Disconnected.state_id(), "off");
    assert_eq!(Disconnected.display_name(), "VPN выключен");
    assert!(!Disconnected.is_transitioning());
    let c = Connected { id: "warp".to_string(), display_name: "Warp".to_string() };
    assert_eq!(c.state_id(), "warp");
    assert!(!c.is_transitioning());
    let t = Transitioning { target_id: "fin".to_string(), display_name: "Fin".to_string() };
    assert_eq!(t.state_id(), "fin");
    assert_eq!(t.display_name(), "Fin");
    assert!(t.is_transitioning());
}

#[test]
fn a_request_starts_a_switch_and_blocks_others() {
    let mut app = VpnApp::new(VpnConfig { states: profiles() });
    match app.handle_event(&request("warp"), 10_000) {
        VpnCommand::Switch { index, context } => {
            assert_eq!(index, 1);
            assert_eq!(context, keybind());
        },
        other => panic!("{:?}", other),
    }
    assert!(matches!(app.state, VpnPhase::Transitioning { .. }));
    assert!(matches!(app.handle_event(&request("fin"), 10_100), VpnCommand::Nothing));
    assert!(matches!(app.handle_event(&request("nope"), 20_000), VpnCommand::Nothing));
}

#[test]
fn requests_within_a_second_are_throttled() {
    let mut app = VpnApp::new(VpnConfig { states: profiles() });
    assert!(matches!(app.handle_event(&request("warp"), 5_000), VpnCommand::Switch { .. }));
    app.handle_event(
        &SystemEvent::VpnStateChanged {
            state_id: "warp".to_string(),
            display_name: "WARP".to_string(),
            ip_info: None,
            context: keybind(),
        },
        5_100,
    );
    assert!(matches!(app.state, VpnPhase::Connected { .. }));
    assert!(matches!(app.handle_event(&request("warp"), 5_999), VpnCommand::Nothing));
    assert_eq!(app.last_triggers[1], Some(5_000));
    assert!(matches!(app.handle_event(&request("warp"), 6_000), VpnCommand::Switch { index: 1, .. }));
}

#[test]
fn a_failed_switch_asks_for_detection() {
    let mut app = VpnApp::new(VpnConfig { states: profiles() });
    let failed = SystemEvent::VpnStateTransitionFailed {
        state_id: "warp".to_string(),
        display_name: "WARP".to_string(),
        error: "boom".to_string(),
        context: keybind(),
    };
    assert!(matches!(app.handle_event(&failed, 1), VpnCommand::Redetect));
    app.detected(0);
    assert!(matches!(app.state, VpnPhase::Disconnected));
    app.detected(2);
    match &app.state {
        VpnPhase::Connected { id, .. } => assert_eq!(id, "fin"),
        other => panic!("{:?}", other),
    }
    app.handle_event(
        &SystemEvent::VpnStateChanged { state_id: "off".to_string(), display_name: "x".to_string(), ip_info: None, context: keybind() },
        2,
    );
    assert!(matches!(app.state, VpnPhase::Disconnected));
}

#[test]
fn detection_prefers_an_interface_that_is_up() {
    let m = VpnManager::new();
    let states = profiles();
    assert_eq!(m.detect_state(&states, &vec![false, false, true]), Some(2));
    assert_eq!(m.detect_state(&states, &vec![false, true, true]), Some(1));
    assert_eq!(m.detect_state(&states, &vec![true, false, false]), Some(0));
    assert_eq!(m.detect_state(&vec![profile("a", Some("a"), &[], &[])], &vec![false]), None);
}

#[test]
fn a_switch_takes_down_the_others_then_brings_the_target_up() {
    let m = VpnManager::new();
    let states = profiles();
    let plan = m.switch_plan(&states, 2);
    assert_eq!(plan.len(), 2);
    assert_eq!(plan[0].interface, "w");
    assert!(plan[0].when_up);
    assert_eq!(plan[0].cmd, strings(&["wg-quick", "down", "w"]));
    assert_eq!(plan[1].interface, "fl");
    assert!(!plan[1].when_up);
    assert_eq!(plan[1].cmd, strings(&["wg-quick", "up", "fl"]));
    let off = m.switch_plan(&states, 0);
    assert_eq!(off.len(), 2);
    assert_eq!(off[0].interface, "w");
    assert_eq!(off[1].interface, "fl");
    assert!(off.iter().all(|s| s.when_up));
}

#[test]
fn switch_reports_and_notifications() {
    let states = profiles();
    let info = IpInfo { query: "1.2.3.4".to_string(), city: "Helsinki".to_string(), country: "Finland".to_string() };
    assert_eq!(info.describe(), "IP: 1.2.3.4 (Helsinki, Finland)");
    let started = VpnFeature::transition_started(&states[2], keybind());
    let n = VpnNotificationService::notification_for(&started).unwrap();
    assert_eq!(n.id, Some(4224));
    assert_eq!(n.summary, "Переключение: FIN");
    assert_eq!(n.body, "Установка соединения с FIN...");
    let off_started = VpnFeature::transition_started(&states[0], keybind());
    assert_eq!(VpnNotificationService::notification_for(&off_started).unwrap().body, "Отключение всех VPN туннелей...");
    let done = VpnFeature::switch_outcome(&states[2], Ok(Some(info)), keybind());
    let n = VpnNotificationService::notification_for(&done).unwrap();
    assert_eq!(n.summary, "Успешно: FIN");
    assert_eq!(n.body, "Соединение установлено\nIP: 1.2.3.4 (Helsinki, Finland)");
    assert!(!n.critical);
    let failed = VpnFeature::switch_outcome(&states[1], Err("down".to_string()), keybind());
    let n = VpnNotificationService::notification_for(&failed).unwrap();
    assert_eq!(n.summary, "Ошибка: WARP");
    assert_eq!(n.body, "down");
    assert!(n.critical);
    let initial = VpnFeature::initial_report(&states[1]);
    assert!(VpnNotificationService::notification_for(&initial).is_none());
    assert!(VpnNotificationService::notification_for(&request("warp")).is_none());
}

#[test]
fn fixed_profiles_detect_and_plan() {
    assert_eq!(FixedVpnManager::detect_state(true, true), FixedState::Finland);
    assert_eq!(FixedVpnManager::detect_state(false, true), FixedState::Warp);
    assert_eq!(FixedVpnManager::detect_state(false, false), FixedState::Off);
    assert_eq!(FixedState::Off.text(), "VPN выключен");
    assert_eq!(FixedState::Finland.text(), "Финляндия");
    assert_eq!(FixedVpnManager::interface_path("fl"), "/sys/class/net/fl");
    let (steps, fetch) = FixedVpnManager::switch_plan(FixedState::Warp);
    assert!(fetch);
    assert_eq!(steps[0].interface, "fl");
    assert!(steps[0].when_up);
    assert_eq!(steps[0].cmd, strings(&["doas", "wg-quick", "down", "fl"]));
    assert_eq!(steps[1].cmd, strings(&["doas", "wg-quick", "up", "w"]));
    let (steps, fetch) = FixedVpnManager::switch_plan(FixedState::Off);
    assert!(!fetch);
    assert_eq!(steps.len(), 2);
    let _ = FixedVpnManager::new();
}

#[test]
fn command_errors_name_the_command_line() {
    let args = strings(&["wg-quick", "up", "w"]);
    assert_eq!(FixedVpnManager::command_text("doas", &args), "doas wg-quick up w");
    assert_eq!(
        FixedVpnManager::launch_error_message("doas", &args, "not found"),
        "Не удалось запустить команду 'doas wg-quick up w': not found"
    );
    assert_eq!(
        FixedVpnManager::failure_message("doas", &args, "  permission denied\n"),
        "Команда 'doas wg-quick up w' завершилась ошибкой: permission denied"
    );
}

#[test]
fn address_fetch_retries_four_times_with_growing_delays() {
    assert_eq!(FixedVpnManager::retry_delay_ms(0), 400);
    assert_eq!(FixedVpnManager::retry_delay_ms(3), 1600);
    match FixedVpnManager::after_attempt(0, Err("x".to_string())) {
        FetchStep::Retry { attempt, delay_ms } => {
            assert_eq!(attempt, 1);
            assert_eq!(delay_ms, 800);
        },
        other => panic!("{:?}", other),
    }
    match FixedVpnManager::after_attempt(3, Err("timeout".to_string())) {
        FetchStep::Failed(m) => assert_eq!(m, "Не удалось получить IP адрес после подключения: timeout"),
        other => panic!("{:?}", other),
    }
    let info = IpInfo { query: "q".to_string(), city: "c".to_string(), country: "n".to_string() };
    assert!(matches!(FixedVpnManager::after_attempt(2, Ok(info)), FetchStep::Done(_)));
}

fn old_state(id: &str, iface: Option<&str>) -> OldStateConfig {
    let hotkey: global_hotkey::hotkey::HotKey = "ctrl+shift+w".parse().unwrap();
    OldStateConfig {
        id: id.to_string(),
        hotkey_str: "ctrl+shift+w".to_string(),
        hotkey_id: hotkey.id(),
        display_name: id.to_string(),
        interface: iface.map(|s| s.to_string()),
        up_cmd: vec![],
        down_cmd: vec![],
    }
}

#[test]
fn stand_alone_app_switches_one_at_a_time() {
    let mut app = App::new(Config { states: vec![old_state("off", None), old_state("warp", Some("w"))] });
    let req = InputEvent::RequestStateSwitch("warp".to_string());
    assert_eq!(app.handle_event(&req, 1_000), Some(1));
    assert_eq!(app.handle_event(&InputEvent::RequestStateSwitch("off".to_string()), 3_000), None);
    app.transition_finished();
    assert_eq!(app.handle_event(&req, 1_500), None);
    assert_eq!(app.handle_event(&req, 2_000), Some(1));
    let started = App::started_event(&app.config.states[1]);
    let n = NotificationService::notification_for(&started);
    assert_eq!(n.summary, "Переключение: warp");
    assert_eq!(n.body, "Установка соединения с warp...");
    let done = App::outcome_event(&app.config.states[0], Ok(None));
    assert_eq!(NotificationService::notification_for(&done).body, "Все туннели успешно остановлены");
    match App::outcome_event(&app.config.states[1], Err("e".to_string())) {
        DomainEvent::TransitionFailed { error, .. } => assert_eq!(error, "e"),
        other => panic!("{:?}", other),
    }
}

fn daemon(id: &str, start: &[&str], stop: Option<&[&str]>, autostart: bool) -> DaemonConfig {
    DaemonConfig {
        id: id.to_string(),
        display_name: id.to_uppercase(),
        autostart,
        start_cmd: strings(start),
        stop_cmd: stop.map(strings),
    }
}

#[test]
fn process_names_come_from_the_program_path() {
    for p in ["/usr/bin/picom", "picom", "/usr/bin/", "./x/.", "a/..", "/", "", ".", "a//b/", "../a"] {
        let std_name = std::path::Path::new(p).file_name().and_then(|n| n.to_str()).map(|s| s.to_string());
        assert_eq!(path_file_name(p), std_name, "{:?}", p);
    }
    assert_eq!(DaemonApp::process_name(&daemon("p", &["/usr/bin/picom", "-b"], None, false)), "picom");
    assert_eq!(DaemonApp::process_name(&daemon("dots", &["/opt/.."], None, false)), "dots");
}

#[test]
fn pgrep_output_gives_pids() {
    assert_eq!(DaemonManager::parse_pids("123\n456\n"), vec![123, 456]);
    assert_eq!(DaemonManager::parse_pids(" 7 \r\nx\n\n99999999999\n8"), vec![7, 8]);
    assert_eq!(DaemonManager::parse_pids(""), Vec::<u32>::new());
    let _ = DaemonManager::new();
}

#[test]
fn start_commands_split_into_program_and_arguments() {
    assert_eq!(
        DaemonManager::start_command(&strings(&["picom", "-b", "--x"])),
        Ok(("picom".to_string(), strings(&["-b", "--x"])))
    );
    assert_eq!(DaemonManager::start_command(&vec![]), Err("Пустая команда запуска".to_string()));
    assert_eq!(
        DaemonManager::spawn_error_message("picom", "No such file"),
        "Не удалось запустить процесс 'picom': No such file"
    );
    assert_eq!(
        DaemonManager::kill_error_message(4321, "denied"),
        "Не удалось выполнить kill для PID 4321: denied"
    );
}

#[test]
fn autostart_asks_quietly_for_each_marked_daemon() {
    let cfg = DaemonsConfig {
        daemons: vec![daemon("a", &["a"], None, true), daemon("b", &["b"], None, false), daemon("c", &["c"], None, true)],
    };
    let reqs = DaemonsFeature::autostart_requests(&cfg);
    assert_eq!(reqs.len(), 2);
    match &reqs[1] {
        SystemEvent::RequestDaemonControl { daemon_id, action, context } => {
            assert_eq!(daemon_id, "c");
            assert_eq!(*action, DaemonAction::On);
            assert_eq!(*context, EventContext { initiator: Initiator::Direct, silent: true });
        },
        other => panic!("{:?}", other),
    }
}

#[test]
fn control_decisions_depend_on_whether_the_daemon_runs() {
    let d = daemon("picom", &["picom"], None, false);
    let loud = keybind();
    let quiet = EventContext { initiator: Initiator::Direct, silent: true };
    assert!(matches!(DaemonApp::decide(&d, DaemonAction::On, loud, false), DaemonDecision::Start));
    match DaemonApp::decide(&d, DaemonAction::On, loud, true) {
        DaemonDecision::Ignore(Some(m)) => assert_eq!(m, "Запрос на запуск 'picom' проигнорирован, процесс уже запущен"),
        other => panic!("{:?}", other),
    }
    assert!(matches!(DaemonApp::decide(&d, DaemonAction::On, quiet, true), DaemonDecision::Ignore(None)));
    match DaemonApp::decide(&d, DaemonAction::Off, loud, false) {
        DaemonDecision::Ignore(Some(m)) => assert_eq!(m, "Запрос на остановку 'picom' проигнорирован, процесс не запущен"),
        other => panic!("{:?}", other),
    }
    assert!(matches!(DaemonApp::decide(&d, DaemonAction::Off, loud, true), DaemonDecision::Stop));
    assert!(matches!(DaemonApp::decide(&d, DaemonAction::Toggle, loud, true), DaemonDecision::Stop));
    assert!(matches!(DaemonApp::decide(&d, DaemonAction::Toggle, loud, false), DaemonDecision::Start));
}

#[test]
fn control_requests_name_a_configured_daemon() {
    let app = DaemonApp::new(DaemonsConfig { daemons: vec![daemon("a", &["a"], None, false), daemon("b", &["b"], None, false)] });
    let e = SystemEvent::RequestDaemonControl { daemon_id: "b".to_string(), action: DaemonAction::Toggle, context: keybind() };
    assert_eq!(app.control_request(&e), Some((1, DaemonAction::Toggle, keybind())));
    let e = SystemEvent::RequestDaemonControl { daemon_id: "z".to_string(), action: DaemonAction::On, context: keybind() };
    assert_eq!(app.control_request(&e), None);
    assert_eq!(app.control_request(&request("b")), None);
}

#[test]
fn outcomes_and_notifications_of_daemons() {
    let d = daemon("picom", &["picom"], Some(&["pkill", "picom"]), false);
    let started = DaemonApp::start_outcome(&d, Ok(()), keybind());
    let domain = DaemonDomainEvent::from_system(&started).unwrap();
    let n = DaemonNotificationService::notification_for(&domain);
    assert_eq!(n.id, Some(4225));
    assert_eq!(n.summary, "Демон: PICOM");
    assert_eq!(n.body, "Процесс PICOM запущен");
    let failed = DaemonApp::start_outcome(&d, Err("no binary".to_string()), keybind());
    let n = DaemonNotificationService::notification_for(&DaemonDomainEvent::from_system(&failed).unwrap());
    assert_eq!(n.summary, "Ошибка демона: PICOM");
    assert_eq!(n.body, "Не удалось выполнить 'включение' для PICOM: no binary");
    assert!(n.critical);
    let (cmd, stopped) = DaemonApp::stop_outcome(&d, Ok(()), keybind());
    assert_eq!(cmd, Some(strings(&["pkill", "picom"])));
    let n = DaemonNotificationService::notification_for(&DaemonDomainEvent::from_system(&stopped).unwrap());
    assert_eq!(n.body, "Процесс PICOM остановлен");
    let (cmd, failed) = DaemonApp::stop_outcome(&d, Err("kill failed".to_string()), keybind());
    assert_eq!(cmd, None);
    match DaemonDomainEvent::from_system(&failed).unwrap() {
        DaemonDomainEvent::TransitionFailed { action, .. } => assert_eq!(action, NotifiedAction::Off),
        other => panic!("{:?}", other),
    }
    let quiet = DaemonApp::start_outcome(&d, Ok(()), EventContext { initiator: Initiator::Direct, silent: true });
    assert!(DaemonDomainEvent::from_system(&quiet).is_none());
    assert_eq!(NotifiedAction::Toggle.text(), "переключение");
    assert_eq!(NotifiedAction::from_bus(DaemonAction::Off), NotifiedAction::Off);
}

#[test]
fn a_step_runs_when_its_interface_is_as_expected() {
    let (steps, _) = FixedVpnManager::switch_plan(FixedState::Finland);
    assert!(steps[0].should_run(true));
    assert!(!steps[0].should_run(false));
    assert!(steps[1].should_run(false));
    assert!(!steps[1].should_run(true));
}

fn simulate(steps: &[de_configurator::features::vpn::manager::SwitchStep], up: &mut std::collections::HashSet<String>) {
    for s in steps {
        if s.should_run(up.contains(&s.interface)) {
            if s.when_up {
                up.remove(&s.interface);
            } else {
                up.insert(s.interface.clone());
            }
        }
    }
}

#[test]
fn after_a_switch_detection_reports_the_target() {
    let m = VpnManager::new();
    let states = profiles();
    for target in 0..states.len() {
        for start in [vec![], vec!["w"], vec!["fl"], vec!["w", "fl"]] {
            let mut up: std::collections::HashSet<String> = start.iter().map(|s| s.to_string()).collect();
            simulate(&m.switch_plan(&states, target), &mut up);
            let flags: Vec<bool> = states
                .iter()
                .map(|s| s.interface.as_ref().map(|i| up.contains(i)).unwrap_or(false))
                .collect();
            assert_eq!(m.detect_state(&states, &flags), Some(target), "{} {:?}", target, start);
        }
    }
}

#[test]
fn after_a_fixed_switch_detection_reports_the_target() {
    for target in [FixedState::Off, FixedState::Warp, FixedState::Finland] {
        for start in [vec![], vec!["w"], vec!["fl"], vec!["w", "fl"]] {
            let mut up: std::collections::HashSet<String> = start.iter().map(|s| s.to_string()).collect();
            let (steps, _) = FixedVpnManager::switch_plan(target);
            simulate(&steps, &mut up);
            assert_eq!(FixedVpnManager::detect_state(up.contains("fl"), up.contains("w")), target);
        }
    }
}

#[test]
fn a_failed_switch_with_nothing_detected_is_disconnected() {
    let mut app = VpnApp::new(VpnConfig { states: vec![profile("warp", Some("w"), &["up"], &["down"])] });
    assert!(matches!(app.handle_event(&request("warp"), 5_000), VpnCommand::Switch { .. }));
    let failed = SystemEvent::VpnStateTransitionFailed {
        state_id: "warp".to_string(),
        display_name: "WARP".to_string(),
        error: "boom".to_string(),
        context: keybind(),
    };
    assert!(matches!(app.handle_event(&failed, 5_100), VpnCommand::Redetect));
    assert_eq!(VpnManager::new().detect_state(&app.config.states, &vec![false]), None);
    app.nothing_detected();
    assert!(matches!(app.state, VpnPhase::Disconnected));
    assert!(matches!(app.handle_event(&request("warp"), 7_000), VpnCommand::Switch { .. }));
}
