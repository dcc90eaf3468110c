use std::str::FromStr;
use de_configurator::base::event_bus::{CommandAction, DaemonAction, EventContext, Initiator, SystemEvent};
use de_configurator::base::hotkey_dispatcher::HotkeyRoutes;
use de_configurator::base::state_store::AppState;
use de_configurator::event::InputEvent;
use de_configurator::features::ipc::config::IpcConfig;
use de_configurator::features::ipc::feature::IpcFeature;
use de_configurator::features::keybinds::config::{KeybindConfig, KeybindsConfig};
use de_configurator::features::keybinds::feature::KeybindsFeature;
use de_configurator::features::wm::bspwm::{BspwmDriver, BspwmEvent};
use de_configurator::features::wm::{get_wm, register_wm, WmConfig, WmDriver, WmFeature, WmRegistry};
use de_configurator::features::workspaces::config::{WorkspaceConfig, WorkspacesConfig};
use de_configurator::features::workspaces::feature::{WmStep, WorkspacesFeature};
use de_configurator::features::keybinds::config::bind_hotkey;
use de_configurator::hotkey::{hotkey_text, HotkeyListener};

fn bind(text: &str, action: CommandAction) -> KeybindConfig {
    let hotkey_id = bind_hotkey(text).unwrap();
    KeybindConfig { hotkey_str: text.to_string(), hotkey_id, action }
}

#[test]
fn hotkeys_parse_through_global_hotkey() {
    let id = bind_hotkey("Ctrl+Shift+T").unwrap();
    let other: global_hotkey::hotkey::HotKey = "ctrl+shift+t".parse().unwrap();
    assert_eq!(id, other.id());
    assert_ne!(bind_hotkey("alt+c").unwrap(), id);
    let e = bind_hotkey("ctrl++t").unwrap_err();
    assert_eq!(e, "Не удалось распарсить хоткей 'ctrl++t': EmptyToken(\"ctrl++t\")");
}

#[test]
fn a_keybind_fires_at_most_once_a_second() {
    let config = KeybindsConfig {
        binds: vec![
            bind("alt+c", CommandAction::Run(vec!["alacritty".to_string()])),
            bind("alt+v", CommandAction::Vpn("warp".to_string())),
        ],
    };
    let mut last = KeybindsFeature::initial_presses(&config);
    assert_eq!(last, vec![None, None]);
    let id = config.binds[1].hotkey_id;
    match KeybindsFeature::on_press(&config, &mut last, id, 10_000) {
        Some(SystemEvent::RequestVpnSwitch { state_id, context }) => {
            assert_eq!(state_id, "warp");
            assert_eq!(context, EventContext { initiator: Initiator::Keybind, silent: false });
        },
        other => panic!("{:?}", other),
    }
    assert!(KeybindsFeature::on_press(&config, &mut last, id, 10_999).is_none());
    assert_eq!(last[1], Some(10_000));
    assert!(KeybindsFeature::on_press(&config, &mut last, id, 11_000).is_some());
    assert!(KeybindsFeature::on_press(&config, &mut last, 12345, 50_000).is_none());
    match KeybindsFeature::on_press(&config, &mut last, config.binds[0].hotkey_id, 11_000) {
        Some(SystemEvent::RequestCommandExecute { command, .. }) => {
            assert_eq!(command, CommandAction::Run(vec!["alacritty".to_string()]))
        },
        other => panic!("{:?}", other),
    }
}

#[test]
fn keybind_requests_match_their_commands() {
    let c = EventContext { initiator: Initiator::Keybind, silent: false };
    match KeybindsFeature::request_for(&CommandAction::Daemon("p".to_string(), DaemonAction::Toggle), c) {
        SystemEvent::RequestDaemonControl { daemon_id, action, .. } => {
            assert_eq!(daemon_id, "p");
            assert_eq!(action, DaemonAction::Toggle);
        },
        other => panic!("{:?}", other),
    }
    match KeybindsFeature::request_for(&CommandAction::Workspace("b".to_string(), None), c) {
        SystemEvent::RequestWorkspaceFocus { workspace_id, monitor_name, .. } => {
            assert_eq!(workspace_id, "b");
            assert_eq!(monitor_name, None);
        },
        other => panic!("{:?}", other),
    }
    assert!(matches!(
        KeybindsFeature::request_for(&CommandAction::Action("a".to_string()), c),
        SystemEvent::RequestActionExecute { .. }
    ));
}

fn changed(id: &str, running: bool) -> SystemEvent {
    SystemEvent::DaemonStateChanged {
        daemon_id: id.to_string(),
        display_name: id.to_string(),
        is_running: running,
        context: EventContext { initiator: Initiator::Direct, silent: true },
    }
}

#[test]
fn the_state_store_follows_reports() {
    let mut s = AppState::new();
    assert_eq!(s.get_vpn_state(), "");
    s.apply_event(&SystemEvent::VpnStateChanged {
        state_id: "warp".to_string(),
        display_name: "Warp".to_string(),
        ip_info: None,
        context: EventContext { initiator: Initiator::Direct, silent: true },
    });
    assert_eq!(s.get_vpn_state(), "warp");
    s.apply_event(&changed("picom", true));
    s.apply_event(&changed("picom", true));
    s.apply_event(&changed("dunst", true));
    assert!(s.is_daemon_running("picom"));
    assert_eq!(s.running_daemons.len(), 2);
    s.apply_event(&changed("picom", false));
    assert!(!s.is_daemon_running("picom"));
    assert!(s.is_daemon_running("dunst"));
    assert_eq!(s.get_vpn_state(), "warp");
    s.remove_daemon("never");
    let mut batch = AppState::new();
    batch.apply_events(&vec![changed("a", true), changed("b", true), changed("a", false), changed("b", true)]);
    assert!(!batch.is_daemon_running("a"));
    assert!(batch.is_daemon_running("b"));
    assert_eq!(batch.running_daemons.len(), 1);
    s.add_daemon("x".to_string());
    s.update_vpn_state("off".to_string());
    assert!(s.is_daemon_running("x"));
    assert_eq!(s.get_vpn_state(), "off");
}

#[test]
fn hotkey_routes_keep_the_last_registration() {
    let mut r: HotkeyRoutes<&str> = HotkeyRoutes::new();
    r.register(1, "first");
    r.register(2, "second");
    r.register(1, "again");
    assert_eq!(r.route(1), Some(&"again"));
    assert_eq!(r.route(2), Some(&"second"));
    assert_eq!(r.route(3), None);
}

#[test]
fn state_hotkeys_keep_the_first_registration() {
    let mut h = HotkeyListener::new();
    h.register_state(7, "warp".to_string());
    h.register_state(7, "fin".to_string());
    match h.route(7) {
        Some(InputEvent::RequestStateSwitch(s)) => assert_eq!(s, "warp"),
        other => panic!("{:?}", other),
    }
    assert!(h.route(8).is_none());
}

#[test]
fn ipc_messages_name_exported_actions() {
    assert_eq!(IpcFeature::socket_path(&IpcConfig { path: None }), "/tmp/de-configurator.sock");
    assert_eq!(IpcFeature::socket_path(&IpcConfig { path: Some("/x.sock".to_string()) }), "/x.sock");
    match IpcFeature::request_for_message("  game-mode\n") {
        Some(SystemEvent::RequestActionExecuteExported { action_id, context }) => {
            assert_eq!(action_id, "game-mode");
            assert_eq!(context, EventContext { initiator: Initiator::Ipc, silent: false });
        },
        other => panic!("{:?}", other),
    }
    assert!(IpcFeature::request_for_message(" \n").is_none());
    let ipc = EventContext { initiator: Initiator::Ipc, silent: false };
    match IpcFeature::request_for_message("vpn warp\n") {
        Some(SystemEvent::RequestVpnSwitch { state_id, context }) => {
            assert_eq!(state_id, "warp");
            assert_eq!(context, ipc);
        },
        other => panic!("{:?}", other),
    }
    match IpcFeature::request_for_message("daemon picom toggle") {
        Some(SystemEvent::RequestDaemonControl { daemon_id, action, context }) => {
            assert_eq!(daemon_id, "picom");
            assert_eq!(action, DaemonAction::Toggle);
            assert_eq!(context, ipc);
        },
        other => panic!("{:?}", other),
    }
    match IpcFeature::request_for_message("workspace browser VGA-0\n") {
        Some(SystemEvent::RequestWorkspaceFocus { workspace_id, monitor_name, context }) => {
            assert_eq!(workspace_id, "browser");
            assert_eq!(monitor_name.as_deref(), Some("VGA-0"));
            assert_eq!(context, ipc);
        },
        other => panic!("{:?}", other),
    }
    match IpcFeature::request_for_message("workspace browser") {
        Some(SystemEvent::RequestWorkspaceFocus { monitor_name, .. }) => assert_eq!(monitor_name, None),
        other => panic!("{:?}", other),
    }
    match IpcFeature::request_for_message("daemon picom restart") {
        Some(SystemEvent::RequestActionExecuteExported { action_id, .. }) => assert_eq!(action_id, "daemon picom restart"),
        other => panic!("{:?}", other),
    }
    match IpcFeature::request_for_message("vpn") {
        Some(SystemEvent::RequestActionExecuteExported { action_id, .. }) => assert_eq!(action_id, "vpn"),
        other => panic!("{:?}", other),
    }
    assert!(IpcFeature::request_for_message("").is_none());
}

#[test]
fn the_control_script_names_the_socket() {
    let s = IpcFeature::script_text("/tmp/a.sock");
    assert!(s.starts_with("#!/bin/sh\nif [ -z \"$1\" ]; then\n"));
    assert!(s.contains("\nSOCKET_PATH=\"/tmp/a.sock\"\n"));
    assert!(s.contains("echo \"$*\" | socat - \"UNIX-CONNECT:$SOCKET_PATH\""));
    assert!(s.contains("echo \"$*\" | nc -U \"$SOCKET_PATH\""));
    assert!(s.ends_with("    exit 1\nfi\n"));
    assert_eq!(s.matches("/tmp/a.sock").count(), 1);
}

#[test]
fn bspwm_subscription_lines() {
    match BspwmDriver::parse_event_line("node_add 0x1 0x2 0x3 0x4") {
        Some(BspwmEvent::NodeAdd { monitor_id, desktop_id, node_id }) => {
            assert_eq!(monitor_id, "0x1");
            assert_eq!(desktop_id, "0x2");
            assert_eq!(node_id, "0x4");
        },
        other => panic!("{:?}", other),
    }
    assert_eq!(
        BspwmDriver::parse_event_line("desktop_focus  0xA 0xB"),
        Some(BspwmEvent::DesktopFocus { monitor_id: "0xA".to_string(), desktop_id: "0xB".to_string() })
    );
    assert_eq!(BspwmDriver::parse_event_line("node_focus 0x1 0x2"), None);
    assert_eq!(BspwmDriver::parse_event_line("monitor_focus"), None);
    assert_eq!(BspwmDriver::parse_event_line(""), None);
    assert_eq!(BspwmDriver::parse_event_line("node_swap 1 2 3 4 5 6"), None);
    let ev = BspwmEvent::NodeFocus { monitor_id: "1".to_string(), desktop_id: "2".to_string(), node_id: "0x3".to_string() };
    match BspwmDriver::wm_event(&ev, "HDMI-0".to_string(), "web".to_string(), Some("Brave".to_string())) {
        SystemEvent::WmNodeFocused { monitor_name, desktop_name, node_id, class_name, context } => {
            assert_eq!(monitor_name, "HDMI-0");
            assert_eq!(desktop_name, "web");
            assert_eq!(node_id, "0x3");
            assert_eq!(class_name.as_deref(), Some("Brave"));
            assert_eq!(context, EventContext { initiator: Initiator::Direct, silent: true });
        },
        other => panic!("{:?}", other),
    }
}

#[test]
fn xprop_and_bspc_output() {
    assert_eq!(
        BspwmDriver::window_class_of("WM_CLASS(STRING) = \"brave-browser\", \"Brave-browser\"\n"),
        Some("Brave-browser".to_string())
    );
    assert_eq!(BspwmDriver::window_class_of("WM_CLASS:  not found.\n"), None);
    assert_eq!(BspwmDriver::window_class_of("WM_CLASS(STRING) = \"\""), None);
    assert_eq!(BspwmDriver::window_class_of("x = a=b"), Some("a=b".to_string()));
    assert_eq!(BspwmDriver::listed_names("HDMI-0\n\n  VGA-0 \n"), vec!["HDMI-0", "VGA-0"]);
    assert!(BspwmDriver::desktop_listed("1\n HDMI-0_web \n", "HDMI-0_web"));
    assert!(!BspwmDriver::desktop_listed("1\n2", "3"));
    assert!(!BspwmDriver::desktop_listed("", ""));
    assert_eq!(BspwmDriver::command_result(true, " out \n", "err"), Ok("out".to_string()));
    assert_eq!(BspwmDriver::command_result(false, "out", "\terr\n"), Err("err".to_string()));
    assert_eq!(BspwmDriver::name_or_id(Ok("HDMI-0".to_string()), "0x1"), "HDMI-0");
    assert_eq!(BspwmDriver::name_or_id(Err("boom".to_string()), "0x1"), "0x1");
    assert!(BspwmDriver::class_matches("Brave-Browser", "brave-browser"));
    assert!(!BspwmDriver::class_matches("Brave", "Firefox"));
    assert_eq!(BspwmDriver::spawn_rule_target("HDMI-0_web"), "desktop=HDMI-0_web");
    let _ = BspwmDriver::new();
}

#[test]
fn the_first_window_manager_registered_stays() {
    let mut reg: WmRegistry<&str> = WmRegistry::new();
    assert_eq!(get_wm(&reg), None);
    register_wm(&mut reg, "bspwm");
    register_wm(&mut reg, "other");
    assert_eq!(get_wm(&reg), Some(&"bspwm"));
}

#[test]
fn driver_names_select_a_driver() {
    assert_eq!(WmFeature::driver_choice(&WmConfig { driver: "bspwm".to_string() }), Ok(WmDriver::Bspwm));
    assert_eq!(
        WmFeature::driver_choice(&WmConfig { driver: "hyprland".to_string() }),
        Err("Драйвер hyprland ещё не реализован".to_string())
    );
    assert_eq!(
        WmFeature::driver_choice(&WmConfig { driver: "i3".to_string() }),
        Err("Неподдерживаемый драйвер оконного менеджера: i3".to_string())
    );
}

fn workspaces() -> WorkspacesConfig {
    WorkspacesConfig {
        workspaces: vec![
            WorkspaceConfig { id: "browser".to_string(), class: "Brave-browser".to_string() },
            WorkspaceConfig { id: "tg".to_string(), class: "Telegram".to_string() },
        ],
    }
}

#[test]
fn desktops_are_named_by_monitor_and_workspace() {
    assert_eq!(WorkspacesFeature::desktop_name("HDMI-0", "browser"), "HDMI-0_browser");
    let monitors = vec!["HDMI-0".to_string(), "VGA-0".to_string()];
    let d = WorkspacesFeature::initial_desktops(&monitors, &workspaces());
    let expected: Vec<(String, String)> = vec![
        ("HDMI-0".to_string(), "HDMI-0_browser".to_string()),
        ("HDMI-0".to_string(), "HDMI-0_tg".to_string()),
        ("VGA-0".to_string(), "VGA-0_browser".to_string()),
        ("VGA-0".to_string(), "VGA-0_tg".to_string()),
    ];
    assert_eq!(d, expected);
    assert!(WorkspacesFeature::initial_desktops(&vec![], &workspaces()).is_empty());
}

#[test]
fn focus_requests_name_a_configured_workspace() {
    let c = EventContext { initiator: Initiator::Keybind, silent: false };
    let e = SystemEvent::RequestWorkspaceFocus { workspace_id: "tg".to_string(), monitor_name: Some("VGA-0".to_string()), context: c };
    let f = WorkspacesFeature::focus_request(&workspaces(), &e).unwrap();
    assert_eq!(f.workspace, 1);
    assert_eq!(f.monitor_name.as_deref(), Some("VGA-0"));
    let e = SystemEvent::RequestWorkspaceFocus { workspace_id: "mail".to_string(), monitor_name: None, context: c };
    assert!(WorkspacesFeature::focus_request(&workspaces(), &e).is_none());
}


#[test]
fn the_registered_hotkey_is_the_parsed_text_of_the_shortcut() {
    let d = de_configurator::base::config::parse_config(
        "feature \"keybinds\" enabled=true {\n bind \"alt+c\" { run \"alacritty\"; }\n bind \"mediaplaypause\" { run \"playerctl\" \"play-pause\"; }\n}",
    )
    .unwrap();
    let r = KeybindsConfig::parse_from_root_doc(&d).unwrap();
    assert_eq!(r.binds.len(), 2);
    assert_eq!(r.binds[0].hotkey_str, "alt+c");
    let registered = global_hotkey::hotkey::HotKey::from_str(&hotkey_text(&r.binds[0].hotkey_str)).unwrap();
    assert_eq!(registered, global_hotkey::hotkey::HotKey::from_str("alt+c").unwrap());
    assert_eq!(registered.id(), r.binds[0].hotkey_id);
    assert_eq!(r.binds[1].action, CommandAction::Run(vec!["playerctl".to_string(), "play-pause".to_string()]));
    assert_eq!(hotkey_text("Ctrl+Shift+F10"), "ctrl+shift+f10");
    let upper = KeybindsConfig::parse_from_root_doc(
        &de_configurator::base::config::parse_config("feature \"keybinds\" { bind \"ALT+C\" { run \"alacritty\" } }").unwrap(),
    )
    .unwrap();
    assert_eq!(upper.binds[0].hotkey_id, r.binds[0].hotkey_id);
    assert_eq!(upper.binds[0].hotkey_str, "ALT+C");
}

#[test]
fn focusing_moves_windows_then_sets_the_rule_then_focuses() {
    let ws = WorkspaceConfig { id: "tg".to_string(), class: "Telegram".to_string() };
    let plan = WorkspacesFeature::focus_plan(&ws, "VGA-0", &vec!["0x1".to_string(), "0x2".to_string()]);
    assert_eq!(
        plan,
        vec![
            WmStep::MoveWindow { window: "0x1".to_string(), desktop: "VGA-0_tg".to_string() },
            WmStep::MoveWindow { window: "0x2".to_string(), desktop: "VGA-0_tg".to_string() },
            WmStep::SetSpawnRule { class: "Telegram".to_string(), desktop: "VGA-0_tg".to_string() },
            WmStep::FocusDesktop { desktop: "VGA-0_tg".to_string() },
        ]
    );
    assert_eq!(WorkspacesFeature::focus_plan(&ws, "m", &vec![]).len(), 2);
}
