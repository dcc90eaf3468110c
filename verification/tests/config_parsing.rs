use de_configurator::base::config::{config_candidates, default_config, parse_config};
use de_configurator::base::event_bus::{CommandAction, DaemonAction};
use de_configurator::config::Config;
use de_configurator::document::{
    feature_enabled_in, find_feature_index, is_feature_enabled, node_children, KdlEntryData, KdlNodeData,
    KdlValueData,
};
use de_configurator::features::actions::config::ActionsConfig;
use de_configurator::features::daemons::config::DaemonsConfig;
use de_configurator::features::ipc::config::IpcConfig;
use de_configurator::features::keybinds::config::KeybindsConfig;
use de_configurator::features::triggers::config::{parse_duration, try_parse_duration, TriggerType, TriggersConfig};
use de_configurator::features::vpn::config::VpnConfig;
use de_configurator::features::wm::WmConfig;
use de_configurator::features::workspaces::config::WorkspacesConfig;

fn doc(text: &str) -> kdl::KdlDocument {
    parse_config(text).expect("the test configuration parses")
}

#[test]
fn kdl_errors_have_the_fixed_text() {
    assert_eq!(parse_config("node {").unwrap_err(), "Ошибка парсинга KDL: Failed to parse KDL document");
    assert!(parse_config("node 1").is_ok());
}

#[test]
fn version_one_and_two_syntax_both_parse() {
    let v1 = doc("feature \"vpn\" enabled=true");
    let v2 = doc("feature \"vpn\" enabled=#true");
    assert!(is_feature_enabled(&v1, "vpn"));
    assert!(is_feature_enabled(&v2, "vpn"));
}

#[test]
fn feature_enabled_needs_the_flag() {
    let d = doc("feature \"vpn\" enabled=true\nfeature \"daemons\"\nfeature \"ipc\" enabled=false\nfeature \"wm\" enabled=\"yes\"");
    assert!(is_feature_enabled(&d, "vpn"));
    assert!(!is_feature_enabled(&d, "daemons"));
    assert!(!is_feature_enabled(&d, "ipc"));
    assert!(!is_feature_enabled(&d, "wm"));
    assert!(!is_feature_enabled(&d, "keybinds"));
}

fn node(name: &str, arg: &str, enabled: Option<bool>) -> KdlNodeData {
    let mut entries = vec![KdlEntryData { name: None, value: KdlValueData::Str(arg.to_string()) }];
    if let Some(b) = enabled {
        entries.push(KdlEntryData { name: Some("enabled".to_string()), value: KdlValueData::Bool(b) });
    }
    KdlNodeData { name: name.to_string(), entries, children: None }
}

#[test]
fn the_first_feature_node_of_a_name_counts() {
    let d = doc("other \"vpn\"\nfeature \"vpn\" enabled=false\nfeature \"vpn\" enabled=true");
    assert!(!is_feature_enabled(&d, "vpn"));
    let nodes = vec![node("other", "vpn", Some(true)), node("feature", "vpn", Some(false)), node("feature", "vpn", Some(true))];
    assert_eq!(find_feature_index(&nodes, "vpn"), Some(1));
    assert_eq!(find_feature_index(&nodes, "ipc"), None);
    assert!(!feature_enabled_in(&nodes, "vpn"));
    let nodes = vec![node("feature", "ipc", None), node("feature", "vpn", Some(true))];
    assert!(feature_enabled_in(&nodes, "vpn"));
    assert!(!feature_enabled_in(&nodes, "ipc"));
}

#[test]
fn default_configuration_parses() {
    let d = doc(default_config());
    assert!(is_feature_enabled(&d, "vpn"));
    assert!(is_feature_enabled(&d, "keybinds"));
    let vpn = VpnConfig::parse_from_root_doc(&d).unwrap();
    assert_eq!(vpn.states.len(), 3);
    assert_eq!(vpn.states[1].id, "warp");
    assert_eq!(vpn.states[1].interface.as_deref(), Some("w"));
    assert_eq!(vpn.states[1].up_cmd, vec!["doas", "wg-quick", "up", "w"]);
    assert_eq!(vpn.states[0].display_name, "VPN выключен");
    let keys = KeybindsConfig::parse_from_root_doc(&d).unwrap();
    assert_eq!(keys.binds.len(), 3);
    assert_eq!(keys.binds[1].action, CommandAction::Vpn("warp".to_string()));
}

#[test]
fn config_candidates_join_like_pathbuf() {
    assert_eq!(config_candidates(None), vec!["config.kdl"]);
    assert_eq!(
        config_candidates(Some("/home/u")),
        vec!["config.kdl", "/home/u/.config/de-configurator/config.kdl"]
    );
    assert_eq!(
        config_candidates(Some("/home/u/")),
        vec!["config.kdl", "/home/u/.config/de-configurator/config.kdl"]
    );
    assert_eq!(config_candidates(Some("")), vec!["config.kdl", ".config/de-configurator/config.kdl"]);
    let joined = std::path::PathBuf::from("/home/u").join(".config/de-configurator/config.kdl");
    assert_eq!(config_candidates(Some("/home/u"))[1], joined.to_str().unwrap());
}

#[test]
fn daemons_parse_with_defaults() {
    let d = doc(r#"
feature "daemons" enabled=true {
    daemon "picom" autostart=true {
        display-name "Picom Compositor"
        start-cmd "picom" "-b"
    }
    daemon "dunst" {
        start-cmd "/usr/bin/dunst"
        stop-cmd "pkill" "dunst"
    }
}
"#);
    let c = DaemonsConfig::parse_from_root_doc(&d).unwrap();
    assert_eq!(c.daemons.len(), 2);
    assert_eq!(c.daemons[0].id, "picom");
    assert!(c.daemons[0].autostart);
    assert_eq!(c.daemons[0].display_name, "Picom Compositor");
    assert_eq!(c.daemons[0].start_cmd, vec!["picom", "-b"]);
    assert_eq!(c.daemons[0].stop_cmd, None);
    assert_eq!(c.daemons[1].display_name, "dunst");
    assert!(!c.daemons[1].autostart);
    assert_eq!(c.daemons[1].stop_cmd, Some(vec!["pkill".to_string(), "dunst".to_string()]));
}

#[test]
fn daemons_errors() {
    assert_eq!(
        DaemonsConfig::parse_from_root_doc(&doc("feature \"vpn\"")).unwrap_err(),
        "Секция feature \"daemons\" не найдена в конфигурации"
    );
    assert_eq!(
        DaemonsConfig::parse_from_root_doc(&doc("feature \"daemons\" { daemon 5 }")).unwrap_err(),
        "У узла daemon должен быть строковый идентификатор"
    );
    assert_eq!(
        DaemonsConfig::parse_from_root_doc(&doc("feature \"daemons\" { daemon \"x\" { display-name \"X\" } }"))
            .unwrap_err(),
        "У демона 'x' не указана команда запуска start-cmd"
    );
}

#[test]
fn vpn_profiles_parse() {
    let d = doc(r#"
feature "vpn" enabled=true {
    state "off" {
        display-name "VPN Off"
    }
    state "warp" {
        display-name "Cloudflare Warp"
        interface "wg-warp"
        up-cmd "wg-quick" "up" "warp"
        down-cmd "wg-quick" "down" "warp"
    }
}
"#);
    let c = VpnConfig::parse_from_root_doc(&d).unwrap();
    assert_eq!(c.states.len(), 2);
    assert_eq!(c.states[0].interface, None);
    assert_eq!(c.states[0].display_name, "VPN Off");
    assert!(c.states[0].hotkey_id.is_none());
    assert_eq!(c.states[1].interface.as_deref(), Some("wg-warp"));
    assert_eq!(c.states[1].down_cmd, vec!["wg-quick", "down", "warp"]);
    assert_eq!(
        VpnConfig::parse_from_root_doc(&doc("feature \"daemons\"")).unwrap_err(),
        "Секция feature \"vpn\" не найдена в конфигурации"
    );
    assert_eq!(
        VpnConfig::parse_from_root_doc(&doc("feature \"vpn\" { state }")).unwrap_err(),
        "У узла state должен быть строковый идентификатор"
    );
}

#[test]
fn vpn_profile_with_a_shortcut_carries_its_id() {
    let d = doc("feature \"vpn\" { state \"w\" { hotkey \"Ctrl+Shift+W\"\n interface \"w\" } }");
    let c = VpnConfig::parse_from_root_doc(&d).unwrap();
    let expected: global_hotkey::hotkey::HotKey = "ctrl+shift+w".parse().unwrap();
    assert_eq!(c.states[0].hotkey_id, Some(expected.id()));
    assert_eq!(c.states[0].hotkey_str, "Ctrl+Shift+W");
}

#[test]
fn stand_alone_config_requires_shortcuts() {
    let ok = Config::load_from_str("state \"warp\" { hotkey \"ctrl+shift+w\"\n display-name \"Warp\" }").unwrap();
    assert_eq!(ok.states.len(), 1);
    assert_eq!(ok.states[0].display_name, "Warp");
    let expected: global_hotkey::hotkey::HotKey = "ctrl+shift+w".parse().unwrap();
    assert_eq!(ok.states[0].hotkey_id, expected.id());
    assert_eq!(
        Config::load_from_str("state \"warp\"").unwrap_err(),
        "У узла state 'warp' должен быть указан hotkey"
    );
    let bad = Config::load_from_str("state \"warp\" { hotkey \"ctrl+nokey\" }").unwrap_err();
    assert!(bad.starts_with("Не удалось распарсить хоткей 'ctrl+nokey' для состояния 'warp': UnsupportedKey("), "{}", bad);
    assert_eq!(
        Config::load_from_str("state {").unwrap_err(),
        "Ошибка парсинга KDL: Failed to parse KDL document"
    );
}

#[test]
fn keybinds_parse_commands() {
    let d = doc(r#"
feature "keybinds" enabled=true {
    bind "alt+c" {
        run "alacritty"
    }
    bind "alt+a" {
        workspace "telegram" "HDMI-0"
    }
    bind "super+d" {
        daemon "picom" "toggle"
    }
    bind "mediaplaypause" {
        action "game-mode"
    }
}
"#);
    let c = KeybindsConfig::parse_from_root_doc(&d).unwrap();
    assert_eq!(c.binds.len(), 4);
    assert_eq!(c.binds[0].action, CommandAction::Run(vec!["alacritty".to_string()]));
    assert_eq!(
        c.binds[1].action,
        CommandAction::Workspace("telegram".to_string(), Some("HDMI-0".to_string()))
    );
    assert_eq!(c.binds[2].action, CommandAction::Daemon("picom".to_string(), DaemonAction::Toggle));
    assert_eq!(c.binds[3].action, CommandAction::Action("game-mode".to_string()));
    let expected: global_hotkey::hotkey::HotKey = "alt+c".parse().unwrap();
    assert_eq!(c.binds[0].hotkey_id, expected.id());
}

#[test]
fn keybinds_errors() {
    assert_eq!(
        KeybindsConfig::parse_from_root_doc(&doc("feature \"keybinds\" { bind \"alt+c\" }")).unwrap_err(),
        "У бинда 'alt+c' должно быть указано действие (run, vpn, daemon или action)"
    );
    assert_eq!(
        KeybindsConfig::parse_from_root_doc(&doc("feature \"keybinds\" { bind \"alt+c\" { daemon \"picom\" \"restart\" } }"))
            .unwrap_err(),
        "Неподдерживаемое действие демона 'restart' для бинда 'alt+c' (разрешены: on, off, toggle)"
    );
    assert_eq!(
        KeybindsConfig::parse_from_root_doc(&doc("feature \"keybinds\" { bind \"alt+c\" { jump } }")).unwrap_err(),
        "Неподдерживаемое действие 'jump' для бинда 'alt+c'"
    );
    assert_eq!(
        KeybindsConfig::parse_from_root_doc(&doc("feature \"keybinds\" { bind \"alt+c\" { run } }")).unwrap_err(),
        "У действия run для бинда 'alt+c' не указана команда"
    );
    let e = KeybindsConfig::parse_from_root_doc(&doc("feature \"keybinds\" { bind \"alt+nokey\" { run \"x\" } }"))
        .unwrap_err();
    assert!(e.starts_with("Не удалось распарсить хоткей 'alt+nokey': UnsupportedKey("), "{}", e);
    assert_eq!(
        KeybindsConfig::parse_from_root_doc(&doc("feature \"vpn\"")).unwrap_err(),
        "Секция feature \"keybinds\" не найдена в конфигурации"
    );
}

#[test]
fn actions_parse() {
    let d = doc(r#"
feature "actions" enabled=true {
    action "game-mode" export=true {
        vpn "warp"
        daemon "picom" "off"
    }
    action "plain" {
        run "true"
    }
}
"#);
    let c = ActionsConfig::parse_from_root_doc(&d).unwrap();
    assert_eq!(c.actions.len(), 2);
    assert!(c.actions[0].export);
    assert!(!c.actions[1].export);
    assert_eq!(
        c.actions[0].commands,
        vec![
            CommandAction::Vpn("warp".to_string()),
            CommandAction::Daemon("picom".to_string(), DaemonAction::Off)
        ]
    );
    assert_eq!(
        ActionsConfig::parse_from_root_doc(&doc("feature \"actions\" { action \"a\" { teleport } }")).unwrap_err(),
        "Неизвестная команда 'teleport' в экшене 'a'"
    );
    assert_eq!(
        ActionsConfig::parse_from_root_doc(&doc("feature \"actions\" { action \"a\" { vpn } }")).unwrap_err(),
        "У действия vpn в экшене 'a' не указано состояние"
    );
}

#[test]
fn durations_read_units() {
    assert_eq!(parse_duration("30s"), Ok(30));
    assert_eq!(parse_duration(" 5m "), Ok(300));
    assert_eq!(parse_duration("2h"), Ok(7200));
    assert_eq!(parse_duration("0s"), Ok(0));
    assert_eq!(parse_duration(""), Err("Пустой интервал".to_string()));
    assert_eq!(parse_duration("5d"), Err("Неверная единица времени 'd' в интервале '5d'".to_string()));
    assert_eq!(
        parse_duration("xm"),
        Err("Неверное число в интервале 'xm': invalid digit found in string".to_string())
    );
    assert_eq!(
        parse_duration("m"),
        Err("Неверное число в интервале 'm': cannot parse integer from empty string".to_string())
    );
    assert_eq!(try_parse_duration("5м"), None);
    assert_eq!(try_parse_duration("18446744073709551615m"), None);
}

#[test]
fn triggers_parse_both_kinds() {
    let d = doc(r#"
feature "triggers" enabled=true {
    trigger "periodic-check" type="interval" {
        interval "5m"
        run "notify-send" "DE" "System check run"
    }
    trigger "browser-focus" type="wm" {
        event "node_focus"
        class "Brave-browser"
        vpn "warp"
    }
}
"#);
    let c = TriggersConfig::parse_from_root_doc(&d).unwrap();
    assert_eq!(c.triggers.len(), 2);
    match &c.triggers[0].trigger_type {
        TriggerType::Interval { duration_secs } => assert_eq!(*duration_secs, 300),
        other => panic!("{:?}", other),
    }
    match &c.triggers[1].trigger_type {
        TriggerType::Wm { event_type, desktop, monitor, class } => {
            assert_eq!(event_type, "node_focus");
            assert_eq!(*desktop, None);
            assert_eq!(*monitor, None);
            assert_eq!(class.as_deref(), Some("Brave-browser"));
        },
        other => panic!("{:?}", other),
    }
    assert_eq!(c.triggers[1].command, CommandAction::Vpn("warp".to_string()));
}

#[test]
fn triggers_errors() {
    assert_eq!(
        TriggersConfig::parse_from_root_doc(&doc("feature \"triggers\" { trigger \"t\" type=\"cron\" }")).unwrap_err(),
        "Неподдерживаемый тип триггера 'cron' у 't'"
    );
    assert_eq!(
        TriggersConfig::parse_from_root_doc(&doc("feature \"triggers\" { trigger \"t\" }")).unwrap_err(),
        "У триггера 't' должен быть тип type"
    );
    assert_eq!(
        TriggersConfig::parse_from_root_doc(&doc("feature \"triggers\" { trigger \"t\" type=\"interval\" { run \"x\" } }"))
            .unwrap_err(),
        "У интервального триггера 't' должен быть указан интервал (например, interval \"5m\")"
    );
    assert_eq!(
        TriggersConfig::parse_from_root_doc(&doc("feature \"triggers\" { trigger \"t\" type=\"wm\" { event \"node_add\" } }"))
            .unwrap_err(),
        "У триггера 't' должно быть указано выполняемое действие (run, vpn, daemon, action или workspace)"
    );
    assert_eq!(
        TriggersConfig::parse_from_root_doc(&doc("feature \"triggers\" { trigger \"t\" type=\"wm\" { run \"x\" } }"))
            .unwrap_err(),
        "У WM триггера 't' должно быть указано событие (например, event \"desktop_focus\")"
    );
    let skipped = TriggersConfig::parse_from_root_doc(&doc(
        "feature \"triggers\" { trigger \"t\" type=\"wm\" { event \"x\"\n warp\n run \"y\" } }",
    ))
    .unwrap();
    assert_eq!(skipped.triggers.len(), 1);
    assert_eq!(skipped.triggers[0].command, CommandAction::Run(vec!["y".to_string()]));
}

#[test]
fn workspaces_ipc_and_wm_sections() {
    let d = doc(r#"
feature "workspaces" enabled=true {
    workspace "browser" class="Brave-browser"
    workspace "telegram" class="AyuGramDesktop"
}
feature "ipc" enabled=true {
    path "/run/user/1000/de.sock"
}
feature "wm" enabled=true {
    driver "bspwm"
}
"#);
    let w = WorkspacesConfig::parse_from_root_doc(&d).unwrap();
    assert_eq!(w.workspaces.len(), 2);
    assert_eq!(w.workspaces[1].id, "telegram");
    assert_eq!(w.workspaces[1].class, "AyuGramDesktop");
    let i = IpcConfig::parse_from_root_doc(&d).unwrap();
    assert_eq!(i.path.as_deref(), Some("/run/user/1000/de.sock"));
    let m = WmConfig::parse_from_root_doc(&d, true).unwrap();
    assert_eq!(m.driver, "bspwm");
    assert_eq!(
        WorkspacesConfig::parse_from_root_doc(&doc("feature \"workspaces\" { workspace \"b\" }")).unwrap_err(),
        "У воркспейса 'b' должен быть указан класс class"
    );
    assert_eq!(IpcConfig::parse_from_root_doc(&doc("feature \"vpn\"")).unwrap().path, None);
}

#[test]
fn wm_driver_defaults_by_session() {
    let d = doc("feature \"wm\" enabled=true");
    assert_eq!(WmConfig::parse_from_root_doc(&d, false).unwrap().driver, "bspwm");
    assert_eq!(WmConfig::parse_from_root_doc(&d, true).unwrap().driver, "hyprland");
    assert_eq!(
        WmConfig::parse_from_root_doc(&doc("feature \"vpn\""), false).err(),
        Some("Секция feature \"wm\" не найдена".to_string())
    );
}

#[test]
fn daemons_given_by_exec_start_their_program() {
    let d = doc("feature \"daemons\" enabled=true {\n    daemon \"picom\" exec=\"picom\" autostart=true\n    daemon \"dunst\" exec=\"dunst\" autostart=true\n}");
    let c = DaemonsConfig::parse_from_root_doc(&d).unwrap();
    assert_eq!(c.daemons.len(), 2);
    assert_eq!(c.daemons[0].id, "picom");
    assert!(c.daemons[0].autostart);
    assert_eq!(c.daemons[0].start_cmd, vec!["picom"]);
    assert_eq!(c.daemons[1].id, "dunst");
    assert_eq!(c.daemons[1].start_cmd, vec!["dunst"]);
    let both = doc("feature \"daemons\" { daemon \"p\" exec=\"old\" { start-cmd \"new\" \"-b\" } }");
    assert_eq!(DaemonsConfig::parse_from_root_doc(&both).unwrap().daemons[0].start_cmd, vec!["new", "-b"]);
}

fn arg(v: &str) -> KdlEntryData {
    KdlEntryData { name: None, value: KdlValueData::Str(v.to_string()) }
}

fn prop(k: &str, v: KdlValueData) -> KdlEntryData {
    KdlEntryData { name: Some(k.to_string()), value: v }
}

#[test]
fn a_nested_configuration_written_as_nodes() {
    let daemon = |id: &str| KdlNodeData {
        name: "daemon".to_string(),
        entries: vec![arg(id), prop("exec", KdlValueData::Str(id.to_string())), prop("autostart", KdlValueData::Bool(true))],
        children: None,
    };
    let feature = KdlNodeData {
        name: "feature".to_string(),
        entries: vec![arg("daemons"), prop("enabled", KdlValueData::Bool(true))],
        children: Some(vec![daemon("picom"), daemon("dunst")]),
    };
    assert_eq!(node_children(&feature).len(), 2);
    assert_eq!(node_children(&daemon("picom")).len(), 0);
    let c = DaemonsConfig::parse_from_nodes(&vec![feature]).unwrap();
    assert_eq!(c.daemons.len(), 2);
    assert_eq!(c.daemons[0].id, "picom");
    assert!(c.daemons[0].autostart);
    assert_eq!(c.daemons[0].start_cmd, vec!["picom"]);
    assert_eq!(c.daemons[1].id, "dunst");
    assert!(c.daemons[1].autostart);
    assert_eq!(c.daemons[1].start_cmd, vec!["dunst"]);
}

#[test]
fn children_read_from_a_document_keep_their_nesting() {
    let d = doc("feature \"daemons\" enabled=true {\n    daemon \"p\" {\n        start-cmd \"a\" \"b\"\n    }\n}");
    let c = DaemonsConfig::parse_from_root_doc(&d).unwrap();
    assert_eq!(c.daemons[0].start_cmd, vec!["a", "b"]);
}
