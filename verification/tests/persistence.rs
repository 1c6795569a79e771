use opencontroller::mapping::elrs::ELRSConfig;
use opencontroller::mapping::keyboard::KeyboardConfig;
use opencontroller::mqtt::config::MqttConfig;
use opencontroller::mqtt::message_manager::MQTTMessage;
use opencontroller::persistence::config_portal::{timeout_result, ConfigResult, ConfigStore, Error, LockRetry, PortalAction};
use opencontroller::persistence::session_client::{
    get_home_dir, home_or_current, join_path, register_session, session_change_outcome, session_change_succeeded, session_paths, startup_step, SessionClient, StartupStep,
};
use opencontroller::persistence::{
    ConnectionConfig, ControllerConfig, NetworkConfig, Rgb, SavedMessages, SessionConfig, Theme, UIConfig,
};

fn store() -> ConfigStore {
    ConfigStore::new(
        SessionConfig::default(),
        UIConfig::default(),
        ControllerConfig::default(),
        ConnectionConfig::default(),
        SavedMessages::default(),
    )
}

#[test]
fn written_fields_read_back() {
    let mut s = store();
    assert!(matches!(s.execute_potal_action(PortalAction::WriteSessionName("alpha".to_string())), ConfigResult::Success));
    assert!(matches!(s.execute_potal_action(PortalAction::GetSessionName), ConfigResult::String(n) if n == "alpha"));
    s.execute_potal_action(PortalAction::WriteLastSession(Some("beta".to_string())));
    assert!(matches!(s.execute_potal_action(PortalAction::GetLastSession), ConfigResult::OptionString(Some(n)) if n == "beta"));
    s.execute_potal_action(PortalAction::WriteSessionPath("/tmp/alpha".to_string()));
    assert!(matches!(s.execute_potal_action(PortalAction::GetSessionPath), ConfigResult::PathBuf(p) if p == "/tmp/alpha"));
    s.execute_potal_action(PortalAction::WriteAvailableSessions(vec![("alpha".to_string(), "/tmp/alpha".to_string())]));
    assert!(matches!(s.execute_potal_action(PortalAction::GetAvailableSessions), ConfigResult::AvailableSessions(v) if v.len() == 1));
    match s.execute_potal_action(PortalAction::GetSession) {
        ConfigResult::SessionConfig(c) => {
            assert_eq!(c.session_name, "alpha");
            assert_eq!(c.last_session, Some("beta".to_string()));
        },
        _ => panic!("expected the session"),
    }
}

#[test]
fn ui_settings_read_back() {
    let mut s = store();
    s.execute_potal_action(PortalAction::WriteFps(60));
    assert!(matches!(s.execute_potal_action(PortalAction::GetFps), ConfigResult::Fps(60)));
    let mut theme = Theme::default();
    theme.text_color = Rgb { r: 1, g: 2, b: 3 };
    s.execute_potal_action(PortalAction::WriteTheme(theme));
    assert!(matches!(s.execute_potal_action(PortalAction::GetTheme), ConfigResult::Theme(t) if t == theme));
    assert!(matches!(s.execute_potal_action(PortalAction::GetUIConfig), ConfigResult::UIConfig(u) if u.fps == 60 && u.theme == theme));
    s.execute_potal_action(PortalAction::WriteUIConfig(UIConfig::default()));
    assert!(matches!(s.execute_potal_action(PortalAction::GetFps), ConfigResult::Fps(0)));
}

#[test]
fn mapping_and_connection_settings_read_back() {
    let mut s = store();
    s.execute_potal_action(PortalAction::WriteElrsConfig(ELRSConfig::default_config()));
    assert!(matches!(s.execute_potal_action(PortalAction::GetElrsConfig), ConfigResult::ElrsConfig(c) if c.channel_max == 2000));
    s.execute_potal_action(PortalAction::WriteKeyboardConfig(KeyboardConfig::default_config()));
    assert!(matches!(s.execute_potal_action(PortalAction::GetKeyboardConfig), ConfigResult::KeyboardConfig(c) if c.name == "Default Keyboard Configuration"));
    assert!(matches!(s.execute_potal_action(PortalAction::GetControllerConfig), ConfigResult::ControllerConfig(c) if c.elrs_mapping.channel_min == 1000));
    let mut mqtt = MqttConfig::default();
    mqtt.subbed_topics = vec!["x".to_string()];
    s.execute_potal_action(PortalAction::WriteMqttConfig(mqtt));
    assert!(matches!(s.execute_potal_action(PortalAction::GetMqttConfig), ConfigResult::MqttConfig(c) if c.subbed_topics == vec!["x".to_string()]));
    s.execute_potal_action(PortalAction::WriteConnectionConfig(ConnectionConfig::default()));
    assert!(matches!(s.execute_potal_action(PortalAction::GetConnectionConfig), ConfigResult::ConnectionConfig(c) if c.mqtt_config.subbed_topics.is_empty()));
}

#[test]
fn saved_messages_read_back() {
    let mut s = store();
    let msg = MQTTMessage { topic: "t".to_string(), content: "c".to_string(), timestamp: 3 };
    s.execute_potal_action(PortalAction::WriteSavedMessagesMsg(vec![msg]));
    assert!(matches!(s.execute_potal_action(PortalAction::GetSavedMessagesMsg), ConfigResult::MqttMessages(v) if v.len() == 1 && v[0].timestamp == 3));
    s.execute_potal_action(PortalAction::WriteSavedMessages(SavedMessages::default()));
    assert!(matches!(s.execute_potal_action(PortalAction::GetSavedMessages), ConfigResult::MqttHistory(h) if h.msg.is_empty()));
}

#[test]
fn busy_sections_are_tried_five_times() {
    let mut r = LockRetry::new();
    for _ in 0..4 {
        assert!(!r.record_blocked());
    }
    assert!(r.record_blocked());
    assert!(matches!(timeout_result(), ConfigResult::Failed(Error::LockTimeout)));
}

#[test]
fn store_error_texts() {
    assert_eq!(Error::LockTimeout.message(), "Could not acquire lock after maximum retry attempts");
    assert_eq!(Error::SessionNotFound("s".to_string()).message(), "Session not found: s");
    assert_eq!(Error::InvalidOperation("o".to_string()).message(), "Invalid operation: o");
}

#[test]
fn defaults_are_empty() {
    let n = NetworkConfig::default();
    assert!(n.state.is_empty() && n.network.network.is_empty());
    let t = Theme::default();
    assert_eq!(t.border_color, Rgb { r: 0, g: 0, b: 0 });
    assert!(ControllerConfig::default().keyboard_mapping.validate().is_err());
}

#[test]
fn paths_join_like_path_buffers() {
    assert_eq!(join_path("/home/u", "a"), "/home/u/a");
    assert_eq!(join_path("/home/u/", "a"), "/home/u/a");
    assert_eq!(join_path("", "a"), "a");
    assert_eq!(join_path("/home/u", "/abs"), "/abs");
    let p = session_paths("/home/u", "work");
    assert_eq!(p.base, "/home/u/.config/opencontroller/config/work");
    assert_eq!(p.ui, "/home/u/.config/opencontroller/config/work/ui_config.toml");
    assert_eq!(p.session, "/home/u/.config/opencontroller/config/work/session.toml");
    assert_eq!(p.connection, "/home/u/.config/opencontroller/config/work/connection_config.toml");
    assert_eq!(p.controller, "/home/u/.config/opencontroller/config/work/controller_config.toml");
    assert_eq!(p.messages, "/home/u/.config/opencontroller/config/work/saved_messages.toml");
    assert_eq!(p.main_config, "/home/u/.config/opencontroller/config/main_config.toml");
}

#[test]
fn registered_sessions_keep_one_entry_per_name() {
    let mut v = Vec::new();
    register_session(&mut v, "a".to_string(), "/a".to_string());
    register_session(&mut v, "b".to_string(), "/b".to_string());
    register_session(&mut v, "a".to_string(), "/a2".to_string());
    assert_eq!(v, vec![("a".to_string(), "/a2".to_string()), ("b".to_string(), "/b".to_string())]);
}

#[test]
fn deleting_the_current_session_falls_back() {
    let c = SessionClient { current_session: "work".to_string(), last_session: Some("home".to_string()) };
    assert_eq!(c.deletion_successor("work"), Some("home".to_string()));
    assert_eq!(c.deletion_successor("other"), None);
    let d = SessionClient::ensure_default();
    assert_eq!(d.current_session, "default");
    assert_eq!(d.deletion_successor("default"), Some("default".to_string()));
    let l = SessionClient::loaded("x", &Some("y".to_string()));
    assert_eq!(l.current_session, "x");
    assert_eq!(l.last_session, Some("y".to_string()));
}

#[test]
fn startup_picks_the_named_session() {
    assert!(matches!(startup_step(true, None), StartupStep::UseDefault));
    let parsed = SessionClient { current_session: "work".to_string(), last_session: None };
    assert!(matches!(startup_step(false, Some(parsed)), StartupStep::Load(n) if n == "work"));
    assert!(matches!(startup_step(false, None), StartupStep::Load(n) if n == "default"));
    assert!(session_change_succeeded(&ConfigResult::Success));
    assert!(!session_change_succeeded(&ConfigResult::Failed(Error::LockTimeout)));
}

#[test]
fn unknown_home_falls_back_to_current_directory() {
    assert_eq!(home_or_current(Some("/home/u".to_string())), "/home/u");
    assert_eq!(home_or_current(None), ".");
    assert!(!get_home_dir().is_empty());
}

#[test]
fn a_fallback_to_the_default_session_is_reported() {
    let ok = session_change_outcome(true, &ConfigResult::Success);
    assert!(ok.keep_new && ok.ok);
    let fallback = session_change_outcome(false, &ConfigResult::Success);
    assert!(fallback.keep_new && !fallback.ok);
    let failed = session_change_outcome(true, &ConfigResult::Failed(Error::LockTimeout));
    assert!(!failed.keep_new && !failed.ok);
}
