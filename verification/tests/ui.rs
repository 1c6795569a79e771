use opencontroller::mqtt::config::MqttConfig;
use opencontroller::mqtt::message_manager::MQTTMessage;
use opencontroller::persistence::SessionConfig;
use opencontroller::ui::common::{MQTTServer, MQTTTopic, MenuState, UiColors, WiFiNetwork};
use opencontroller::ui::elrs_menu::ELRSMenuData;
use opencontroller::ui::main_menu::MainMenuData;
use opencontroller::ui::mqtt_menu::{MQTTMenuData, ServerCheck};
use opencontroller::ui::navigation::{network_status, Navigation};
use opencontroller::ui::settings_menu::SettingsMenuData;

fn menu() -> MQTTMenuData {
    let mut c = MqttConfig::default();
    c.available_topics = vec!["a".to_string(), "b".to_string()];
    let history = vec![MQTTMessage { topic: "t".to_string(), content: "first".to_string(), timestamp: 1 }];
    MQTTMenuData::new(&c, history)
}

#[test]
fn servers_and_networks_show_their_names() {
    let s = MQTTServer { url: "broker:1883".to_string(), user: "me".to_string(), pw: "x".to_string(), connected: false };
    assert_eq!(s.label(), "me@broker:1883");
    assert!(s.same_as(&s.duplicate()));
    let n = WiFiNetwork::new("home".to_string(), "pw".to_string());
    assert_eq!(n.ssid, "home");
    assert_eq!(n.pw, "pw");
    assert_eq!(n.label(), "home");
    let t = MQTTTopic::from_string("a/b".to_string());
    assert_eq!(t.name, "a/b");
    assert_eq!(t.label(), "a/b");
}

#[test]
fn palette_and_status_colour() {
    assert_eq!(UiColors::main_bg(), (30, 30, 30));
    assert_eq!(UiColors::border(), (60, 60, 60));
    assert_eq!(UiColors::status(true), (50, 200, 20));
    assert_eq!(UiColors::status(false), (200, 50, 20));
}

#[test]
fn elrs_menu_mock_data_and_live_switch() {
    let mut d = ELRSMenuData::mock_data();
    assert_eq!(d.transmitter_port, "Port Test 1");
    assert!(d.transmitter_connection);
    assert_eq!(d.connection, "TestCon");
    assert_eq!(d.available_connections, vec!["Test1".to_string(), "Test2".to_string()]);
    assert_eq!(d.live_status(), "Live Off");
    d.toggle_live();
    assert_eq!(d.live_status(), "Live On");
    d.select_connection(1);
    assert_eq!(d.connection, "Test2");
    assert_eq!(d.transmitter_status(), "Transmitter Connected");
    assert_eq!(ELRSMenuData::empty().transmitter_status(), "No Transmitter found");
}

#[test]
fn settings_menu_connects_selected_network() {
    let mut s = SettingsMenuData::mock_data();
    assert!(!s.is_connected());
    assert_eq!(s.get_network_name(), "NetActive");
    s.select_network(1);
    assert_eq!(s.selector_text(), "Test2");
    s.connect();
    assert!(s.is_connected());
    assert_eq!(s.get_network_name(), "Test2");
    s.set_screensave(5000);
    assert_eq!(s.screensave, 3600);
}

#[test]
fn topics_toggle_on_and_off() {
    let mut m = menu();
    m.selected_topic = "a".to_string();
    m.toggle_selected_topic();
    assert_eq!(m.subscribed_topics, vec!["a".to_string()]);
    assert!(m.selected_topic.is_empty());
    m.selected_topic = "a".to_string();
    m.toggle_selected_topic();
    assert!(m.subscribed_topics.is_empty());
    m.toggle_selected_topic();
    assert!(m.subscribed_topics.is_empty());
}

#[test]
fn new_servers_need_url_and_user() {
    let mut m = menu();
    m.adding_server = true;
    assert_eq!(m.save_new_server(), ServerCheck::BothEmpty);
    assert_eq!(ServerCheck::BothEmpty.message(), "Server and User empty!");
    m.new_user = "u".to_string();
    assert_eq!(m.save_new_server(), ServerCheck::ServerEmpty);
    assert_eq!(ServerCheck::ServerEmpty.message(), "Server empty!");
    m.new_user = String::new();
    m.new_server_url = "h".to_string();
    assert_eq!(m.save_new_server(), ServerCheck::UserEmpty);
    assert_eq!(ServerCheck::UserEmpty.message(), "User empty!");
    m.new_user = "u".to_string();
    assert_eq!(m.save_new_server(), ServerCheck::Valid);
    assert_eq!(ServerCheck::Valid.message(), "Saved!");
    assert_eq!(m.saved_servers.len(), 1);
    assert_eq!(m.saved_servers[0].label(), "u@h");
    assert!(!m.adding_server);
}

#[test]
fn topics_and_messages_are_added() {
    let mut m = menu();
    assert_eq!(m.active_message.content, "first");
    assert!(!m.add_topic());
    assert_eq!(m.topic_dialog_message(), "No Topic");
    m.new_topic = "c".to_string();
    assert!(m.add_topic());
    assert_eq!(m.topic_dialog_message(), "Saved");
    assert_eq!(m.available_topics.len(), 3);
    m.select_history(0);
    assert_eq!(m.current_message, "first");
    let draft = m.draft_message();
    assert_eq!(draft.topic, "OpenController");
    assert_eq!(draft.content, "first");
    let stored = m.save_msg(draft);
    assert_eq!(stored.len(), 2);
    m.receive(MQTTMessage::empty());
    assert_eq!(m.received_messages.len(), 1);
    let c = m.post_update_config();
    assert_eq!(c.poll_frequency, 10);
    assert_eq!(c.available_topics.len(), 3);
    assert_eq!(m.status_color(), (200, 50, 20));
    let mut fresh = MqttConfig::default();
    fresh.subbed_topics = vec!["z".to_string()];
    m.pre_update_config(fresh, vec![]);
    assert_eq!(m.subscribed_topics, vec!["z".to_string()]);
    assert!(m.message_history.is_empty());
}

#[test]
fn main_menu_requests_sessions() {
    let mut session = SessionConfig::default();
    session.session_name = "work".to_string();
    session.available_sessions = vec![("work".to_string(), "/w".to_string()), ("home".to_string(), "/h".to_string())];
    let mut m = MainMenuData::new(&session);
    assert_eq!(m.available_sessions, vec!["work".to_string(), "home".to_string()]);
    assert_eq!(m.create_session(), None);
    assert_eq!(m.session_load_error, Some("Session name cannot be empty".to_string()));
    m.new_session_name = "new".to_string();
    assert_eq!(m.create_session(), Some("new".to_string()));
    assert_eq!(m.change_session("home".to_string()), "home");
    assert_eq!(m.current_session_name, "home");
    assert_eq!(m.previous_session, Some("work".to_string()));
    assert_eq!(MainMenuData::label("home"), "Session: home");
    m.set_sessions(vec![]);
    assert!(m.available_sessions.is_empty());
}

#[test]
fn navigation_and_status_line() {
    let mut n = Navigation::new();
    assert_eq!(n.menu_state, MenuState::Main);
    n.select(MenuState::Settings);
    assert_eq!(n.menu_state, MenuState::Settings);
    assert_eq!(network_status("NetActive", false), "NetActive 🔴");
    assert_eq!(network_status("NetActive", true), "NetActive 🟢");
}
