use opencontroller::mqtt::config::MqttConfig;
use opencontroller::mqtt::message_manager::MQTTMessage;
use opencontroller::mqtt::mqtt_handler::{
    broker_address, incoming_message, parse_port, plan_activation, poll_interval_ms, publish_targets, ConnectionState,
    HandleStep, MQTTHandle, MQTTState, MQTTStatus, MqttCycle,
};
use opencontroller::ui::common::MQTTServer;

fn server(url: &str, user: &str) -> MQTTServer {
    MQTTServer { url: url.to_string(), user: user.to_string(), pw: "pw".to_string(), connected: false }
}

fn config(url: &str, topics: &[&str]) -> MqttConfig {
    let mut c = MqttConfig::default();
    c.server = server(url, "u");
    c.subbed_topics = topics.iter().map(|t| t.to_string()).collect();
    c
}

#[test]
fn broker_address_splits_host_and_port() {
    assert_eq!(broker_address("broker.local:1884"), ("broker.local".to_string(), 1884));
    assert_eq!(broker_address("broker.local"), ("broker.local".to_string(), 1883));
    assert_eq!(broker_address("broker.local:abc"), ("broker.local".to_string(), 1883));
    assert_eq!(broker_address("h:+80:extra"), ("h".to_string(), 80));
    assert_eq!(broker_address("h:70000"), ("h".to_string(), 1883));
    assert_eq!(broker_address(""), ("".to_string(), 1883));
    assert_eq!(broker_address(":9"), ("".to_string(), 9));
}

#[test]
fn ports_parse_like_unsigned_integers() {
    assert_eq!(parse_port("0"), Some(0));
    assert_eq!(parse_port("65535"), Some(65535));
    assert_eq!(parse_port("65536"), None);
    assert_eq!(parse_port("+8883"), Some(8883));
    assert_eq!(parse_port("+"), None);
    assert_eq!(parse_port(""), None);
    assert_eq!(parse_port("-1"), None);
    assert_eq!(parse_port("00080"), Some(80));
    assert_eq!(parse_port("8 0"), None);
}

#[test]
fn default_settings_poll_ten_times_a_second() {
    let d = MqttConfig::default();
    assert_eq!(d.poll_frequency, 10);
    assert!(d.is_default());
    assert!(!config("x", &[]).is_default());
    assert!(config("x", &["a"]).same_as(&config("x", &["a"])));
    assert!(!config("x", &["a"]).same_as(&config("x", &["b"])));
    assert_eq!(poll_interval_ms(10), 100);
    assert_eq!(poll_interval_ms(3), 333);
    assert_eq!(poll_interval_ms(1), 1000);
    assert_eq!(poll_interval_ms(2000), 0);
}

#[test]
fn resumption_follows_changed_settings() {
    let current = config("a:1", &["t1", "t2"]);
    let plan = plan_activation(&current, Some(config("b:1", &["t2", "t3"])));
    assert!(plan.reconnect);
    assert_eq!(plan.subscribe, vec!["t2".to_string(), "t3".to_string()]);
    assert!(plan.unsubscribe.is_empty());
    assert_eq!(plan.adopt.unwrap().subbed_topics, vec!["t2".to_string(), "t3".to_string()]);

    let same_server = plan_activation(&current, Some(config("a:1", &["t1", "t2"])));
    assert!(!same_server.reconnect);
    assert!(same_server.subscribe.is_empty());
    assert!(same_server.unsubscribe.is_empty());
    assert!(same_server.adopt.is_some());

    let topics_changed = plan_activation(&current, Some(config("a:1", &["t2", "t3"])));
    assert!(!topics_changed.reconnect);
    assert_eq!(topics_changed.subscribe, vec!["t3".to_string()]);
    assert_eq!(topics_changed.unsubscribe, vec!["t1".to_string()]);
}

#[test]
fn default_settings_leave_the_connection_alone() {
    let current = config("a:1", &["t1"]);
    let plan = plan_activation(&current, None);
    assert!(!plan.reconnect && plan.subscribe.is_empty() && plan.unsubscribe.is_empty() && plan.adopt.is_none());
    let plan2 = plan_activation(&current, Some(MqttConfig::default()));
    assert!(plan2.adopt.is_none());
}

#[test]
fn outgoing_messages_go_to_every_available_topic() {
    let mut c = config("a", &["x"]);
    c.available_topics = vec!["x".to_string(), "y".to_string(), "z".to_string()];
    assert_eq!(publish_targets(&c), vec!["x".to_string(), "y".to_string(), "z".to_string()]);
}

#[test]
fn received_payloads_must_be_utf8() {
    let m = incoming_message("topic/a".to_string(), "héllo".as_bytes()).unwrap();
    assert_eq!(m.topic, "topic/a");
    assert_eq!(m.content, "héllo");
    assert!(incoming_message("t".to_string(), &[0xff, 0xfe]).is_none());
}

#[test]
fn messages_render_with_their_date() {
    let m = MQTTMessage { topic: "a/b".to_string(), content: "hello".to_string(), timestamp: 0 };
    assert_eq!(m.render(), "1970-01-01 00:00:00: a/b\nhello");
    assert_eq!(m.label(), "1970-01-01 00:00:00 - hello");
    let long = MQTTMessage { topic: "t".to_string(), content: "0123456789abcdef".to_string(), timestamp: 1_500_000_000 };
    assert_eq!(long.label(), "1970-01-01 00:00:01.500 - 0123456789a");
    let wide = MQTTMessage { topic: "t".to_string(), content: "ääääää".to_string(), timestamp: 0 };
    assert_eq!(wide.label(), "1970-01-01 00:00:00 - ääääää");
    let long_wide = MQTTMessage { topic: "t".to_string(), content: "aééééééééééééé".to_string(), timestamp: 0 };
    assert_eq!(long_wide.label(), "1970-01-01 00:00:00 - aéééééééééé");
    let e = MQTTMessage::empty();
    assert_eq!(e.timestamp, 0);
    let fresh = MQTTMessage::from_topic("t".to_string(), "c".to_string());
    assert_eq!(fresh.topic, "t");
    assert_eq!(fresh.content, "c");
    assert!(fresh.timestamp > 0);
}

#[test]
fn status_counts_activity_and_errors() {
    let mut s = MQTTStatus::new();
    assert_eq!(s.connection_state, ConnectionState::Disconnected);
    assert_eq!(ConnectionState::default(), ConnectionState::Disconnected);
    s.record_sent(5);
    s.record_sent(6);
    s.record_received(7);
    s.record_error("Publish error", "timeout");
    assert_eq!(s.messages_sent, 2);
    assert_eq!(s.messages_received, 1);
    assert_eq!(s.last_activity, Some(7));
    assert_eq!(s.error_messages, vec!["Publish error: timeout".to_string()]);
}

#[test]
fn handle_runs_only_when_switched_on() {
    let mut h = MQTTHandle { active: false };
    assert_eq!(h.next_step(true), HandleStep::RunCycle);
    assert!(h.active);
    assert_eq!(h.next_step(false), HandleStep::Sleep);
    assert!(!h.active);
}

#[test]
fn dated_texts_use_the_given_date() {
    let m = MQTTMessage { topic: "a".to_string(), content: "ünïcödé-text".to_string(), timestamp: 0 };
    assert_eq!(m.render_dated("D"), "D: a\nünïcödé-text");
    assert_eq!(m.label_dated("D"), "D - ünïcödé-tex");
}

#[test]
fn connection_cycle_returns_to_configured() {
    let mut c = MqttCycle::new();
    assert_eq!(c.state(), MQTTState::Initializing);
    c.configured();
    assert_eq!(c.state(), MQTTState::Configured);
    c.activated();
    assert_eq!(c.state(), MQTTState::Processing);
    c.cycle_done();
    assert_eq!(c.state(), MQTTState::Configured);
}
