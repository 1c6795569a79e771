use opencontroller::controller::event_collector::ButtonType;
use opencontroller::controller::event_processor::{ButtonEvent, ButtonEventState};
use opencontroller::mapping::component::{
    buttons_equivalent, ButtonMappingStrategy, ComponentKeyEvent, KeyState, MappingError as ComponentError,
};
use opencontroller::mapping::custom::{insert_payload, CustomConfig, CustomStrategy, ProtocolConfig};
use opencontroller::mapping::elrs::{ELRSChannel, ELRSConfig, ELRSStrategy};
use opencontroller::mapping::engine::{send_failure, shutdown_outcome, HandleSlots, MappingEngine, MappingEngineState, TaskEnd};
use opencontroller::mapping::error::MappingError;
use opencontroller::mapping::keyboard::{KeyCode, KeyEvent, KeyboardConfig, Section};
use opencontroller::mapping::manager::{
    check_configurations, select_elrs_config, select_keyboard_config, ActiveMappings, EventRouter, Route,
};
use opencontroller::mapping::strategy::MappingType;
use opencontroller::mapping::{MappedEvent, RateLimiter};

fn held(button: ButtonType) -> ButtonEvent {
    ButtonEvent { button, duration_ms: 10, state: ButtonEventState::Held }
}

fn complete(button: ButtonType) -> ButtonEvent {
    ButtonEvent { button, duration_ms: 10, state: ButtonEventState::Complete }
}

fn elrs_package(event: Option<MappedEvent>) -> Vec<(u16, u16)> {
    match event {
        Some(MappedEvent::ELRSData { pre_package }) => pre_package,
        other => panic!("expected ELRS data, got {:?}", other),
    }
}

#[test]
fn elrs_channels_number_in_rc_order() {
    assert_eq!(u16::from(ELRSChannel::Roll), 0);
    assert_eq!(u16::from(ELRSChannel::Yaw), 3);
    assert_eq!(u16::from(ELRSChannel::Aux8), 11);
    assert_eq!(ELRSChannel::from_number(2), ELRSChannel::Throttle);
    assert_eq!(ELRSChannel::Aux3.name(), "Aux3");
}

#[test]
fn elrs_default_config_is_mode_two_and_valid() {
    let c = ELRSConfig::default_config();
    assert_eq!(c.name, "Default ELRS Configuration");
    assert_eq!((c.channel_min, c.channel_max, c.channel_mid), (1000, 2000, 1500));
    assert_eq!(c.joystick_mapping[1], Some((ELRSChannel::Roll, ELRSChannel::Pitch)));
    assert_eq!(c.joystick_mapping[0], Some((ELRSChannel::Yaw, ELRSChannel::Throttle)));
    assert_eq!(c.trigger_mapping, vec![Some(ELRSChannel::Aux1), Some(ELRSChannel::Aux2)]);
    assert_eq!(c.button_mapping[0], Some((ELRSChannel::Aux3, 2000, 1000)));
    assert_eq!(c.button_mapping[1], Some((ELRSChannel::Aux4, 2000, 1000)));
    assert_eq!(c.invert_channel[2], Some(true));
    assert_eq!(c.failsafe_values[2], Some(1000));
    assert_eq!(c.failsafe_values[0], Some(1500));
    assert_eq!(c.failsafe_values[8], None);
    assert!(c.validate().is_ok());
    assert_eq!(c.get_description(), "Configuration for ELRS mapping");
}

#[test]
fn elrs_new_takes_midpoint() {
    let d = ELRSConfig::default();
    let c = ELRSConfig::new(
        d.joystick_mapping, d.trigger_mapping, d.button_mapping, d.invert_channel, d.failsafe_values,
        "x".to_string(), 1000, 2001,
    );
    assert_eq!(c.channel_mid, 1500);
    let d = ELRSConfig::default();
    let high = ELRSConfig::new(
        d.joystick_mapping, d.trigger_mapping, d.button_mapping, d.invert_channel, d.failsafe_values,
        "x".to_string(), 60000, 65535,
    );
    assert_eq!(high.channel_mid, 62767);
}

#[test]
fn elrs_validation_errors_name_the_problem() {
    let empty = ELRSConfig::default();
    assert_eq!(
        empty.validate(),
        Err(MappingError::ConfigError("Joystick mapping cannot be empty for ELRS configuration".to_string()))
    );
    let mut partial = ELRSConfig::default();
    partial.joystick_mapping[0] = Some((ELRSChannel::Aux1, ELRSChannel::Pitch));
    partial.trigger_mapping[1] = Some(ELRSChannel::Yaw);
    assert_eq!(
        partial.validate(),
        Err(MappingError::ConfigError("Missing essential channels in ELRS configuration: [Roll, Throttle]".to_string()))
    );
}

#[test]
fn elrs_strategy_starts_at_failsafe_and_bounds_values() {
    let c = ELRSConfig::default_config();
    let mut s = ELRSStrategy::new(c);
    assert_eq!(s.channel_value(ELRSChannel::Throttle), Some(1000));
    assert_eq!(s.channel_value(ELRSChannel::Aux5), None);
    assert!(s.is_inverted(ELRSChannel::Throttle));
    assert!(!s.is_inverted(ELRSChannel::Roll));
    assert_eq!(s.bound_value(2500), 2000);
    assert_eq!(s.bound_value(400), 1000);
    assert_eq!(s.bound_value(1234), 1234);
    let plan = s.analog_assignments();
    assert_eq!(plan.len(), 6);
    assert_eq!(plan[0].channel, ELRSChannel::Yaw);
    assert_eq!(plan[1].channel, ELRSChannel::Throttle);
    assert!(plan[1].invert);
    assert_eq!(plan[4].channel, ELRSChannel::Aux1);
    let analog = vec![(ELRSChannel::Roll, 2600), (ELRSChannel::Pitch, 1600), (ELRSChannel::Throttle, 10)];
    let package = elrs_package(s.map(&analog, &vec![held(ButtonType::A), complete(ButtonType::B)]));
    assert_eq!(
        package,
        vec![(0, 2000), (1, 1600), (2, 1000), (3, 1500), (4, 1000), (5, 1000), (6, 2000), (7, 1000)]
    );
    assert_eq!(s.get_rate_limit(), Some(50));
    assert_eq!(s.get_type(), MappingType::ELRS);
}

#[test]
fn elrs_shutdown_restores_failsafe_values() {
    let mut s = ELRSStrategy::new(ELRSConfig::default_config());
    let _ = s.map(&vec![(ELRSChannel::Roll, 1900), (ELRSChannel::Aux5, 1800)], &vec![held(ButtonType::A)]);
    assert_eq!(s.channel_value(ELRSChannel::Roll), Some(1900));
    s.shutdown();
    assert_eq!(s.channel_value(ELRSChannel::Roll), Some(1500));
    assert_eq!(s.channel_value(ELRSChannel::Aux3), Some(1000));
    assert_eq!(s.channel_value(ELRSChannel::Aux5), Some(1800));
    assert!(s.initialize().is_ok());
    assert_eq!(s.channel_value(ELRSChannel::Roll), Some(1500));
}

#[test]
fn elrs_without_values_maps_to_nothing() {
    let mut s = ELRSStrategy::new(ELRSConfig::default());
    assert!(s.map(&vec![], &vec![]).is_none());
}

#[test]
fn keyboard_default_config_types_letters_and_keys() {
    let c = KeyboardConfig::default_config();
    assert!(c.validate().is_ok());
    assert_eq!(c.button_mapping[0], Some(KeyCode::Space));
    assert_eq!(c.get_description(), "Configuration for Keyboard mapping");
    let mut s = c.create_strategy().unwrap();
    let out = s.map(&vec![held(ButtonType::A)], Section::North, Section::Center);
    let events = match out {
        Some(MappedEvent::KeyboardEvent { key_code }) => key_code,
        other => panic!("expected keyboard events, got {:?}", other),
    };
    assert_eq!(events.len(), 5);
    assert!(matches!(&events[0], KeyEvent::Key { key: KeyCode::Space, pressed: true, .. }));
    assert!(matches!(&events[1], KeyEvent::Text(t) if t == " "));
    assert!(matches!(&events[2], KeyEvent::Key { key: KeyCode::A, pressed: true, .. }));
    assert!(matches!(&events[3], KeyEvent::Key { key: KeyCode::A, pressed: false, .. }));
    assert!(matches!(&events[4], KeyEvent::Text(t) if t == "a"));
    assert_eq!(s.last_sections(), (Section::North, Section::Center));
}

#[test]
fn keyboard_shift_types_upper_case() {
    let mut s = KeyboardConfig::default_config().create_strategy().unwrap();
    let out = s.map(&vec![held(ButtonType::RightBumper)], Section::South, Section::North);
    match out {
        Some(MappedEvent::KeyboardEvent { key_code }) => {
            assert_eq!(key_code.len(), 3);
            assert!(matches!(&key_code[2], KeyEvent::Text(t) if t == "Z"));
        },
        other => panic!("expected keyboard events, got {:?}", other),
    }
    assert!(s.map(&vec![], Section::Center, Section::Center).is_none());
}

#[test]
fn keyboard_validation_needs_a_key() {
    assert_eq!(
        KeyboardConfig::default().validate(),
        Err(MappingError::ConfigError("Button mapping cannot be empty".to_string()))
    );
}

#[test]
fn error_texts_carry_their_category() {
    assert_eq!(MappingError::ConfigError("x".to_string()).message(), "Configuration error: x");
    assert_eq!(MappingError::InitializationError("x".to_string()).message(), "Initialization error: x");
    assert_eq!(MappingError::ChannelError("x".to_string()).message(), "Channel error: x");
    assert_eq!(MappingError::ThreadError("x".to_string()).message(), "Thread error: x");
    assert_eq!(MappingError::StrategyError("x".to_string()).message(), "Strategy error: x");
    assert_eq!(ComponentError::ChannelClosed.message(), "Kanal wurde geschlossen");
    assert_eq!(ComponentError::Unknown("y".to_string()).message(), "Unbekannter Fehler: y");
}

#[test]
fn stored_configs_fall_back_to_defaults() {
    let k = select_keyboard_config(Some(KeyboardConfig::default()));
    assert_eq!(k.name, "Default Keyboard Configuration");
    let mut custom = KeyboardConfig::default();
    custom.button_mapping[3] = Some(KeyCode::Q);
    custom.name = "mine".to_string();
    assert_eq!(select_keyboard_config(Some(custom)).name, "mine");
    assert_eq!(select_keyboard_config(None).name, "Default Keyboard Configuration");
    assert_eq!(select_elrs_config(Some(ELRSConfig::default())).name, "Default ELRS Configuration");
    assert_eq!(select_elrs_config(None).channel_max, 2000);
}

#[test]
fn activation_checks_elrs_first() {
    let ok = check_configurations(&ELRSConfig::default_config(), &KeyboardConfig::default_config());
    assert!(ok.is_ok());
    let bad_elrs = check_configurations(&ELRSConfig::default(), &KeyboardConfig::default());
    assert_eq!(
        bad_elrs,
        Err(MappingError::ConfigError(
            "Invalid configuration: Configuration error: Joystick mapping cannot be empty for ELRS configuration".to_string()
        ))
    );
    let bad_keys = check_configurations(&ELRSConfig::default_config(), &KeyboardConfig::default());
    assert_eq!(
        bad_keys,
        Err(MappingError::ConfigError("Invalid configuration: Configuration error: Button mapping cannot be empty".to_string()))
    );
}

#[test]
fn active_engines_are_replaced_and_removed() {
    let mut a = ActiveMappings::new();
    assert!(!a.is_mapping_active(MappingType::Keyboard));
    assert_eq!(a.record_activation(MappingType::Keyboard), None);
    assert!(a.is_mapping_active(MappingType::Keyboard));
    assert_eq!(a.record_activation(MappingType::Keyboard), Some("Keyboard".to_string()));
    assert_eq!(a.record_activation(MappingType::Custom), None);
    assert!(!a.is_mapping_active(MappingType::Custom));
    a.record_activation(MappingType::ELRS);
    let list = a.get_active_mappings();
    assert_eq!(list, vec![(MappingType::Keyboard, "Keyboard".to_string()), (MappingType::ELRS, "ELRS".to_string())]);
    assert_eq!(a.remove(MappingType::Keyboard), Some("Keyboard".to_string()));
    assert!(!a.is_mapping_active(MappingType::Keyboard));
    a.clear();
    assert!(a.get_active_mappings().is_empty());
}

#[test]
fn repeated_keyboard_batches_are_held_back() {
    let mut r = EventRouter::new();
    let batch = || MappedEvent::KeyboardEvent { key_code: vec![KeyEvent::Text("a".to_string())] };
    let other = || MappedEvent::KeyboardEvent { key_code: vec![KeyEvent::Text("b".to_string())] };
    assert!(matches!(r.route(batch()), Route::Ui(v) if v.len() == 1));
    assert!(matches!(r.route(batch()), Route::Suppressed));
    assert!(matches!(r.route(batch()), Route::Suppressed));
    assert!(matches!(r.route(MappedEvent::ELRSData { pre_package: vec![(0, 1500)] }), Route::Elrs(p) if p == vec![(0, 1500)]));
    assert!(matches!(r.route(batch()), Route::Suppressed));
    assert!(matches!(r.route(other()), Route::Ui(_)));
    assert!(matches!(r.route(batch()), Route::Ui(_)));
    assert!(matches!(r.route(MappedEvent::CustomEvent { event_type: vec![] }), Route::Custom(p) if p.is_empty()));
}

#[test]
fn engine_lifecycle_and_rate_limit() {
    let e = MappingEngine::create(MappingType::ELRS, "ELRS".to_string());
    assert_eq!(e.state(), MappingEngineState::Initializing);
    assert_eq!(e.get_name(), "ELRS");
    let failed = MappingEngine::create(MappingType::ELRS, "ELRS".to_string())
        .configure(Err(MappingError::ConfigError("bad".to_string())), None);
    assert_eq!(
        failed.err(),
        Some(MappingError::InitializationError("Failed to initialize strategy: Configuration error: bad".to_string()))
    );
    let configured = e.configure(Ok(()), Some(500)).ok().unwrap();
    assert_eq!(configured.state(), MappingEngineState::Configured);
    let mut active = configured.activate();
    assert_eq!(active.process_event(false), Ok(false));
    assert_eq!(active.process_event(true), Ok(true));
    assert_eq!(active.process_event(true), Ok(false));
    let deactivating = active.deactivate();
    let (done, had_strategy) = deactivating.shutdown();
    assert_eq!(done.state(), MappingEngineState::Deactivated);
    assert!(had_strategy);
}

#[test]
fn engine_without_limiter_maps_every_input() {
    let mut active = MappingEngine::create(MappingType::Keyboard, "Keyboard".to_string())
        .configure(Ok(()), None)
        .ok()
        .unwrap()
        .activate();
    assert_eq!(active.process_event(true), Ok(true));
    assert_eq!(active.process_event(true), Ok(true));
}

#[test]
fn engine_task_outcomes() {
    assert_eq!(shutdown_outcome(TaskEnd::NoTask), Ok(()));
    assert_eq!(
        shutdown_outcome(TaskEnd::Finished(Err(MappingError::ChannelError("c".to_string())))),
        Err(MappingError::ChannelError("c".to_string()))
    );
    assert_eq!(
        shutdown_outcome(TaskEnd::Panicked("boom".to_string())),
        Err(MappingError::ThreadError("Engine task panicked: boom".to_string()))
    );
    assert_eq!(send_failure("full"), MappingError::ChannelError("Failed to send mapped event: full".to_string()));
}

#[test]
fn rate_limiter_lets_first_event_through() {
    let mut l = RateLimiter::new(50);
    assert_eq!(l.min_interval_ms(), 50);
    assert!(l.should_process());
    assert!(!l.should_process());
    let mut long = RateLimiter::new(3_600_000);
    assert!(long.should_process());
    assert!(!long.should_process());
}

#[test]
fn rate_limiter_without_interval_lets_every_event_through() {
    let mut l = RateLimiter::new(0);
    assert!(l.should_process());
    assert!(l.should_process());
    assert!(l.should_process());
    assert_eq!(l.min_interval_ms(), 0);
}

#[test]
fn button_strategy_presses_its_key() {
    let s = ButtonMappingStrategy::new("jump".to_string(), ButtonType::A, KeyCode::Space);
    assert_eq!(s.name(), "jump");
    assert_eq!(
        s.apply(ButtonType::A, ButtonEventState::Complete),
        Some(ComponentKeyEvent { key_code: KeyCode::Space, state: KeyState::Pressed })
    );
    assert_eq!(s.apply(ButtonType::B, ButtonEventState::Held), None);
}

#[test]
fn button_sets_compare_by_button_and_state() {
    let a = vec![held(ButtonType::A), complete(ButtonType::B)];
    let b = vec![ButtonEvent { button: ButtonType::B, duration_ms: 99, state: ButtonEventState::Complete }, held(ButtonType::A)];
    assert!(buttons_equivalent(&a, &a));
    assert!(buttons_equivalent(&a, &b));
    assert!(!buttons_equivalent(&a, &vec![held(ButtonType::A)]));
    assert!(!buttons_equivalent(&a, &vec![held(ButtonType::A), held(ButtonType::B)]));
    let ab = vec![held(ButtonType::A), held(ButtonType::B)];
    let aa = vec![held(ButtonType::A), held(ButtonType::A)];
    assert!(!buttons_equivalent(&ab, &aa));
    assert!(!buttons_equivalent(&aa, &ab));
    assert!(buttons_equivalent(&aa, &aa));
}

#[test]
fn custom_payloads_accumulate_over_parameters() {
    let c = CustomConfig::demo_config();
    assert!(c.validate().is_ok());
    assert_eq!(c.get_description(), "Custom mapping for Demo Protocol protocol v1.0");
    let mut s = c.create_strategy().ok().unwrap();
    let outputs = vec![
        vec![("x_pos".to_string(), vec![1u8, 0]), ("y_pos".to_string(), vec![2u8, 0])],
        vec![("x_pos".to_string(), vec![9u8, 9])],
    ];
    match s.map(&outputs) {
        Some(MappedEvent::CustomEvent { event_type }) => {
            assert_eq!(
                event_type,
                vec![
                    ("device_id".to_string(), vec![1u8, 2, 3, 4]),
                    ("x_pos".to_string(), vec![9u8, 9]),
                    ("y_pos".to_string(), vec![2u8, 0]),
                ]
            );
        },
        other => panic!("expected custom data, got {:?}", other),
    }
    assert!(s.initialize().is_ok());
    match s.map(&vec![]) {
        Some(MappedEvent::CustomEvent { event_type }) => assert_eq!(event_type.len(), 1),
        other => panic!("expected custom data, got {:?}", other),
    }
    assert_eq!(s.get_rate_limit(), Some(10));
}

#[test]
fn custom_config_needs_a_handler() {
    let protocol = ProtocolConfig { protocol_name: "p".to_string(), protocol_version: "2".to_string(), parameters: vec![] };
    let c = CustomConfig::new(vec![false, false], vec![false, false], vec![false; 15], protocol, "n".to_string());
    assert_eq!(
        c.validate(),
        Err(MappingError::ConfigError("Custom configuration must define at least one handler".to_string()))
    );
    let mut s = CustomStrategy::new(c);
    assert!(s.map(&vec![]).is_none());
}

#[test]
fn payload_insert_replaces_or_appends() {
    let mut v = vec![("a".to_string(), vec![1u8])];
    insert_payload(&mut v, "b".to_string(), vec![2u8]);
    insert_payload(&mut v, "a".to_string(), vec![3u8]);
    assert_eq!(v, vec![("a".to_string(), vec![3u8]), ("b".to_string(), vec![2u8])]);
}

#[test]
fn second_shutdown_does_nothing() {
    let mut slots = HandleSlots::new();
    let idle = slots.begin_shutdown();
    assert!(!idle.send_signal && !idle.await_task);
    slots.started();
    let first = slots.begin_shutdown();
    assert!(first.send_signal && first.await_task);
    let second = slots.begin_shutdown();
    assert!(!second.send_signal && !second.await_task);
    assert!(!slots.signal_pending && !slots.task_pending);
    assert_eq!(shutdown_outcome(TaskEnd::NoTask), Ok(()));
}
