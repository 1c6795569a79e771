use opencontroller::clock::local_wall_nanos;
use opencontroller::controller::controller_handle::processor_settings_for;
use opencontroller::controller::event_collector::{
    accepts_event, convert_button_event, map_button, select_active_gamepad, ButtonState, ButtonType, PadButton, PadEvent,
};
use opencontroller::controller::event_processor::{
    elapsed_between, ButtonEvent, ButtonEventState, ButtonTracker, EventCycle, ProcessingState, ProcessorError,
    ProcessorSettings, RawButtonEvent,
};

const MS: i64 = 1_000_000;

fn edge(button: ButtonType, state: ButtonState, ms: i64) -> RawButtonEvent {
    RawButtonEvent { button_type: button, button_state: state, timestamp_ns: ms * MS }
}

#[test]
fn physical_buttons_map_onto_logical_buttons() {
    assert_eq!(map_button(PadButton::South), Some(ButtonType::A));
    assert_eq!(map_button(PadButton::East), Some(ButtonType::B));
    assert_eq!(map_button(PadButton::North), Some(ButtonType::X));
    assert_eq!(map_button(PadButton::West), Some(ButtonType::Y));
    assert_eq!(map_button(PadButton::LeftTrigger), Some(ButtonType::LeftBumper));
    assert_eq!(map_button(PadButton::Mode), Some(ButtonType::Guide));
    assert_eq!(map_button(PadButton::LeftTrigger2), None);
    assert_eq!(map_button(PadButton::C), None);
    assert_eq!(map_button(PadButton::Unknown), None);
}

#[test]
fn button_positions_round_trip() {
    for i in 0..15usize {
        assert_eq!(ButtonType::from_index(i).index(), i);
    }
    assert_eq!(ButtonType::A.index(), 0);
    assert_eq!(ButtonType::Guide.index(), 14);
}

#[test]
fn second_gamepad_is_preferred() {
    assert_eq!(select_active_gamepad(0), None);
    assert_eq!(select_active_gamepad(1), Some(0));
    assert_eq!(select_active_gamepad(3), Some(1));
}

#[test]
fn pad_events_become_button_edges() {
    let pressed = convert_button_event(PadEvent::ButtonPressed(PadButton::South), 42);
    assert_eq!(pressed, Some(RawButtonEvent { button_type: ButtonType::A, button_state: ButtonState::Pressed, timestamp_ns: 42 }));
    let released = convert_button_event(PadEvent::ButtonReleased(PadButton::DPadUp), 7);
    assert_eq!(released, Some(RawButtonEvent { button_type: ButtonType::DPadUp, button_state: ButtonState::Released, timestamp_ns: 7 }));
    assert_eq!(convert_button_event(PadEvent::ButtonRepeated(PadButton::South), 1), None);
    assert_eq!(convert_button_event(PadEvent::ButtonPressed(PadButton::Z), 1), None);
    assert_eq!(convert_button_event(PadEvent::Connected, 1), None);
    assert_eq!(convert_button_event(PadEvent::Disconnected, 1), None);
}

#[test]
fn elapsed_time_truncates_toward_zero() {
    assert_eq!(elapsed_between(0, 1_999_999), 1);
    assert_eq!(elapsed_between(0, 2_000_000), 2);
    assert_eq!(elapsed_between(2_500_000, 0), -2);
    assert_eq!(elapsed_between(i64::MIN, i64::MAX), 18_446_744_073_709);
}

#[test]
fn processor_settings_defaults_and_split() {
    let d = ProcessorSettings::default();
    assert_eq!(d.processing_interval_ms, 130);
    assert_eq!(d.button_press_threshold_ms, 30);
    let s = processor_settings_for(200, 45);
    assert_eq!(s, ProcessorSettings { processing_interval_ms: 200, button_press_threshold_ms: 45 });
}

#[test]
fn press_then_release_in_one_cycle_completes() {
    let mut t = ButtonTracker::new();
    let events = vec![edge(ButtonType::A, ButtonState::Pressed, 100), edge(ButtonType::A, ButtonState::Released, 180)];
    let out = t.process_button_events_at(&events, 300 * MS);
    assert_eq!(out, vec![ButtonEvent { button: ButtonType::A, duration_ms: 80, state: ButtonEventState::Complete }]);
    assert!(!t.has_pending());
}

#[test]
fn unreleased_press_is_held_and_completes_later() {
    let mut t = ButtonTracker::new();
    let first = t.process_button_events_at(&vec![edge(ButtonType::B, ButtonState::Pressed, 1000)], 1130 * MS);
    assert_eq!(first, vec![ButtonEvent { button: ButtonType::B, duration_ms: 130, state: ButtonEventState::Held }]);
    assert_eq!(t.pending_press(ButtonType::B), Some(1000 * MS));
    let second = t.process_button_events_at(&vec![], 1260 * MS);
    assert_eq!(second, vec![ButtonEvent { button: ButtonType::B, duration_ms: 260, state: ButtonEventState::Held }]);
    let third = t.process_button_events_at(&vec![edge(ButtonType::B, ButtonState::Released, 1300)], 1390 * MS);
    assert_eq!(third, vec![ButtonEvent { button: ButtonType::B, duration_ms: 300, state: ButtonEventState::Complete }]);
    assert_eq!(t.pending_press(ButtonType::B), None);
}

#[test]
fn edges_are_ordered_by_time_and_buttons_by_position() {
    let mut t = ButtonTracker::new();
    let events = vec![
        edge(ButtonType::X, ButtonState::Released, 50),
        edge(ButtonType::A, ButtonState::Pressed, 10),
        edge(ButtonType::X, ButtonState::Pressed, 20),
        edge(ButtonType::A, ButtonState::Released, 40),
    ];
    let out = t.process_button_events_at(&events, 100 * MS);
    assert_eq!(
        out,
        vec![
            ButtonEvent { button: ButtonType::A, duration_ms: 30, state: ButtonEventState::Complete },
            ButtonEvent { button: ButtonType::X, duration_ms: 30, state: ButtonEventState::Complete },
        ]
    );
}

#[test]
fn lone_release_is_skipped_and_idle_cycle_is_empty() {
    let mut t = ButtonTracker::new();
    let out = t.process_button_events_at(&vec![edge(ButtonType::Y, ButtonState::Released, 5)], 10 * MS);
    assert!(out.is_empty());
    let idle = t.process_button_events_at(&vec![], 20 * MS);
    assert!(idle.is_empty());
}

#[test]
fn processing_now_reports_held_presses() {
    let mut t = ButtonTracker::new();
    let out = t.process_button_events(&vec![edge(ButtonType::Start, ButtonState::Pressed, 0)]);
    assert_eq!(out.len(), 1);
    assert_eq!(out[0].button, ButtonType::Start);
    assert_eq!(out[0].state, ButtonEventState::Held);
    assert!(out[0].duration_ms > 0);
}

#[test]
fn events_of_other_gamepads_are_skipped() {
    assert!(accepts_event(None, 3));
    assert!(accepts_event(Some(2), 2));
    assert!(!accepts_event(Some(2), 3));
}

#[test]
fn processing_cycle_stages() {
    let mut c = EventCycle::new();
    assert_eq!(c.state(), ProcessingState::Waiting);
    assert_eq!(c.collected(false), Ok(()));
    assert_eq!(c.state(), ProcessingState::Processing);
    c.processed();
    assert_eq!(c.state(), ProcessingState::Updating);
    assert_eq!(
        c.updated(Some("full")),
        Err(ProcessorError::StateUpdateError("Failed to send state update: full".to_string()))
    );
    assert_eq!(c.updated(None), Ok(()));
    assert_eq!(c.state(), ProcessingState::Waiting);
    assert_eq!(
        c.collected(true),
        Err(ProcessorError::EventReceiveError("Event channel disconnected".to_string()))
    );
}

#[test]
fn wall_clock_time_adds_the_offset() {
    assert_eq!(local_wall_nanos(0, 3600), Some(3_600_000_000_000));
    assert_eq!(local_wall_nanos(10, -1), Some(10 - 1_000_000_000));
    assert_eq!(local_wall_nanos(i64::MAX, 1), None);
    assert_eq!(local_wall_nanos(i64::MIN, -1), None);
}
