//! Raw gamepad input vocabulary and the mapping of physical gamepad buttons
//! onto the controller's logical buttons.

use vstd::prelude::*;

use super::event_processor::RawButtonEvent;

verus! {

/// The two analog sticks.
#[derive(Clone, Copy, Debug, PartialEq, Eq, Hash, Structural)]
pub enum JoystickType {
    Left,
    Right,
}

/// The two analog triggers.
#[derive(Clone, Copy, Debug, PartialEq, Eq, Hash, Structural)]
pub enum TriggerType {
    Left,
    Right,
}

/// Edge of a button event as reported by the gamepad.
#[derive(Clone, Copy, Debug, PartialEq, Eq, Hash, Structural)]
pub enum ButtonState {
    Pressed,
    Released,
}

/// Logical controller buttons.
#[derive(Clone, Copy, Debug, PartialEq, Eq, Hash, Structural)]
pub enum ButtonType {
    A,
    B,
    X,
    Y,
    Start,
    Select,
    LeftBumper,
    RightBumper,
    LeftStick,
    RightStick,
    DPadUp,
    DPadDown,
    DPadLeft,
    DPadRight,
    Guide,
}

/// Number of logical buttons.
pub const BUTTON_COUNT: usize = 15;

/// Position of a button in declaration order.
pub open spec fn button_index(b: ButtonType) -> int {
    match b {
        ButtonType::A => 0,
        ButtonType::B => 1,
        ButtonType::X => 2,
        ButtonType::Y => 3,
        ButtonType::Start => 4,
        ButtonType::Select => 5,
        ButtonType::LeftBumper => 6,
        ButtonType::RightBumper => 7,
        ButtonType::LeftStick => 8,
        ButtonType::RightStick => 9,
        ButtonType::DPadUp => 10,
        ButtonType::DPadDown => 11,
        ButtonType::DPadLeft => 12,
        ButtonType::DPadRight => 13,
        ButtonType::Guide => 14,
    }
}

/// The button at a position in declaration order.
pub open spec fn button_at(i: int) -> ButtonType {
    if i == 0 { ButtonType::A }
    else if i == 1 { ButtonType::B }
    else if i == 2 { ButtonType::X }
    else if i == 3 { ButtonType::Y }
    else if i == 4 { ButtonType::Start }
    else if i == 5 { ButtonType::Select }
    else if i == 6 { ButtonType::LeftBumper }
    else if i == 7 { ButtonType::RightBumper }
    else if i == 8 { ButtonType::LeftStick }
    else if i == 9 { ButtonType::RightStick }
    else if i == 10 { ButtonType::DPadUp }
    else if i == 11 { ButtonType::DPadDown }
    else if i == 12 { ButtonType::DPadLeft }
    else if i == 13 { ButtonType::DPadRight }
    else { ButtonType::Guide }
}

/// `button_index` and `button_at` are inverse to each other.
pub proof fn lemma_button_index_roundtrip(b: ButtonType)
    ensures
        0 <= button_index(b) < BUTTON_COUNT,
        button_at(button_index(b)) == b,
{
}

impl ButtonType {
    /// Position of this button in declaration order.
    pub fn index(&self) -> (i: usize)
        ensures
            i as int == button_index(*self),
            i < BUTTON_COUNT,
    {
        match self {
            ButtonType::A => 0,
            ButtonType::B => 1,
            ButtonType::X => 2,
            ButtonType::Y => 3,
            ButtonType::Start => 4,
            ButtonType::Select => 5,
            ButtonType::LeftBumper => 6,
            ButtonType::RightBumper => 7,
            ButtonType::LeftStick => 8,
            ButtonType::RightStick => 9,
            ButtonType::DPadUp => 10,
            ButtonType::DPadDown => 11,
            ButtonType::DPadLeft => 12,
            ButtonType::DPadRight => 13,
            ButtonType::Guide => 14,
        }
    }

    /// The button at position `i` in declaration order.
    pub fn from_index(i: usize) -> (b: ButtonType)
        requires
            i < BUTTON_COUNT,
        ensures
            b == button_at(i as int),
            button_index(b) == i,
    {
        if i == 0 { ButtonType::A }
        else if i == 1 { ButtonType::B }
        else if i == 2 { ButtonType::X }
        else if i == 3 { ButtonType::Y }
        else if i == 4 { ButtonType::Start }
        else if i == 5 { ButtonType::Select }
        else if i == 6 { ButtonType::LeftBumper }
        else if i == 7 { ButtonType::RightBumper }
        else if i == 8 { ButtonType::LeftStick }
        else if i == 9 { ButtonType::RightStick }
        else if i == 10 { ButtonType::DPadUp }
        else if i == 11 { ButtonType::DPadDown }
        else if i == 12 { ButtonType::DPadLeft }
        else if i == 13 { ButtonType::DPadRight }
        else { ButtonType::Guide }
    }
}

/// Physical gamepad buttons, named by position as the gamepad driver reports them.
#[derive(Clone, Copy, Debug, PartialEq, Eq, Hash, Structural)]
pub enum PadButton {
    South,
    East,
    North,
    West,
    C,
    Z,
    LeftTrigger,
    LeftTrigger2,
    RightTrigger,
    RightTrigger2,
    Select,
    Start,
    Mode,
    LeftThumb,
    RightThumb,
    DPadUp,
    DPadDown,
    DPadLeft,
    DPadRight,
    Unknown,
}

/// Logical button that a physical button stands for, if any.
pub open spec fn spec_map_button(button: PadButton) -> Option<ButtonType> {
    match button {
        PadButton::South => Some(ButtonType::A),
        PadButton::East => Some(ButtonType::B),
        PadButton::West => Some(ButtonType::Y),
        PadButton::North => Some(ButtonType::X),
        PadButton::Start => Some(ButtonType::Start),
        PadButton::Select => Some(ButtonType::Select),
        PadButton::LeftTrigger => Some(ButtonType::LeftBumper),
        PadButton::RightTrigger => Some(ButtonType::RightBumper),
        PadButton::LeftThumb => Some(ButtonType::LeftStick),
        PadButton::RightThumb => Some(ButtonType::RightStick),
        PadButton::DPadUp => Some(ButtonType::DPadUp),
        PadButton::DPadDown => Some(ButtonType::DPadDown),
        PadButton::DPadLeft => Some(ButtonType::DPadLeft),
        PadButton::DPadRight => Some(ButtonType::DPadRight),
        PadButton::Mode => Some(ButtonType::Guide),
        _ => None,
    }
}

/// Maps a physical gamepad button onto the logical button it stands for.
/// The second trigger pair, `C`, `Z` and unknown buttons have no logical button.
pub fn map_button(button: PadButton) -> (res: Option<ButtonType>)
    ensures
        res == spec_map_button(button),
{
    match button {
        PadButton::South => Some(ButtonType::A),
        PadButton::East => Some(ButtonType::B),
        PadButton::West => Some(ButtonType::Y),
        PadButton::North => Some(ButtonType::X),
        PadButton::Start => Some(ButtonType::Start),
        PadButton::Select => Some(ButtonType::Select),
        PadButton::LeftTrigger => Some(ButtonType::LeftBumper),
        PadButton::RightTrigger => Some(ButtonType::RightBumper),
        PadButton::LeftThumb => Some(ButtonType::LeftStick),
        PadButton::RightThumb => Some(ButtonType::RightStick),
        PadButton::DPadUp => Some(ButtonType::DPadUp),
        PadButton::DPadDown => Some(ButtonType::DPadDown),
        PadButton::DPadLeft => Some(ButtonType::DPadLeft),
        PadButton::DPadRight => Some(ButtonType::DPadRight),
        PadButton::Mode => Some(ButtonType::Guide),
        _ => None,
    }
}

/// No two physical buttons map onto the same logical button.
pub proof fn lemma_map_button_injective(p: PadButton, q: PadButton)
    requires
        spec_map_button(p) is Some,
        spec_map_button(p) == spec_map_button(q),
    ensures
        p == q,
{
}

/// Each direction of the physical D-pad stands for the logical D-pad button of the
/// same direction.
pub proof fn law_dpad_keeps_its_direction()
    ensures
        spec_map_button(PadButton::DPadUp) == Some(ButtonType::DPadUp),
        spec_map_button(PadButton::DPadDown) == Some(ButtonType::DPadDown),
        spec_map_button(PadButton::DPadLeft) == Some(ButtonType::DPadLeft),
        spec_map_button(PadButton::DPadRight) == Some(ButtonType::DPadRight),
{
}

/// Side of the gamepad a physical button sits on, for those that have one: -1
/// left, 1 right.
pub open spec fn pad_side(p: PadButton) -> Option<int> {
    match p {
        PadButton::LeftTrigger | PadButton::LeftThumb | PadButton::DPadLeft => Some(-1),
        PadButton::RightTrigger | PadButton::RightThumb | PadButton::DPadRight => Some(1),
        _ => None,
    }
}

/// Side a logical button belongs to, for those that have one: -1 left, 1 right.
pub open spec fn button_side(b: ButtonType) -> Option<int> {
    match b {
        ButtonType::LeftBumper | ButtonType::LeftStick | ButtonType::DPadLeft => Some(-1),
        ButtonType::RightBumper | ButtonType::RightStick | ButtonType::DPadRight => Some(1),
        _ => None,
    }
}

/// Mapping keeps sides: a physical button on the left (the left bumper, the left
/// stick's click, the D-pad's left) stands for a left logical button, one on the
/// right for a right one, and a button on neither side for one on neither side.
pub proof fn law_map_button_keeps_sides(p: PadButton)
    requires
        spec_map_button(p) is Some,
    ensures
        button_side(spec_map_button(p)->0) == pad_side(p),
{
}

/// Group of a physical button: 0 the four face buttons, 1 the shoulder buttons,
/// 2 the stick clicks, 3 the D-pad, 4 the menu buttons (Start, Select, Mode).
pub open spec fn pad_group(p: PadButton) -> Option<int> {
    match p {
        PadButton::South | PadButton::East | PadButton::North | PadButton::West => Some(0),
        PadButton::LeftTrigger | PadButton::RightTrigger => Some(1),
        PadButton::LeftThumb | PadButton::RightThumb => Some(2),
        PadButton::DPadUp | PadButton::DPadDown | PadButton::DPadLeft | PadButton::DPadRight => Some(3),
        PadButton::Start | PadButton::Select | PadButton::Mode => Some(4),
        _ => None,
    }
}

/// Group of a logical button, numbered as `pad_group` numbers the physical ones.
pub open spec fn button_group(b: ButtonType) -> int {
    match b {
        ButtonType::A | ButtonType::B | ButtonType::X | ButtonType::Y => 0,
        ButtonType::LeftBumper | ButtonType::RightBumper => 1,
        ButtonType::LeftStick | ButtonType::RightStick => 2,
        ButtonType::DPadUp | ButtonType::DPadDown | ButtonType::DPadLeft | ButtonType::DPadRight => 3,
        ButtonType::Start | ButtonType::Select | ButtonType::Guide => 4,
    }
}

/// A physical button stands for a logical button exactly when it belongs to one
/// of the groups, and then for one of the same group.
pub proof fn law_map_button_keeps_groups(p: PadButton)
    ensures
        spec_map_button(p) is Some <==> pad_group(p) is Some,
        spec_map_button(p) is Some ==> pad_group(p) == Some(button_group(spec_map_button(p)->0)),
{
}

/// Whether an event of gamepad `source` is collected: when a gamepad was chosen,
/// only its events are; when none was (no gamepad at start-up), every event is.
pub fn accepts_event(active: Option<usize>, source: usize) -> (b: bool)
    ensures
        b == (active is None || active == Some(source)),
{
    match active {
        Some(a) => a == source,
        None => true,
    }
}

/// Gamepad events other than axis motion, as the gamepad driver reports them.
#[derive(Clone, Copy, Debug, PartialEq, Eq, Structural)]
pub enum PadEvent {
    ButtonPressed(PadButton),
    ButtonReleased(PadButton),
    ButtonRepeated(PadButton),
    Connected,
    Disconnected,
    Other,
}

/// The raw button edge for a gamepad event seen at `timestamp_ns`: presses and
/// releases of buttons that stand for a logical button; repeats, connection
/// changes and other events give nothing.
pub fn convert_button_event(event: PadEvent, timestamp_ns: i64) -> (r: Option<RawButtonEvent>)
    ensures
        match event {
            PadEvent::ButtonPressed(b) => r == match spec_map_button(b) {
                Some(t) => Some(RawButtonEvent { button_type: t, button_state: ButtonState::Pressed, timestamp_ns }),
                None => None,
            },
            PadEvent::ButtonReleased(b) => r == match spec_map_button(b) {
                Some(t) => Some(RawButtonEvent { button_type: t, button_state: ButtonState::Released, timestamp_ns }),
                None => None,
            },
            _ => r is None,
        },
{
    match event {
        PadEvent::ButtonPressed(b) => match map_button(b) {
            Some(t) => Some(RawButtonEvent { button_type: t, button_state: ButtonState::Pressed, timestamp_ns }),
            None => None,
        },
        PadEvent::ButtonReleased(b) => match map_button(b) {
            Some(t) => Some(RawButtonEvent { button_type: t, button_state: ButtonState::Released, timestamp_ns }),
            None => None,
        },
        _ => None,
    }
}

/// Errors of the input collection stage.
#[derive(Clone, Debug, PartialEq, Eq)]
pub enum CollectorError {
    InitializationError(String),
    EventCollectionError(String),
    EventSendError(String),
    NoGamepadError(String),
}

/// Lifecycle states of the input collector.
#[derive(Clone, Copy, Debug, PartialEq, Eq, Structural)]
pub enum CollectionState {
    Initializing,
    Collecting,
}

/// Gamepad the collector listens to, given the number of connected gamepads:
/// the second one when there are several, the first when there is one, none otherwise.
pub fn select_active_gamepad(gamepad_count: usize) -> (res: Option<usize>)
    ensures
        gamepad_count == 0 ==> res is None,
        gamepad_count == 1 ==> res == Some(0usize),
        gamepad_count > 1 ==> res == Some(1usize),
{
    if gamepad_count == 0 {
        None
    } else if gamepad_count > 1 {
        Some(1)
    } else {
        Some(0)
    }
}

} // verus!
