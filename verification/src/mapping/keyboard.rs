//! Keyboard mapping: buttons become keys, modifier buttons become key modifiers,
//! and pairs of stick sections (left, right) become letters, so that text can be
//! typed with the two sticks.

use vstd::prelude::*;
use vstd::string::*;

use crate::controller::event_collector::{button_at, button_index, ButtonType, BUTTON_COUNT};
use crate::controller::event_processor::{ButtonEvent, ButtonEventState};
use super::error::MappingError;
use super::strategy::{MappingContext, MappingType};
use super::MappedEvent;

verus! {

/// Section of a stick's range of motion: eight directions and the center.
#[derive(Clone, Copy, Debug, PartialEq, Eq, Hash, Structural)]
pub enum Section {
    North,
    NorthEast,
    East,
    SouthEast,
    South,
    SouthWest,
    West,
    NorthWest,
    Center,
}

impl Default for Section {
    fn default() -> (s: Self)
        ensures
            s == Section::Center,
    {
        Section::Center
    }
}

/// Number of sections.
pub const SECTION_COUNT: usize = 9;

/// Number of (left, right) section pairs.
pub const SECTION_PAIR_COUNT: usize = 81;

/// Position of a section in declaration order.
pub open spec fn section_index(s: Section) -> int {
    match s {
        Section::North => 0,
        Section::NorthEast => 1,
        Section::East => 2,
        Section::SouthEast => 3,
        Section::South => 4,
        Section::SouthWest => 5,
        Section::West => 6,
        Section::NorthWest => 7,
        Section::Center => 8,
    }
}

/// Position of a (left, right) section pair.
pub open spec fn pair_index(left: Section, right: Section) -> int {
    section_index(left) * 9 + section_index(right)
}

/// Position of a (left, right) section pair.
pub fn section_pair_position(left: Section, right: Section) -> (i: usize)
    ensures
        i as int == pair_index(left, right),
        i < SECTION_PAIR_COUNT,
{
    let l: usize = match left {
        Section::North => 0,
        Section::NorthEast => 1,
        Section::East => 2,
        Section::SouthEast => 3,
        Section::South => 4,
        Section::SouthWest => 5,
        Section::West => 6,
        Section::NorthWest => 7,
        Section::Center => 8,
    };
    let r: usize = match right {
        Section::North => 0,
        Section::NorthEast => 1,
        Section::East => 2,
        Section::SouthEast => 3,
        Section::South => 4,
        Section::SouthWest => 5,
        Section::West => 6,
        Section::NorthWest => 7,
        Section::Center => 8,
    };
    l * 9 + r
}

/// Keyboard keys that mappings produce.
#[derive(Clone, Copy, Debug, PartialEq, Eq, Hash, Structural)]
pub enum KeyCode {
    ArrowDown,
    ArrowLeft,
    ArrowRight,
    ArrowUp,
    Escape,
    Tab,
    Backspace,
    Enter,
    Space,
    Semicolon,
    A,
    B,
    C,
    D,
    E,
    F,
    G,
    H,
    I,
    J,
    K,
    L,
    M,
    N,
    O,
    P,
    Q,
    R,
    S,
    T,
    U,
    V,
    W,
    X,
    Y,
    Z,
}

/// Key modifier flags.
#[derive(Clone, Copy, Debug, PartialEq, Eq, Hash, Structural)]
pub struct KeyModifiers {
    pub alt: bool,
    pub ctrl: bool,
    pub shift: bool,
    pub mac_cmd: bool,
    pub command: bool,
}

impl KeyModifiers {
    /// Flags set in either operand.
    pub open spec fn spec_plus(self, rhs: KeyModifiers) -> KeyModifiers {
        KeyModifiers {
            alt: self.alt || rhs.alt,
            ctrl: self.ctrl || rhs.ctrl,
            shift: self.shift || rhs.shift,
            mac_cmd: self.mac_cmd || rhs.mac_cmd,
            command: self.command || rhs.command,
        }
    }

    /// No flag set.
    pub open spec fn spec_none() -> KeyModifiers {
        KeyModifiers { alt: false, ctrl: false, shift: false, mac_cmd: false, command: false }
    }

    /// Flags set in either operand.
    pub fn plus(self, rhs: KeyModifiers) -> (r: KeyModifiers)
        ensures
            r == self.spec_plus(rhs),
    {
        KeyModifiers {
            alt: self.alt || rhs.alt,
            ctrl: self.ctrl || rhs.ctrl,
            shift: self.shift || rhs.shift,
            mac_cmd: self.mac_cmd || rhs.mac_cmd,
            command: self.command || rhs.command,
        }
    }

    /// No flag set.
    pub fn none() -> (r: KeyModifiers)
        ensures
            r == KeyModifiers::spec_none(),
    {
        KeyModifiers { alt: false, ctrl: false, shift: false, mac_cmd: false, command: false }
    }

    /// Only the Alt flag.
    pub fn alt_only() -> (r: KeyModifiers)
        ensures
            r == (KeyModifiers { alt: true, ..KeyModifiers::spec_none() }),
    {
        KeyModifiers { alt: true, ctrl: false, shift: false, mac_cmd: false, command: false }
    }

    /// Only the Ctrl flag.
    pub fn ctrl_only() -> (r: KeyModifiers)
        ensures
            r == (KeyModifiers { ctrl: true, ..KeyModifiers::spec_none() }),
    {
        KeyModifiers { alt: false, ctrl: true, shift: false, mac_cmd: false, command: false }
    }

    /// Only the Shift flag.
    pub fn shift_only() -> (r: KeyModifiers)
        ensures
            r == (KeyModifiers { shift: true, ..KeyModifiers::spec_none() }),
    {
        KeyModifiers { alt: false, ctrl: false, shift: true, mac_cmd: false, command: false }
    }

    /// Only the platform command flag.
    pub fn command_only() -> (r: KeyModifiers)
        ensures
            r == (KeyModifiers { command: true, ..KeyModifiers::spec_none() }),
    {
        KeyModifiers { alt: false, ctrl: false, shift: false, mac_cmd: false, command: true }
    }
}

/// A keyboard event to inject into the UI: a key going down or up, or typed text.
#[derive(Debug)]
pub enum KeyEvent {
    Key {
        key: KeyCode,
        physical_key: Option<KeyCode>,
        pressed: bool,
        repeat: bool,
        modifiers: KeyModifiers,
    },
    Text(String),
}

/// Abstract value of a keyboard event, with typed text as characters.
pub enum KeyEventView {
    Key {
        key: KeyCode,
        physical_key: Option<KeyCode>,
        pressed: bool,
        repeat: bool,
        modifiers: KeyModifiers,
    },
    Text(Seq<char>),
}

impl View for KeyEvent {
    type V = KeyEventView;

    open spec fn view(&self) -> KeyEventView {
        match self {
            KeyEvent::Key { key, physical_key, pressed, repeat, modifiers } => KeyEventView::Key {
                key: *key,
                physical_key: *physical_key,
                pressed: *pressed,
                repeat: *repeat,
                modifiers: *modifiers,
            },
            KeyEvent::Text(s) => KeyEventView::Text(s@),
        }
    }
}

impl Clone for KeyEvent {
    fn clone(&self) -> (r: Self)
        ensures
            r@ == self@,
    {
        match self {
            KeyEvent::Key { key, physical_key, pressed, repeat, modifiers } => KeyEvent::Key {
                key: *key,
                physical_key: *physical_key,
                pressed: *pressed,
                repeat: *repeat,
                modifiers: *modifiers,
            },
            KeyEvent::Text(s) => KeyEvent::Text(s.clone()),
        }
    }
}

/// Abstract values of a sequence of keyboard events.
pub open spec fn events_view(s: Seq<KeyEvent>) -> Seq<KeyEventView> {
    s.map_values(|e: KeyEvent| e@)
}

/// Copies a sequence of keyboard events.
pub fn clone_events(v: &Vec<KeyEvent>) -> (r: Vec<KeyEvent>)
    ensures
        events_view(r@) == events_view(v@),
{
    let mut r: Vec<KeyEvent> = Vec::new();
    for i in 0..v.len()
        invariant
            r@.len() == i,
            i <= v@.len(),
            forall|k: int| 0 <= k < i ==> (#[trigger] r@[k])@ == v@[k]@,
    {
        r.push(v[i].clone());
    }
    assert(events_view(r@) =~= events_view(v@));
    r
}

/// Whether two sequences of keyboard events are equal.
pub fn events_equal(a: &Vec<KeyEvent>, b: &Vec<KeyEvent>) -> (eq: bool)
    ensures
        eq == (events_view(a@) == events_view(b@)),
{
    if a.len() != b.len() {
        proof {
            if events_view(a@) == events_view(b@) {
                assert(events_view(a@).len() == a@.len());
            }
        }
        return false;
    }
    let mut i: usize = 0;
    while i < a.len()
        invariant
            a@.len() == b@.len(),
            i <= a@.len(),
            forall|k: int| 0 <= k < i ==> (#[trigger] a@[k])@ == b@[k]@,
        decreases a@.len() - i,
    {
        let same = match (&a[i], &b[i]) {
            (
                KeyEvent::Key { key: k1, physical_key: p1, pressed: d1, repeat: r1, modifiers: m1 },
                KeyEvent::Key { key: k2, physical_key: p2, pressed: d2, repeat: r2, modifiers: m2 },
            ) => {
                let same_phys = match (p1, p2) {
                    (Some(x), Some(y)) => *x == *y,
                    (None, None) => true,
                    _ => false,
                };
                *k1 == *k2 && same_phys && *d1 == *d2 && *r1 == *r2 && *m1 == *m2
            },
            (KeyEvent::Text(s1), KeyEvent::Text(s2)) => *s1 == *s2,
            _ => false,
        };
        if !same {
            proof {
                assert(events_view(a@)[i as int] == a@[i as int]@);
                assert(events_view(b@)[i as int] == b@[i as int]@);
            }
            return false;
        }
        i = i + 1;
    }
    assert(events_view(a@) =~= events_view(b@));
    true
}

/// Buttons that act as modifiers and produce no key of their own.
pub open spec fn is_modifier_button(b: ButtonType) -> bool {
    b == ButtonType::LeftBumper || b == ButtonType::RightBumper || b == ButtonType::Start
        || b == ButtonType::Select
}

/// Modifiers of the mapped buttons among `events`, combined; with `only_modifier_buttons`,
/// only the events of modifier buttons count.
pub open spec fn modifiers_of(
    table: Seq<Option<KeyModifiers>>,
    events: Seq<ButtonEvent>,
    only_modifier_buttons: bool,
) -> KeyModifiers
    decreases events.len(),
{
    if events.len() == 0 {
        KeyModifiers::spec_none()
    } else {
        let m = modifiers_of(table, events.drop_last(), only_modifier_buttons);
        let e = events.last();
        if !only_modifier_buttons || is_modifier_button(e.button) {
            match table[button_index(e.button)] {
                Some(k) => m.spec_plus(k),
                None => m,
            }
        } else {
            m
        }
    }
}

/// Text that accompanies a key press, for the keys that type whitespace.
pub open spec fn key_text(key: KeyCode) -> Seq<KeyEventView> {
    if key == KeyCode::Enter {
        seq![KeyEventView::Text("\n"@)]
    } else if key == KeyCode::Tab {
        seq![KeyEventView::Text("\t"@)]
    } else if key == KeyCode::Space {
        seq![KeyEventView::Text(" "@)]
    } else {
        Seq::empty()
    }
}

/// Keyboard events of the non-modifier buttons among `events` that have a key:
/// a key press with the given modifiers, followed by the key's text where it has one.
pub open spec fn button_key_events(
    keys: Seq<Option<KeyCode>>,
    events: Seq<ButtonEvent>,
    modifiers: KeyModifiers,
) -> Seq<KeyEventView>
    decreases events.len(),
{
    if events.len() == 0 {
        Seq::empty()
    } else {
        let rest = button_key_events(keys, events.drop_last(), modifiers);
        let e = events.last();
        if is_modifier_button(e.button) {
            rest
        } else {
            match keys[button_index(e.button)] {
                Some(key) => rest + seq![KeyEventView::Key {
                    key: key,
                    physical_key: None,
                    pressed: true,
                    repeat: false,
                    modifiers: modifiers,
                }] + key_text(key),
                None => rest,
            }
        }
    }
}

/// Last reported state of each button after the non-modifier buttons among
/// `events` that have a key were reported.
pub open spec fn states_after(
    states: Seq<Option<ButtonEventState>>,
    keys: Seq<Option<KeyCode>>,
    events: Seq<ButtonEvent>,
) -> Seq<Option<ButtonEventState>>
    decreases events.len(),
{
    if events.len() == 0 {
        states
    } else {
        let s = states_after(states, keys, events.drop_last());
        let e = events.last();
        if !is_modifier_button(e.button) && keys[button_index(e.button)] is Some {
            s.update(button_index(e.button), Some(e.state))
        } else {
            s
        }
    }
}

/// Keyboard events for a pair of stick sections: if the pair has a letter, the
/// letter's key goes down and up with the given modifiers, and its upper-case
/// text is typed with Shift, its lower-case text otherwise.
pub open spec fn joystick_key_events(
    letters: Seq<Option<(KeyCode, String, String)>>,
    left: Section,
    right: Section,
    modifiers: KeyModifiers,
) -> Seq<KeyEventView> {
    match letters[pair_index(left, right)] {
        Some((key, upper, lower)) => seq![
            KeyEventView::Key {
                key: key,
                physical_key: Some(key),
                pressed: true,
                repeat: false,
                modifiers: modifiers,
            },
            KeyEventView::Key {
                key: key,
                physical_key: Some(key),
                pressed: false,
                repeat: false,
                modifiers: modifiers,
            },
            KeyEventView::Text(if modifiers.shift { upper@ } else { lower@ }),
        ],
        None => Seq::empty(),
    }
}

/// Key of each button in the default configuration.
pub open spec fn default_button_key(b: ButtonType) -> Option<KeyCode> {
    match b {
        ButtonType::A => Some(KeyCode::Space),
        ButtonType::B => Some(KeyCode::Enter),
        ButtonType::X => Some(KeyCode::Escape),
        ButtonType::Y => Some(KeyCode::Tab),
        ButtonType::LeftStick => Some(KeyCode::Semicolon),
        ButtonType::RightStick => Some(KeyCode::Backspace),
        ButtonType::DPadUp => Some(KeyCode::ArrowUp),
        ButtonType::DPadRight => Some(KeyCode::ArrowRight),
        ButtonType::DPadLeft => Some(KeyCode::ArrowLeft),
        ButtonType::DPadDown => Some(KeyCode::ArrowDown),
        _ => None,
    }
}

/// Modifiers of each button in the default configuration.
pub open spec fn default_button_modifiers(b: ButtonType) -> Option<KeyModifiers> {
    match b {
        ButtonType::RightBumper => Some(KeyModifiers { shift: true, ..KeyModifiers::spec_none() }),
        ButtonType::LeftBumper => Some(KeyModifiers { ctrl: true, ..KeyModifiers::spec_none() }),
        ButtonType::Select => Some(KeyModifiers { alt: true, ..KeyModifiers::spec_none() }),
        ButtonType::Start => Some(KeyModifiers { command: true, ..KeyModifiers::spec_none() }),
        _ => None,
    }
}

/// Letter of each (left, right) stick section pair in the default configuration:
/// A to H are the left stick's directions with the right stick centered, I to P the
/// right stick's directions with the left stick centered, Q to X both sticks in the
/// same direction, Y left north and right south, Z left south and right north.
pub open spec fn default_letter(left: Section, right: Section) -> Option<KeyCode> {
    if left == Section::North && right == Section::Center {
        Some(KeyCode::A)
    } else if left == Section::NorthEast && right == Section::Center {
        Some(KeyCode::B)
    } else if left == Section::East && right == Section::Center {
        Some(KeyCode::C)
    } else if left == Section::SouthEast && right == Section::Center {
        Some(KeyCode::D)
    } else if left == Section::South && right == Section::Center {
        Some(KeyCode::E)
    } else if left == Section::SouthWest && right == Section::Center {
        Some(KeyCode::F)
    } else if left == Section::West && right == Section::Center {
        Some(KeyCode::G)
    } else if left == Section::NorthWest && right == Section::Center {
        Some(KeyCode::H)
    } else if left == Section::Center && right == Section::North {
        Some(KeyCode::I)
    } else if left == Section::Center && right == Section::NorthEast {
        Some(KeyCode::J)
    } else if left == Section::Center && right == Section::East {
        Some(KeyCode::K)
    } else if left == Section::Center && right == Section::SouthEast {
        Some(KeyCode::L)
    } else if left == Section::Center && right == Section::South {
        Some(KeyCode::M)
    } else if left == Section::Center && right == Section::SouthWest {
        Some(KeyCode::N)
    } else if left == Section::Center && right == Section::West {
        Some(KeyCode::O)
    } else if left == Section::Center && right == Section::NorthWest {
        Some(KeyCode::P)
    } else if left == Section::North && right == Section::North {
        Some(KeyCode::Q)
    } else if left == Section::NorthEast && right == Section::NorthEast {
        Some(KeyCode::R)
    } else if left == Section::East && right == Section::East {
        Some(KeyCode::S)
    } else if left == Section::SouthEast && right == Section::SouthEast {
        Some(KeyCode::T)
    } else if left == Section::South && right == Section::South {
        Some(KeyCode::U)
    } else if left == Section::SouthWest && right == Section::SouthWest {
        Some(KeyCode::V)
    } else if left == Section::West && right == Section::West {
        Some(KeyCode::W)
    } else if left == Section::NorthWest && right == Section::NorthWest {
        Some(KeyCode::X)
    } else if left == Section::North && right == Section::South {
        Some(KeyCode::Y)
    } else if left == Section::South && right == Section::North {
        Some(KeyCode::Z)
    } else {
        None
    }
}

/// Upper-case text of a letter key.
pub open spec fn upper_text(key: KeyCode) -> Seq<char> {
    match key {
        KeyCode::A => "A"@,
        KeyCode::B => "B"@,
        KeyCode::C => "C"@,
        KeyCode::D => "D"@,
        KeyCode::E => "E"@,
        KeyCode::F => "F"@,
        KeyCode::G => "G"@,
        KeyCode::H => "H"@,
        KeyCode::I => "I"@,
        KeyCode::J => "J"@,
        KeyCode::K => "K"@,
        KeyCode::L => "L"@,
        KeyCode::M => "M"@,
        KeyCode::N => "N"@,
        KeyCode::O => "O"@,
        KeyCode::P => "P"@,
        KeyCode::Q => "Q"@,
        KeyCode::R => "R"@,
        KeyCode::S => "S"@,
        KeyCode::T => "T"@,
        KeyCode::U => "U"@,
        KeyCode::V => "V"@,
        KeyCode::W => "W"@,
        KeyCode::X => "X"@,
        KeyCode::Y => "Y"@,
        KeyCode::Z => "Z"@,
        _ => Seq::empty(),
    }
}

/// Lower-case text of a letter key.
pub open spec fn lower_text(key: KeyCode) -> Seq<char> {
    match key {
        KeyCode::A => "a"@,
        KeyCode::B => "b"@,
        KeyCode::C => "c"@,
        KeyCode::D => "d"@,
        KeyCode::E => "e"@,
        KeyCode::F => "f"@,
        KeyCode::G => "g"@,
        KeyCode::H => "h"@,
        KeyCode::I => "i"@,
        KeyCode::J => "j"@,
        KeyCode::K => "k"@,
        KeyCode::L => "l"@,
        KeyCode::M => "m"@,
        KeyCode::N => "n"@,
        KeyCode::O => "o"@,
        KeyCode::P => "p"@,
        KeyCode::Q => "q"@,
        KeyCode::R => "r"@,
        KeyCode::S => "s"@,
        KeyCode::T => "t"@,
        KeyCode::U => "u"@,
        KeyCode::V => "v"@,
        KeyCode::W => "w"@,
        KeyCode::X => "x"@,
        KeyCode::Y => "y"@,
        KeyCode::Z => "z"@,
        _ => Seq::empty(),
    }
}

/// Configuration of the keyboard mapping.
pub struct KeyboardConfig {
    /// Key of each button, by button position.
    pub button_mapping: Vec<Option<KeyCode>>,
    /// Letter of each (left, right) stick section pair, by pair position:
    /// its key, upper-case text and lower-case text.
    pub joystick_mapping: Vec<Option<(KeyCode, String, String)>>,
    /// Modifiers of each button, by button position.
    pub modifier_mapping: Vec<Option<KeyModifiers>>,
    /// Human-readable name.
    pub name: String,
}

impl KeyboardConfig {
    /// The default keyboard configuration: A/B/X/Y type Space, Enter, Escape and Tab,
    /// the stick buttons Semicolon and Backspace, the D-pad the arrow keys; the right
    /// bumper is Shift, the left bumper Ctrl, Select Alt and Start the command key;
    /// the letters are typed with stick section pairs as `default_letter` gives them.
    pub fn default_config() -> (c: KeyboardConfig)
        ensures
            c.is_default_layout(),
            c.wf(),
            !c.has_no_button_keys(),
            forall|b: ButtonType| #[trigger] c.button_mapping@[button_index(b)] == default_button_key(b),
            forall|b: ButtonType| #[trigger] c.modifier_mapping@[button_index(b)] == default_button_modifiers(b),
            forall|l: Section, r: Section| (match #[trigger] c.joystick_mapping@[pair_index(l, r)] {
                Some((key, upper, lower)) => default_letter(l, r) == Some(key) && upper@ == upper_text(key)
                    && lower@ == lower_text(key),
                None => default_letter(l, r) is None,
            }),
            c.name@ == "Default Keyboard Configuration"@,
    {
        let mut keys: Vec<Option<KeyCode>> = empty_slots(BUTTON_COUNT);
        keys.set(0, Some(KeyCode::Space));
        keys.set(1, Some(KeyCode::Enter));
        keys.set(2, Some(KeyCode::Escape));
        keys.set(3, Some(KeyCode::Tab));
        keys.set(8, Some(KeyCode::Semicolon));
        keys.set(9, Some(KeyCode::Backspace));
        keys.set(10, Some(KeyCode::ArrowUp));
        keys.set(13, Some(KeyCode::ArrowRight));
        keys.set(12, Some(KeyCode::ArrowLeft));
        keys.set(11, Some(KeyCode::ArrowDown));
        let mut mods: Vec<Option<KeyModifiers>> = empty_slots(BUTTON_COUNT);
        mods.set(7, Some(KeyModifiers::shift_only()));
        mods.set(6, Some(KeyModifiers::ctrl_only()));
        mods.set(5, Some(KeyModifiers::alt_only()));
        mods.set(4, Some(KeyModifiers::command_only()));
        let mut letters: Vec<Option<(KeyCode, String, String)>> = empty_slots(SECTION_PAIR_COUNT);
        letters.set(section_pair_position(Section::North, Section::Center), Some((KeyCode::A, String::from_str("A"), String::from_str("a"))));
        letters.set(section_pair_position(Section::NorthEast, Section::Center), Some((KeyCode::B, String::from_str("B"), String::from_str("b"))));
        letters.set(section_pair_position(Section::East, Section::Center), Some((KeyCode::C, String::from_str("C"), String::from_str("c"))));
        letters.set(section_pair_position(Section::SouthEast, Section::Center), Some((KeyCode::D, String::from_str("D"), String::from_str("d"))));
        letters.set(section_pair_position(Section::South, Section::Center), Some((KeyCode::E, String::from_str("E"), String::from_str("e"))));
        letters.set(section_pair_position(Section::SouthWest, Section::Center), Some((KeyCode::F, String::from_str("F"), String::from_str("f"))));
        letters.set(section_pair_position(Section::West, Section::Center), Some((KeyCode::G, String::from_str("G"), String::from_str("g"))));
        letters.set(section_pair_position(Section::NorthWest, Section::Center), Some((KeyCode::H, String::from_str("H"), String::from_str("h"))));
        letters.set(section_pair_position(Section::Center, Section::North), Some((KeyCode::I, String::from_str("I"), String::from_str("i"))));
        letters.set(section_pair_position(Section::Center, Section::NorthEast), Some((KeyCode::J, String::from_str("J"), String::from_str("j"))));
        letters.set(section_pair_position(Section::Center, Section::East), Some((KeyCode::K, String::from_str("K"), String::from_str("k"))));
        letters.set(section_pair_position(Section::Center, Section::SouthEast), Some((KeyCode::L, String::from_str("L"), String::from_str("l"))));
        letters.set(section_pair_position(Section::Center, Section::South), Some((KeyCode::M, String::from_str("M"), String::from_str("m"))));
        letters.set(section_pair_position(Section::Center, Section::SouthWest), Some((KeyCode::N, String::from_str("N"), String::from_str("n"))));
        letters.set(section_pair_position(Section::Center, Section::West), Some((KeyCode::O, String::from_str("O"), String::from_str("o"))));
        letters.set(section_pair_position(Section::Center, Section::NorthWest), Some((KeyCode::P, String::from_str("P"), String::from_str("p"))));
        letters.set(section_pair_position(Section::North, Section::North), Some((KeyCode::Q, String::from_str("Q"), String::from_str("q"))));
        letters.set(section_pair_position(Section::NorthEast, Section::NorthEast), Some((KeyCode::R, String::from_str("R"), String::from_str("r"))));
        letters.set(section_pair_position(Section::East, Section::East), Some((KeyCode::S, String::from_str("S"), String::from_str("s"))));
        letters.set(section_pair_position(Section::SouthEast, Section::SouthEast), Some((KeyCode::T, String::from_str("T"), String::from_str("t"))));
        letters.set(section_pair_position(Section::South, Section::South), Some((KeyCode::U, String::from_str("U"), String::from_str("u"))));
        letters.set(section_pair_position(Section::SouthWest, Section::SouthWest), Some((KeyCode::V, String::from_str("V"), String::from_str("v"))));
        letters.set(section_pair_position(Section::West, Section::West), Some((KeyCode::W, String::from_str("W"), String::from_str("w"))));
        letters.set(section_pair_position(Section::NorthWest, Section::NorthWest), Some((KeyCode::X, String::from_str("X"), String::from_str("x"))));
        letters.set(section_pair_position(Section::North, Section::South), Some((KeyCode::Y, String::from_str("Y"), String::from_str("y"))));
        letters.set(section_pair_position(Section::South, Section::North), Some((KeyCode::Z, String::from_str("Z"), String::from_str("z"))));
        let c = KeyboardConfig {
            button_mapping: keys,
            joystick_mapping: letters,
            modifier_mapping: mods,
            name: String::from_str("Default Keyboard Configuration"),
        };
        assert forall|b: ButtonType| #[trigger] c.button_mapping@[button_index(b)] == default_button_key(b) by {
            match b { _ => {} }
        }
        assert forall|b: ButtonType| #[trigger] c.modifier_mapping@[button_index(b)] == default_button_modifiers(b) by {
            match b { _ => {} }
        }
        assert forall|l: Section, r: Section| (match #[trigger] c.joystick_mapping@[pair_index(l, r)] {
            Some((key, upper, lower)) => default_letter(l, r) == Some(key) && upper@ == upper_text(key)
                && lower@ == lower_text(key),
            None => default_letter(l, r) is None,
        }) by {
            match l { _ => {} }
        }
        assert(c.button_mapping@[0] is Some);
        c
    }

    /// The configuration is the default one: the tables and name that
    /// `default_config` gives.
    pub open spec fn is_default_layout(&self) -> bool {
        &&& self.wf()
        &&& forall|b: ButtonType| #[trigger] self.button_mapping@[button_index(b)] == default_button_key(b)
        &&& forall|b: ButtonType| #[trigger] self.modifier_mapping@[button_index(b)] == default_button_modifiers(b)
        &&& forall|l: Section, r: Section| (match #[trigger] self.joystick_mapping@[pair_index(l, r)] {
            Some((key, upper, lower)) => default_letter(l, r) == Some(key) && upper@ == upper_text(key)
                && lower@ == lower_text(key),
            None => default_letter(l, r) is None,
        })
        &&& self.name@ == "Default Keyboard Configuration"@
    }

    /// Every table has one slot per key.
    pub open spec fn wf(&self) -> bool {
        &&& self.button_mapping@.len() == BUTTON_COUNT
        &&& self.joystick_mapping@.len() == SECTION_PAIR_COUNT
        &&& self.modifier_mapping@.len() == BUTTON_COUNT
    }

    /// No button has a key.
    pub open spec fn has_no_button_keys(&self) -> bool {
        forall|k: int| 0 <= k < self.button_mapping@.len() ==> (#[trigger] self.button_mapping@[k]) is None
    }

    /// Whether no button has a key.
    pub fn button_mapping_is_empty(&self) -> (b: bool)
        ensures
            b == self.has_no_button_keys(),
    {
        let mut i: usize = 0;
        while i < self.button_mapping.len()
            invariant
                i <= self.button_mapping@.len(),
                forall|k: int| 0 <= k < i ==> (#[trigger] self.button_mapping@[k]) is None,
            decreases self.button_mapping@.len() - i,
        {
            if self.button_mapping[i].is_some() {
                return false;
            }
            i = i + 1;
        }
        true
    }

    /// Checks the configuration: at least one button must have a key.
    pub fn validate(&self) -> (r: Result<(), MappingError>)
        ensures
            r is Ok <==> !self.has_no_button_keys(),
            r matches Err(MappingError::ConfigError(msg)) ==> msg@ == "Button mapping cannot be empty"@,
            r is Err ==> r matches Err(MappingError::ConfigError(_)),
    {
        if self.button_mapping_is_empty() {
            Err(MappingError::ConfigError(String::from_str("Button mapping cannot be empty")))
        } else {
            Ok(())
        }
    }

    /// The kind of mapping this configuration produces.
    pub fn get_type(&self) -> (t: MappingType)
        ensures
            t == MappingType::Keyboard,
    {
        MappingType::Keyboard
    }

    /// Human-readable name of this configuration.
    pub fn get_name(&self) -> (s: String)
        ensures
            s@ == self.name@,
    {
        self.name.clone()
    }

    /// Description of this configuration for display.
    pub fn get_description(&self) -> (s: String)
        ensures
            s@ == "Configuration for "@ + "Keyboard"@ + " mapping"@,
    {
        let mut s = String::from_str("Configuration for ");
        let t = self.get_type().name();
        s.append(t.as_str());
        s.append(" mapping");
        proof {
            reveal_strlit("Keyboard");
        }
        s
    }

    /// A copy of this configuration.
    pub fn duplicate(&self) -> (c: KeyboardConfig)
        ensures
            c.button_mapping@ == self.button_mapping@,
            c.joystick_mapping@ == self.joystick_mapping@,
            c.modifier_mapping@ == self.modifier_mapping@,
            c.name@ == self.name@,
    {
        let mut letters: Vec<Option<(KeyCode, String, String)>> = Vec::new();
        for i in 0..self.joystick_mapping.len()
            invariant
                letters@.len() == i,
                i <= self.joystick_mapping@.len(),
                forall|k: int| 0 <= k < i ==> #[trigger] letters@[k] == self.joystick_mapping@[k],
        {
            let entry = match &self.joystick_mapping[i] {
                Some((key, upper, lower)) => Some((*key, upper.clone(), lower.clone())),
                None => None,
            };
            letters.push(entry);
        }
        assert(letters@ =~= self.joystick_mapping@);
        let mut keys: Vec<Option<KeyCode>> = Vec::new();
        for i in 0..self.button_mapping.len()
            invariant
                keys@.len() == i,
                i <= self.button_mapping@.len(),
                forall|k: int| 0 <= k < i ==> #[trigger] keys@[k] == self.button_mapping@[k],
        {
            keys.push(self.button_mapping[i]);
        }
        assert(keys@ =~= self.button_mapping@);
        let mut mods: Vec<Option<KeyModifiers>> = Vec::new();
        for i in 0..self.modifier_mapping.len()
            invariant
                mods@.len() == i,
                i <= self.modifier_mapping@.len(),
                forall|k: int| 0 <= k < i ==> #[trigger] mods@[k] == self.modifier_mapping@[k],
        {
            mods.push(self.modifier_mapping[i]);
        }
        assert(mods@ =~= self.modifier_mapping@);
        KeyboardConfig {
            button_mapping: keys,
            joystick_mapping: letters,
            modifier_mapping: mods,
            name: self.name.clone(),
        }
    }

    /// A keyboard strategy running this configuration.
    pub fn create_strategy(&self) -> (r: Result<KeyboardStrategy, MappingError>)
        requires
            self.wf(),
        ensures
            r matches Ok(s) && s.wf() && s.config_view().button_mapping@ == self.button_mapping@
                && s.config_view().joystick_mapping@ == self.joystick_mapping@
                && s.config_view().modifier_mapping@ == self.modifier_mapping@
                && s.config_view().name@ == self.name@,
    {
        Ok(KeyboardStrategy::new(self.duplicate()))
    }
}

/// Table with `n` empty slots.
fn empty_slots<V>(n: usize) -> (v: Vec<Option<V>>)
    ensures
        v@.len() == n,
        forall|k: int| 0 <= k < n ==> (#[trigger] v@[k]) is None,
{
    let mut v: Vec<Option<V>> = Vec::new();
    for i in 0..n
        invariant
            v@.len() == i,
            forall|k: int| 0 <= k < i ==> (#[trigger] v@[k]) is None,
    {
        v.push(None);
    }
    v
}

impl Default for KeyboardConfig {
    fn default() -> (c: Self)
        ensures
            c.wf(),
            c.has_no_button_keys(),
            forall|k: int| 0 <= k < SECTION_PAIR_COUNT ==> (#[trigger] c.joystick_mapping@[k]) is None,
            forall|k: int| 0 <= k < BUTTON_COUNT ==> (#[trigger] c.modifier_mapping@[k]) is None,
            c.name@ == Seq::<char>::empty(),
    {
        KeyboardConfig {
            button_mapping: empty_slots(BUTTON_COUNT),
            joystick_mapping: empty_slots(SECTION_PAIR_COUNT),
            modifier_mapping: empty_slots(BUTTON_COUNT),
            name: String::new(),
        }
    }
}

/// Maps controller input onto keyboard events.
pub struct KeyboardStrategy {
    config: KeyboardConfig,
    context: MappingContext,
}

impl KeyboardStrategy {
    /// The configuration this strategy runs.
    pub closed spec fn config_view(&self) -> KeyboardConfig {
        self.config
    }

    /// The state kept between calls.
    pub closed spec fn context_view(&self) -> MappingContext {
        self.context
    }

    /// Configuration and kept state are well formed.
    pub open spec fn wf(&self) -> bool {
        self.config_view().wf() && self.context_view().wf()
    }

    /// A strategy running `config`, with a fresh context.
    pub fn new(config: KeyboardConfig) -> (s: KeyboardStrategy)
        requires
            config.wf(),
        ensures
            s.wf(),
            s.config_view() == config,
            forall|k: int| 0 <= k < BUTTON_COUNT ==> (#[trigger] s.context_view().last_button_states@[k]) is None,
            s.context_view().last_sections == (Section::Center, Section::Center),
    {
        KeyboardStrategy { config, context: MappingContext::default() }
    }

    /// Stick sections seen at the last call, (left, right).
    pub fn last_sections(&self) -> (s: (Section, Section))
        ensures
            s == self.context_view().last_sections,
    {
        self.context.last_sections
    }

    /// Last reported state of a button.
    pub fn last_button_state(&self, button: ButtonType) -> (s: Option<ButtonEventState>)
        requires
            self.wf(),
        ensures
            s == self.context_view().last_button_states@[button_index(button)],
    {
        self.context.last_button_states[button.index()]
    }

    /// Modifiers of the mapped buttons among `events`, combined; with
    /// `only_modifier_buttons`, only the events of modifier buttons count.
    pub fn map_modifiers(&self, events: &Vec<ButtonEvent>, only_modifier_buttons: bool) -> (m: KeyModifiers)
        requires
            self.wf(),
        ensures
            m == modifiers_of(self.config_view().modifier_mapping@, events@, only_modifier_buttons),
    {
        let mut m = KeyModifiers::none();
        assert(events@.take(0) =~= Seq::<ButtonEvent>::empty());
        for i in 0..events.len()
            invariant
                self.wf(),
                m == modifiers_of(self.config_view().modifier_mapping@, events@.take(i as int), only_modifier_buttons),
        {
            let e = events[i];
            proof {
                assert(events@.take(i + 1).drop_last() =~= events@.take(i as int));
                assert(events@.take(i + 1).last() == e);
            }
            if !only_modifier_buttons || is_modifier(e.button) {
                match self.config.modifier_mapping[e.button.index()] {
                    Some(k) => {
                        m = m.plus(k);
                    },
                    None => {},
                }
            }
        }
        assert(events@.take(events@.len() as int) =~= events@);
        m
    }

    /// Keyboard events for button events: modifier buttons (the bumpers, Start and
    /// Select) set the modifiers; every other button with a key presses that key with
    /// those modifiers and types its text where it has one (Enter, Tab, Space).
    /// The reported state of each such button is remembered.
    pub fn map_buttons(&mut self, button_events: &Vec<ButtonEvent>) -> (out: Vec<KeyEvent>)
        requires
            old(self).wf(),
        ensures
            final(self).wf(),
            final(self).config_view() == old(self).config_view(),
            final(self).context_view().last_sections == old(self).context_view().last_sections,
            events_view(out@) == button_key_events(
                old(self).config_view().button_mapping@,
                button_events@,
                modifiers_of(old(self).config_view().modifier_mapping@, button_events@, true),
            ),
            final(self).context_view().last_button_states@ == states_after(
                old(self).context_view().last_button_states@,
                old(self).config_view().button_mapping@,
                button_events@,
            ),
    {
        let modifier = self.map_modifiers(button_events, true);
        let ghost keys = self.config.button_mapping@;
        let ghost states0 = self.context.last_button_states@;
        let mut out: Vec<KeyEvent> = Vec::new();
        assert(button_events@.take(0) =~= Seq::<ButtonEvent>::empty());
        assert(events_view(out@) =~= Seq::<KeyEventView>::empty());
        for i in 0..button_events.len()
            invariant
                self.wf(),
                self.config.button_mapping@ == keys,
                self.config_view() == old(self).config_view(),
                self.context_view().last_sections == old(self).context_view().last_sections,
                keys == old(self).config_view().button_mapping@,
                states0 == old(self).context_view().last_button_states@,
                events_view(out@) == button_key_events(keys, button_events@.take(i as int), modifier),
                self.context.last_button_states@ == states_after(states0, keys, button_events@.take(i as int)),
        {
            let e = button_events[i];
            proof {
                assert(button_events@.take(i + 1).drop_last() =~= button_events@.take(i as int));
                assert(button_events@.take(i + 1).last() == e);
            }
            let ghost before = events_view(out@);
            if !is_modifier(e.button) {
                match self.config.button_mapping[e.button.index()] {
                    Some(key) => {
                        out.push(KeyEvent::Key {
                            key: key,
                            physical_key: None,
                            pressed: true,
                            repeat: false,
                            modifiers: modifier,
                        });
                        if key == KeyCode::Enter {
                            out.push(KeyEvent::Text(String::from_str("\n")));
                        } else if key == KeyCode::Tab {
                            out.push(KeyEvent::Text(String::from_str("\t")));
                        } else if key == KeyCode::Space {
                            out.push(KeyEvent::Text(String::from_str(" ")));
                        }
                        assert(events_view(out@) =~= before + seq![KeyEventView::Key {
                            key: key,
                            physical_key: None,
                            pressed: true,
                            repeat: false,
                            modifiers: modifier,
                        }] + key_text(key));
                        self.context.last_button_states.set(e.button.index(), Some(e.state));
                    },
                    None => {},
                }
            }
        }
        assert(button_events@.take(button_events@.len() as int) =~= button_events@);
        out
    }

    /// Keyboard events for the current stick sections: the letter of the
    /// (left, right) pair, if it has one, with the modifiers of all pressed buttons.
    /// The sections are remembered for the next call.
    pub fn map_joystick(&mut self, left: Section, right: Section, button_events: &Vec<ButtonEvent>) -> (out: Vec<KeyEvent>)
        requires
            old(self).wf(),
        ensures
            final(self).wf(),
            final(self).config_view() == old(self).config_view(),
            final(self).context_view().last_button_states == old(self).context_view().last_button_states,
            final(self).context_view().last_sections == (left, right),
            events_view(out@) == joystick_key_events(
                old(self).config_view().joystick_mapping@,
                left,
                right,
                modifiers_of(old(self).config_view().modifier_mapping@, button_events@, false),
            ),
    {
        self.context.last_sections = (left, right);
        let modifier = self.map_modifiers(button_events, false);
        let mut out: Vec<KeyEvent> = Vec::new();
        match &self.config.joystick_mapping[section_pair_position(left, right)] {
            Some((key, upper, lower)) => {
                out.push(KeyEvent::Key {
                    key: *key,
                    physical_key: Some(*key),
                    pressed: true,
                    repeat: false,
                    modifiers: modifier,
                });
                out.push(KeyEvent::Key {
                    key: *key,
                    physical_key: Some(*key),
                    pressed: false,
                    repeat: false,
                    modifiers: modifier,
                });
                if modifier.shift {
                    out.push(KeyEvent::Text(upper.clone()));
                } else {
                    out.push(KeyEvent::Text(lower.clone()));
                }
            },
            None => {},
        }
        assert(events_view(out@) =~= joystick_key_events(
            self.config.joystick_mapping@,
            left,
            right,
            modifier,
        ));
        out
    }

    /// Keyboard events for one controller state: the button events first, then the
    /// letter of the stick sections; `None` when there are none.
    pub fn map(&mut self, button_events: &Vec<ButtonEvent>, left: Section, right: Section) -> (r: Option<MappedEvent>)
        requires
            old(self).wf(),
        ensures
            final(self).wf(),
            final(self).config_view() == old(self).config_view(),
            final(self).context_view().last_sections == (left, right),
            ({
                let cfg = old(self).config_view();
                let all = button_key_events(
                    cfg.button_mapping@,
                    button_events@,
                    modifiers_of(cfg.modifier_mapping@, button_events@, true),
                ) + joystick_key_events(
                    cfg.joystick_mapping@,
                    left,
                    right,
                    modifiers_of(cfg.modifier_mapping@, button_events@, false),
                );
                &&& all.len() == 0 ==> r is None
                &&& all.len() > 0 ==> (r matches Some(MappedEvent::KeyboardEvent { key_code })
                    && events_view(key_code@) == all)
            }),
    {
        let mut events = self.map_buttons(button_events);
        let mut joy = self.map_joystick(left, right, button_events);
        let ghost a = events_view(events@);
        let ghost b = events_view(joy@);
        events.append(&mut joy);
        assert(events_view(events@) =~= a + b);
        if events.len() == 0 {
            None
        } else {
            Some(MappedEvent::KeyboardEvent { key_code: events })
        }
    }

    /// Prepares the strategy; keyboard mapping needs no preparation.
    pub fn initialize(&mut self) -> (r: Result<(), MappingError>)
        ensures
            r is Ok,
            *final(self) == *old(self),
    {
        Ok(())
    }

    /// Ends the strategy; keyboard mapping holds nothing to release.
    pub fn shutdown(&mut self)
        ensures
            *final(self) == *old(self),
    {
    }

    /// Minimum interval between mapped inputs: 45 ms.
    pub fn get_rate_limit(&self) -> (r: Option<u64>)
        ensures
            r == Some(45u64),
    {
        Some(45)
    }

    /// The kind of mapping this strategy produces.
    pub fn get_type(&self) -> (t: MappingType)
        ensures
            t == MappingType::Keyboard,
    {
        MappingType::Keyboard
    }
}

/// Whether a button acts as a modifier.
pub fn is_modifier(b: ButtonType) -> (r: bool)
    ensures
        r == is_modifier_button(b),
{
    match b {
        ButtonType::LeftBumper | ButtonType::RightBumper | ButtonType::Start | ButtonType::Select => true,
        _ => false,
    }
}

/// A button event after others adds, for a non-modifier button with a key, the
/// key's press with the modifiers, then the text that the key types: a line break
/// for Enter, a tab for Tab, a space for Space, and no text for any other key.
/// Events of modifier buttons and of buttons without a key add nothing.
pub proof fn law_button_key_events_step(
    keys: Seq<Option<KeyCode>>,
    events: Seq<ButtonEvent>,
    e: ButtonEvent,
    modifiers: KeyModifiers,
)
    ensures
        ({
            let before = button_key_events(keys, events, modifiers);
            let after = button_key_events(keys, events.push(e), modifiers);
            let press = |key: KeyCode| KeyEventView::Key {
                key: key,
                physical_key: None,
                pressed: true,
                repeat: false,
                modifiers: modifiers,
            };
            &&& (is_modifier_button(e.button) || keys[button_index(e.button)] is None) ==> after == before
            &&& (!is_modifier_button(e.button) && keys[button_index(e.button)] == Some(KeyCode::Enter))
                ==> after == before + seq![press(KeyCode::Enter), KeyEventView::Text("\n"@)]
            &&& (!is_modifier_button(e.button) && keys[button_index(e.button)] == Some(KeyCode::Tab))
                ==> after == before + seq![press(KeyCode::Tab), KeyEventView::Text("\t"@)]
            &&& (!is_modifier_button(e.button) && keys[button_index(e.button)] == Some(KeyCode::Space))
                ==> after == before + seq![press(KeyCode::Space), KeyEventView::Text(" "@)]
            &&& (!is_modifier_button(e.button) && keys[button_index(e.button)] is Some
                && keys[button_index(e.button)]->0 != KeyCode::Enter
                && keys[button_index(e.button)]->0 != KeyCode::Tab
                && keys[button_index(e.button)]->0 != KeyCode::Space)
                ==> after == before + seq![press(keys[button_index(e.button)]->0)]
        }),
{
    let s = events.push(e);
    assert(s.drop_last() =~= events);
    assert(s.last() == e);
    let before = button_key_events(keys, events, modifiers);
    if !is_modifier_button(e.button) {
        match keys[button_index(e.button)] {
            Some(key) => {
                let p = KeyEventView::Key {
                    key: key,
                    physical_key: None,
                    pressed: true,
                    repeat: false,
                    modifiers: modifiers,
                };
                if key == KeyCode::Enter {
                    assert(before + seq![p] + key_text(key) =~= before + seq![p, KeyEventView::Text("\n"@)]);
                } else if key == KeyCode::Tab {
                    assert(before + seq![p] + key_text(key) =~= before + seq![p, KeyEventView::Text("\t"@)]);
                } else if key == KeyCode::Space {
                    assert(before + seq![p] + key_text(key) =~= before + seq![p, KeyEventView::Text(" "@)]);
                } else {
                    assert(before + seq![p] + key_text(key) =~= before + seq![p]);
                }
            },
            None => {},
        }
    }
}

} // verus!
