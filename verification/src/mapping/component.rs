//! Component-level mapping: a single button mapped to a single key, and the
//! comparison of two sets of button events.

use vstd::prelude::*;
use vstd::string::*;

use crate::controller::event_collector::ButtonType;
use crate::controller::event_processor::{ButtonEvent, ButtonEventState};
use super::keyboard::KeyCode;

verus! {

/// Whether a key is down or up.
#[derive(Clone, Copy, Debug, PartialEq, Eq, Structural)]
pub enum KeyState {
    Pressed,
    Released,
}

/// Kinds of component-level mapping configuration.
#[derive(Clone, Copy, Debug, PartialEq, Eq, Structural)]
pub enum MappingConfigType {
    Keyboard,
    ELRS,
    Custom,
}

/// A key event produced by a component-level strategy.
#[derive(Clone, Copy, Debug, PartialEq, Eq, Structural)]
pub struct ComponentKeyEvent {
    pub key_code: KeyCode,
    pub state: KeyState,
}

/// Errors of the component-level mapping engine.
#[derive(Clone, Debug, PartialEq, Eq)]
pub enum MappingError {
    InitializationError(String),
    ChannelClosed,
    ConfigChangeError,
    ProcessingError(String),
    Unknown(String),
}

/// Text shown for a component-level error.
pub open spec fn component_error_text(e: MappingError) -> Seq<char> {
    match e {
        MappingError::InitializationError(m) => "Engine konnte nicht initialisiert werden: "@ + m@,
        MappingError::ChannelClosed => "Kanal wurde geschlossen"@,
        MappingError::ConfigChangeError => "Fehler beim Ändern der Konfiguration"@,
        MappingError::ProcessingError(m) => "Fehler beim Verarbeiten des Controller-Outputs: "@ + m@,
        MappingError::Unknown(m) => "Unbekannter Fehler: "@ + m@,
    }
}

impl MappingError {
    /// Text shown for this error.
    pub fn message(&self) -> (s: String)
        ensures
            s@ == component_error_text(*self),
    {
        match self {
            MappingError::InitializationError(m) => {
                let mut s = String::from_str("Engine konnte nicht initialisiert werden: ");
                s.append(m.as_str());
                s
            },
            MappingError::ChannelClosed => String::from_str("Kanal wurde geschlossen"),
            MappingError::ConfigChangeError => String::from_str("Fehler beim Ändern der Konfiguration"),
            MappingError::ProcessingError(m) => {
                let mut s = String::from_str("Fehler beim Verarbeiten des Controller-Outputs: ");
                s.append(m.as_str());
                s
            },
            MappingError::Unknown(m) => {
                let mut s = String::from_str("Unbekannter Fehler: ");
                s.append(m.as_str());
                s
            },
        }
    }
}

/// Maps one controller button directly onto one key.
pub struct ButtonMappingStrategy {
    pub name: String,
    pub button_type: ButtonType,
    pub output_key: KeyCode,
}

impl ButtonMappingStrategy {
    /// A strategy named `name` that maps `button_type` onto `output_key`.
    pub fn new(name: String, button_type: ButtonType, output_key: KeyCode) -> (s: ButtonMappingStrategy)
        ensures
            s.name == name,
            s.button_type == button_type,
            s.output_key == output_key,
    {
        ButtonMappingStrategy { name, button_type, output_key }
    }

    /// The key event for a button event: the key is pressed for every event of the
    /// strategy's button, held or complete; events of other buttons give nothing.
    pub fn apply(&self, button: ButtonType, state: ButtonEventState) -> (r: Option<ComponentKeyEvent>)
        ensures
            button == self.button_type ==> r == Some(ComponentKeyEvent { key_code: self.output_key, state: KeyState::Pressed }),
            button != self.button_type ==> r is None,
    {
        if button == self.button_type {
            let key_state = match state {
                ButtonEventState::Held => KeyState::Pressed,
                ButtonEventState::Complete => KeyState::Pressed,
            };
            Some(ComponentKeyEvent { key_code: self.output_key, state: key_state })
        } else {
            None
        }
    }

    /// Name of the strategy.
    pub fn name(&self) -> (s: &str)
        ensures
            s@ == self.name@,
    {
        self.name.as_str()
    }
}

/// How many events of `events` have the given button and state.
pub open spec fn pair_count(events: Seq<ButtonEvent>, button: ButtonType, state: ButtonEventState) -> nat
    decreases events.len(),
{
    if events.len() == 0 {
        0
    } else {
        pair_count(events.drop_last(), button, state) + if events.last().button == button
            && events.last().state == state {
            1nat
        } else {
            0nat
        }
    }
}

/// Two sets of button events count as the same when they hold the same events,
/// each as often, by button and state: order and durations do not count.
pub open spec fn spec_buttons_equivalent(prev: Seq<ButtonEvent>, current: Seq<ButtonEvent>) -> bool {
    &&& prev.len() == current.len()
    &&& forall|button: ButtonType, state: ButtonEventState|
        #[trigger] pair_count(prev, button, state) == pair_count(current, button, state)
}

/// An event that is counted occurs in the set.
proof fn lemma_counted_occurs(events: Seq<ButtonEvent>, button: ButtonType, state: ButtonEventState)
    requires
        pair_count(events, button, state) > 0,
    ensures
        exists|i: int| 0 <= i < events.len() && (#[trigger] events[i]).button == button && events[i].state == state,
    decreases events.len(),
{
    let last = events.len() - 1;
    if events[last].button == button && events[last].state == state {
        assert(events[last].button == button);
    } else {
        lemma_counted_occurs(events.drop_last(), button, state);
        let i = choose|i: int| 0 <= i < events.drop_last().len() && (#[trigger] events.drop_last()[i]).button == button
            && events.drop_last()[i].state == state;
        assert(events[i] == events.drop_last()[i]);
    }
}

/// How many events of `events` have the given button and state.
fn count_pairs(events: &Vec<ButtonEvent>, button: ButtonType, state: ButtonEventState) -> (n: usize)
    ensures
        n == pair_count(events@, button, state),
{
    let mut n: usize = 0;
    for i in 0..events.len()
        invariant
            n == pair_count(events@.subrange(0, i as int), button, state),
            n <= i,
    {
        assert(events@.subrange(0, i + 1).drop_last() =~= events@.subrange(0, i as int));
        let e = events[i];
        if e.button == button && e.state == state {
            n = n + 1;
        }
    }
    assert(events@.subrange(0, events.len() as int) =~= events@);
    n
}

/// Whether every event of `side` occurs as often in `prev` as in `current`.
fn counts_agree_on(prev: &Vec<ButtonEvent>, current: &Vec<ButtonEvent>, side: &Vec<ButtonEvent>) -> (b: bool)
    ensures
        b <==> forall|i: int| 0 <= i < side@.len() ==> pair_count(prev@, (#[trigger] side@[i]).button, side@[i].state)
            == pair_count(current@, side@[i].button, side@[i].state),
{
    for i in 0..side.len()
        invariant
            forall|k: int| 0 <= k < i ==> pair_count(prev@, (#[trigger] side@[k]).button, side@[k].state)
                == pair_count(current@, side@[k].button, side@[k].state),
    {
        let e = side[i];
        if count_pairs(prev, e.button, e.state) != count_pairs(current, e.button, e.state) {
            return false;
        }
    }
    true
}

/// Whether two sets of button events count as the same: they hold the same
/// events, each as often, by button and state; order and durations do not count.
pub fn buttons_equivalent(prev: &Vec<ButtonEvent>, current: &Vec<ButtonEvent>) -> (b: bool)
    ensures
        b == spec_buttons_equivalent(prev@, current@),
{
    if prev.len() != current.len() {
        return false;
    }
    let on_current = counts_agree_on(prev, current, current);
    let on_prev = counts_agree_on(prev, current, prev);
    if on_current && on_prev {
        assert forall|button: ButtonType, state: ButtonEventState|
            #[trigger] pair_count(prev@, button, state) == pair_count(current@, button, state) by {
            if pair_count(prev@, button, state) > 0 {
                lemma_counted_occurs(prev@, button, state);
            } else if pair_count(current@, button, state) > 0 {
                lemma_counted_occurs(current@, button, state);
            }
        }
        true
    } else {
        false
    }
}

/// Every set of button events counts as the same as itself.
pub proof fn law_buttons_equivalent_reflexive(events: Seq<ButtonEvent>)
    ensures
        spec_buttons_equivalent(events, events),
{
}

/// Whether two sets count as the same does not depend on which one came first.
pub proof fn law_buttons_equivalent_symmetric(prev: Seq<ButtonEvent>, current: Seq<ButtonEvent>)
    ensures
        spec_buttons_equivalent(prev, current) == spec_buttons_equivalent(current, prev),
{
    if spec_buttons_equivalent(prev, current) {
        assert forall|button: ButtonType, state: ButtonEventState|
            #[trigger] pair_count(current, button, state) == pair_count(prev, button, state) by {
            assert(pair_count(prev, button, state) == pair_count(current, button, state));
        }
    }
    if spec_buttons_equivalent(current, prev) {
        assert forall|button: ButtonType, state: ButtonEventState|
            #[trigger] pair_count(prev, button, state) == pair_count(current, button, state) by {
            assert(pair_count(current, button, state) == pair_count(prev, button, state));
        }
    }
}

} // verus!
