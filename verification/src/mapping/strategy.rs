//! Mapping types and the state that mapping strategies keep between calls.

use vstd::prelude::*;
use vstd::string::*;

use crate::controller::event_collector::BUTTON_COUNT;
use crate::controller::event_processor::ButtonEventState;
use super::keyboard::Section;

verus! {

/// Kinds of mapping, one per output format.
#[derive(Clone, Copy, Debug, PartialEq, Eq, Hash, Structural)]
pub enum MappingType {
    Keyboard,
    ELRS,
    Custom,
}

/// Display name of a mapping type.
pub open spec fn mapping_type_name(t: MappingType) -> Seq<char> {
    match t {
        MappingType::Keyboard => "Keyboard"@,
        MappingType::ELRS => "ELRS"@,
        MappingType::Custom => "Custom"@,
    }
}

impl MappingType {
    /// Display name of this mapping type.
    pub fn name(&self) -> (s: String)
        ensures
            s@ == mapping_type_name(*self),
    {
        match self {
            MappingType::Keyboard => String::from_str("Keyboard"),
            MappingType::ELRS => String::from_str("ELRS"),
            MappingType::Custom => String::from_str("Custom"),
        }
    }
}

#[verifier::external_type_specification]
#[verifier::external_body]
pub struct ExSystemTime(std::time::SystemTime);

/// State that a mapping strategy keeps between calls.
#[derive(Debug)]
pub struct MappingContext {
    /// Last reported state of each button, by button position.
    pub last_button_states: Vec<Option<ButtonEventState>>,
    /// Sections of the left and right stick at the last call.
    pub last_sections: (Section, Section),
    /// Protocol data accumulated over several calls, by name.
    pub accumulated_data: Vec<(String, Vec<u8>)>,
    /// Time of the last call, if recorded.
    pub last_timestamp: Option<std::time::SystemTime>,
}

impl MappingContext {
    /// Every button has a state slot.
    pub open spec fn wf(&self) -> bool {
        self.last_button_states@.len() == BUTTON_COUNT
    }
}

impl Default for MappingContext {
    fn default() -> (c: Self)
        ensures
            c.wf(),
            forall|k: int| 0 <= k < BUTTON_COUNT ==> (#[trigger] c.last_button_states@[k]) is None,
            c.last_sections == (Section::Center, Section::Center),
            c.accumulated_data@.len() == 0,
            c.last_timestamp is None,
    {
        let mut states: Vec<Option<ButtonEventState>> = Vec::new();
        for i in 0..BUTTON_COUNT
            invariant
                states@.len() == i,
                forall|k: int| 0 <= k < i ==> (#[trigger] states@[k]) is None,
        {
            states.push(None);
        }
        MappingContext {
            last_button_states: states,
            last_sections: (Section::Center, Section::Center),
            accumulated_data: Vec::new(),
            last_timestamp: None,
        }
    }
}

} // verus!
