//! Decisions of the mapping engine manager: which configuration an engine runs,
//! whether the configurations allow an activation, which engines are active, and
//! where each mapped event goes (keyboard events are passed on only when they
//! differ from the last ones passed on).

use vstd::prelude::*;
use vstd::string::*;

use super::elrs::ELRSConfig;
use super::error::{mapping_error_text, MappingError};
use super::keyboard::{clone_events, events_equal, events_view, KeyEvent, KeyEventView, KeyboardConfig};
use super::strategy::{mapping_type_name, MappingType};
use super::MappedEvent;

verus! {

/// The keyboard configuration an engine runs: the stored one, unless there is none
/// or it gives no button a key, in which case the default one.
pub fn select_keyboard_config(stored: Option<KeyboardConfig>) -> (c: KeyboardConfig)
    ensures
        match stored {
            Some(s) => if s.has_no_button_keys() { c.is_default_layout() } else { c == s },
            None => c.is_default_layout(),
        },
{
    match stored {
        Some(s) => {
            if s.button_mapping_is_empty() {
                KeyboardConfig::default_config()
            } else {
                s
            }
        },
        None => KeyboardConfig::default_config(),
    }
}

/// The ELRS configuration an engine runs: the stored one, unless there is none or
/// it gives no stick a channel, in which case the default one.
pub fn select_elrs_config(stored: Option<ELRSConfig>) -> (c: ELRSConfig)
    ensures
        match stored {
            Some(s) => if s.has_no_joysticks() { c.is_default_layout() } else { c == s },
            None => c.is_default_layout(),
        },
{
    match stored {
        Some(s) => {
            if s.joystick_mapping_is_empty() {
                ELRSConfig::default_config()
            } else {
                s
            }
        },
        None => ELRSConfig::default_config(),
    }
}

/// Text of the error that refuses an activation because of `e`.
pub open spec fn invalid_configuration_text(e: MappingError) -> Seq<char> {
    "Invalid configuration: "@ + mapping_error_text(e)
}

/// Checks both configurations before an engine is activated, the ELRS one first:
/// the first that fails validation refuses the activation with a configuration
/// error that names its validation error.
pub fn check_configurations(elrs: &ELRSConfig, keyboard: &KeyboardConfig) -> (r: Result<(), MappingError>)
    ensures
        r is Ok <==> elrs.spec_is_valid() && !keyboard.has_no_button_keys(),
        !elrs.spec_is_valid() ==> (r matches Err(MappingError::ConfigError(m))
            && m@ == "Invalid configuration: "@ + "Configuration error: "@ + elrs.validation_message()),
        elrs.spec_is_valid() && keyboard.has_no_button_keys() ==> (r matches Err(MappingError::ConfigError(m))
            && m@ == "Invalid configuration: "@ + "Configuration error: "@ + "Button mapping cannot be empty"@),
{
    match elrs.validate() {
        Err(e) => {
            return Err(refusal(&e));
        },
        Ok(()) => {},
    }
    match keyboard.validate() {
        Err(e) => Err(refusal(&e)),
        Ok(()) => Ok(()),
    }
}

/// The configuration error that refuses an activation because of `e`.
fn refusal(e: &MappingError) -> (r: MappingError)
    ensures
        r matches MappingError::ConfigError(m) && m@ == invalid_configuration_text(*e),
{
    let mut m = String::from_str("Invalid configuration: ");
    let detail = e.message();
    m.append(detail.as_str());
    MappingError::ConfigError(m)
}

/// Position of a mapping type in the table of active engines.
pub open spec fn type_slot(t: MappingType) -> int {
    match t {
        MappingType::Keyboard => 0,
        MappingType::ELRS => 1,
        MappingType::Custom => 2,
    }
}

/// The mapping type at a slot of the table of active engines.
pub open spec fn slot_type(i: int) -> MappingType {
    if i == 0 { MappingType::Keyboard } else if i == 1 { MappingType::ELRS } else { MappingType::Custom }
}

fn slot_of(t: MappingType) -> (i: usize)
    ensures
        i == type_slot(t),
{
    match t {
        MappingType::Keyboard => 0,
        MappingType::ELRS => 1,
        MappingType::Custom => 2,
    }
}

/// The engines that run, at most one per mapping type, each with its name.
pub struct ActiveMappings {
    names: Vec<Option<String>>,
}

impl View for ActiveMappings {
    type V = Seq<Option<Seq<char>>>;

    /// Name of the running engine of each mapping type, by type slot.
    closed spec fn view(&self) -> Seq<Option<Seq<char>>> {
        self.names@.map_values(|n: Option<String>| match n {
            Some(s) => Some(s@),
            None => None,
        })
    }
}

impl ActiveMappings {
    /// One slot per mapping type.
    pub closed spec fn wf(&self) -> bool {
        self.names@.len() == 3
    }

    /// No engine runs.
    pub fn new() -> (a: ActiveMappings)
        ensures
            a.wf(),
            a@ == seq![None::<Seq<char>>, None, None],
    {
        let a = ActiveMappings { names: vec![None, None, None] };
        assert(a@ =~= seq![None::<Seq<char>>, None, None]);
        a
    }

    /// Whether an engine of the given type runs.
    pub fn is_mapping_active(&self, t: MappingType) -> (b: bool)
        requires
            self.wf(),
        ensures
            b == self@[type_slot(t)] is Some,
    {
        self.names[slot_of(t)].is_some()
    }

    /// Forgets the engine of a type; gives back its name when one ran.
    pub fn remove(&mut self, t: MappingType) -> (n: Option<String>)
        requires
            old(self).wf(),
        ensures
            final(self).wf(),
            final(self)@ == old(self)@.update(type_slot(t), None),
            match n {
                Some(s) => old(self)@[type_slot(t)] == Some(s@),
                None => old(self)@[type_slot(t)] is None,
            },
    {
        let i = slot_of(t);
        let n = match &self.names[i] {
            Some(s) => Some(s.clone()),
            None => None,
        };
        self.names.set(i, None);
        assert(self@ =~= old(self)@.update(type_slot(t), None));
        n
    }

    /// Records that an engine of a type runs under a name, replacing any other.
    pub fn insert(&mut self, t: MappingType, name: String)
        requires
            old(self).wf(),
        ensures
            final(self).wf(),
            final(self)@ == old(self)@.update(type_slot(t), Some(name@)),
    {
        self.names.set(slot_of(t), Some(name));
        assert(self@ =~= old(self)@.update(type_slot(t), Some(name@)));
    }

    /// Records an activation of a type: a running engine of that type is replaced;
    /// keyboard and ELRS engines then run under the type's name, while a custom
    /// activation starts nothing. Gives back the name of the engine that was
    /// replaced, which is to be shut down.
    pub fn record_activation(&mut self, t: MappingType) -> (replaced: Option<String>)
        requires
            old(self).wf(),
        ensures
            final(self).wf(),
            t != MappingType::Custom ==> final(self)@ == old(self)@.update(type_slot(t), Some(mapping_type_name(t))),
            t == MappingType::Custom ==> final(self)@ == old(self)@.update(type_slot(t), None),
            match replaced {
                Some(s) => old(self)@[type_slot(t)] == Some(s@),
                None => old(self)@[type_slot(t)] is None,
            },
    {
        let replaced = self.remove(t);
        match t {
            MappingType::Custom => {},
            _ => {
                let name = t.name();
                self.insert(t, name);
            },
        }
        replaced
    }

    /// Names of the running engines with their types, in type order.
    pub fn get_active_mappings(&self) -> (list: Vec<(MappingType, String)>)
        requires
            self.wf(),
        ensures
            forall|i: int| 0 <= i < list@.len() ==> self@[type_slot((#[trigger] list@[i]).0)] == Some(list@[i].1@),
            forall|k: int| 0 <= k < 3 && self@[k] is Some ==> exists|i: int| 0 <= i < list@.len() && (#[trigger] list@[i]).0 == slot_type(k),
            forall|i: int, j: int| 0 <= i < j < list@.len() ==> type_slot((#[trigger] list@[i]).0) < type_slot((#[trigger] list@[j]).0),
    {
        let mut list: Vec<(MappingType, String)> = Vec::new();
        let types = [MappingType::Keyboard, MappingType::ELRS, MappingType::Custom];
        for k in 0..3
            invariant
                self.wf(),
                types@ == seq![MappingType::Keyboard, MappingType::ELRS, MappingType::Custom],
                forall|i: int| 0 <= i < list@.len() ==> self@[type_slot((#[trigger] list@[i]).0)] == Some(list@[i].1@),
                forall|i: int| 0 <= i < list@.len() ==> type_slot((#[trigger] list@[i]).0) < k,
                forall|m: int| 0 <= m < k && self@[m] is Some ==> exists|i: int| 0 <= i < list@.len() && (#[trigger] list@[i]).0 == slot_type(m),
                forall|i: int, j: int| 0 <= i < j < list@.len() ==> type_slot((#[trigger] list@[i]).0) < type_slot((#[trigger] list@[j]).0),
        {
            let t = types[k];
            assert(type_slot(t) == k && slot_type(k as int) == t);
            match &self.names[k] {
                Some(n) => {
                    let ghost before = list@;
                    list.push((t, n.clone()));
                    assert(list@[list@.len() - 1].0 == t);
                    assert forall|m: int| 0 <= m < k + 1 && self@[m] is Some implies exists|i: int| 0 <= i < list@.len() && (#[trigger] list@[i]).0 == slot_type(m) by {
                        if m < k {
                            let i = choose|i: int| 0 <= i < before.len() && (#[trigger] before[i]).0 == slot_type(m);
                            assert(list@[i] == before[i]);
                        } else {
                            assert(list@[list@.len() - 1].0 == slot_type(m));
                        }
                    }
                },
                None => {},
            }
        }
        list
    }

    /// Forgets every engine.
    pub fn clear(&mut self)
        requires
            old(self).wf(),
        ensures
            final(self).wf(),
            final(self)@ == seq![None::<Seq<char>>, None, None],
    {
        self.names = vec![None, None, None];
        assert(self@ =~= seq![None::<Seq<char>>, None, None]);
    }
}

/// Where a mapped event goes.
pub enum Route {
    /// Keyboard events for the UI.
    Ui(Vec<KeyEvent>),
    /// Channel values for the ELRS link.
    Elrs(Vec<(u16, u16)>),
    /// Protocol payloads for custom protocols.
    Custom(Vec<(String, Vec<u8>)>),
    /// Nothing is passed on.
    Suppressed,
}

/// Keyboard events passed on last: the state of the repeat filter. A batch that
/// differs from the last one passed on is passed on and remembered; a batch equal
/// to it is held back, and the memory stays as it was.
pub open spec fn filter_step(last: Seq<KeyEventView>, batch: Seq<KeyEventView>) -> (Seq<KeyEventView>, bool) {
    if batch != last {
        (batch, true)
    } else {
        (last, false)
    }
}

/// Routes mapped events, passing keyboard events on only when they differ from the
/// last ones passed on.
pub struct EventRouter {
    old_events: Vec<KeyEvent>,
}

impl EventRouter {
    /// Keyboard events the filter remembers.
    pub closed spec fn last_view(&self) -> Seq<KeyEventView> {
        events_view(self.old_events@)
    }

    /// A router that remembers no keyboard events.
    pub fn new() -> (r: EventRouter)
        ensures
            r.last_view() == Seq::<KeyEventView>::empty(),
    {
        let r = EventRouter { old_events: Vec::new() };
        assert(r.last_view() =~= Seq::<KeyEventView>::empty());
        r
    }

    /// Where an event goes: ELRS data to the ELRS link and custom payloads to the
    /// custom link, unchanged; keyboard events to the UI when they differ from the
    /// last ones passed on, which they then replace, and otherwise nowhere, the
    /// memory staying as it was.
    pub fn route(&mut self, event: MappedEvent) -> (r: Route)
        ensures
            match event {
                MappedEvent::KeyboardEvent { key_code } => {
                    let step = filter_step(old(self).last_view(), events_view(key_code@));
                    &&& final(self).last_view() == step.0
                    &&& step.1 ==> (r matches Route::Ui(out) && events_view(out@) == events_view(key_code@))
                    &&& !step.1 ==> r is Suppressed
                },
                MappedEvent::ELRSData { pre_package } => r == Route::Elrs(pre_package)
                    && final(self).last_view() == old(self).last_view(),
                MappedEvent::CustomEvent { event_type } => r == Route::Custom(event_type)
                    && final(self).last_view() == old(self).last_view(),
            },
    {
        match event {
            MappedEvent::KeyboardEvent { key_code } => {
                if !events_equal(&key_code, &self.old_events) {
                    self.old_events = clone_events(&key_code);
                    Route::Ui(key_code)
                } else {
                    Route::Suppressed
                }
            },
            MappedEvent::ELRSData { pre_package } => Route::Elrs(pre_package),
            MappedEvent::CustomEvent { event_type } => Route::Custom(event_type),
        }
    }
}

/// After any keyboard batch the filter remembers that batch, and the same batch
/// again is held back: identical consecutive batches reach the UI at most once,
/// however often they repeat.
pub proof fn law_repeated_keyboard_batch_held_back(last: Seq<KeyEventView>, batch: Seq<KeyEventView>)
    ensures
        filter_step(last, batch).0 == batch,
        !filter_step(filter_step(last, batch).0, batch).1,
        filter_step(filter_step(last, batch).0, batch).0 == batch,
{
}

} // verus!
