//! ELRS (ExpressLRS) channel mapping: sticks and triggers drive RC channels in the
//! 1000-2000 µs range, buttons switch auxiliary channels between two values, and
//! every channel falls back to a failsafe value on start and shutdown.

use vstd::prelude::*;
use vstd::string::*;

use crate::controller::event_collector::{button_index, ButtonType, JoystickType, TriggerType, BUTTON_COUNT};
use crate::controller::event_processor::{ButtonEvent, ButtonEventState};
use super::error::MappingError;
use super::strategy::{MappingContext, MappingType};
use super::MappedEvent;

verus! {

/// ELRS channels in the usual RC layout.
#[derive(Clone, Copy, Debug, PartialEq, Eq, Hash, Structural)]
pub enum ELRSChannel {
    Roll,
    Pitch,
    Throttle,
    Yaw,
    Aux1,
    Aux2,
    Aux3,
    Aux4,
    Aux5,
    Aux6,
    Aux7,
    Aux8,
}

/// Number of ELRS channels.
pub const CHANNEL_COUNT: usize = 12;

/// Channel number of a channel: Roll is 0, Pitch 1, Throttle 2, Yaw 3, Aux1 to Aux8 are 4 to 11.
pub open spec fn channel_number(c: ELRSChannel) -> int {
    match c {
        ELRSChannel::Roll => 0,
        ELRSChannel::Pitch => 1,
        ELRSChannel::Throttle => 2,
        ELRSChannel::Yaw => 3,
        ELRSChannel::Aux1 => 4,
        ELRSChannel::Aux2 => 5,
        ELRSChannel::Aux3 => 6,
        ELRSChannel::Aux4 => 7,
        ELRSChannel::Aux5 => 8,
        ELRSChannel::Aux6 => 9,
        ELRSChannel::Aux7 => 10,
        ELRSChannel::Aux8 => 11,
    }
}

/// The channel with a given number.
pub open spec fn channel_at(i: int) -> ELRSChannel {
    if i == 0 { ELRSChannel::Roll }
    else if i == 1 { ELRSChannel::Pitch }
    else if i == 2 { ELRSChannel::Throttle }
    else if i == 3 { ELRSChannel::Yaw }
    else if i == 4 { ELRSChannel::Aux1 }
    else if i == 5 { ELRSChannel::Aux2 }
    else if i == 6 { ELRSChannel::Aux3 }
    else if i == 7 { ELRSChannel::Aux4 }
    else if i == 8 { ELRSChannel::Aux5 }
    else if i == 9 { ELRSChannel::Aux6 }
    else if i == 10 { ELRSChannel::Aux7 }
    else { ELRSChannel::Aux8 }
}

/// Display name of a channel.
pub open spec fn channel_name(c: ELRSChannel) -> Seq<char> {
    match c {
        ELRSChannel::Roll => "Roll"@,
        ELRSChannel::Pitch => "Pitch"@,
        ELRSChannel::Throttle => "Throttle"@,
        ELRSChannel::Yaw => "Yaw"@,
        ELRSChannel::Aux1 => "Aux1"@,
        ELRSChannel::Aux2 => "Aux2"@,
        ELRSChannel::Aux3 => "Aux3"@,
        ELRSChannel::Aux4 => "Aux4"@,
        ELRSChannel::Aux5 => "Aux5"@,
        ELRSChannel::Aux6 => "Aux6"@,
        ELRSChannel::Aux7 => "Aux7"@,
        ELRSChannel::Aux8 => "Aux8"@,
    }
}

impl ELRSChannel {
    /// Channel number of this channel.
    pub fn number(&self) -> (n: u16)
        ensures
            n as int == channel_number(*self),
            n < CHANNEL_COUNT,
    {
        match self {
            ELRSChannel::Roll => 0,
            ELRSChannel::Pitch => 1,
            ELRSChannel::Throttle => 2,
            ELRSChannel::Yaw => 3,
            ELRSChannel::Aux1 => 4,
            ELRSChannel::Aux2 => 5,
            ELRSChannel::Aux3 => 6,
            ELRSChannel::Aux4 => 7,
            ELRSChannel::Aux5 => 8,
            ELRSChannel::Aux6 => 9,
            ELRSChannel::Aux7 => 10,
            ELRSChannel::Aux8 => 11,
        }
    }

    /// The channel with number `i`.
    pub fn from_number(i: usize) -> (c: ELRSChannel)
        requires
            i < CHANNEL_COUNT,
        ensures
            c == channel_at(i as int),
            channel_number(c) == i,
    {
        if i == 0 { ELRSChannel::Roll }
        else if i == 1 { ELRSChannel::Pitch }
        else if i == 2 { ELRSChannel::Throttle }
        else if i == 3 { ELRSChannel::Yaw }
        else if i == 4 { ELRSChannel::Aux1 }
        else if i == 5 { ELRSChannel::Aux2 }
        else if i == 6 { ELRSChannel::Aux3 }
        else if i == 7 { ELRSChannel::Aux4 }
        else if i == 8 { ELRSChannel::Aux5 }
        else if i == 9 { ELRSChannel::Aux6 }
        else if i == 10 { ELRSChannel::Aux7 }
        else { ELRSChannel::Aux8 }
    }

    /// Display name of this channel.
    pub fn name(&self) -> (s: String)
        ensures
            s@ == channel_name(*self),
    {
        match self {
            ELRSChannel::Roll => String::from_str("Roll"),
            ELRSChannel::Pitch => String::from_str("Pitch"),
            ELRSChannel::Throttle => String::from_str("Throttle"),
            ELRSChannel::Yaw => String::from_str("Yaw"),
            ELRSChannel::Aux1 => String::from_str("Aux1"),
            ELRSChannel::Aux2 => String::from_str("Aux2"),
            ELRSChannel::Aux3 => String::from_str("Aux3"),
            ELRSChannel::Aux4 => String::from_str("Aux4"),
            ELRSChannel::Aux5 => String::from_str("Aux5"),
            ELRSChannel::Aux6 => String::from_str("Aux6"),
            ELRSChannel::Aux7 => String::from_str("Aux7"),
            ELRSChannel::Aux8 => String::from_str("Aux8"),
        }
    }
}

impl From<ELRSChannel> for u16 {
    fn from(channel: ELRSChannel) -> (n: u16) {
        channel.number()
    }
}

impl vstd::std_specs::convert::FromSpecImpl<ELRSChannel> for u16 {
    open spec fn obeys_from_spec() -> bool {
        true
    }

    open spec fn from_spec(channel: ELRSChannel) -> u16 {
        channel_number(channel) as u16
    }
}

/// Position of a stick in the joystick table: left 0, right 1.
pub open spec fn joystick_index(j: JoystickType) -> int {
    match j {
        JoystickType::Left => 0,
        JoystickType::Right => 1,
    }
}

/// Position of a trigger in the trigger table: left 0, right 1.
pub open spec fn trigger_index(t: TriggerType) -> int {
    match t {
        TriggerType::Left => 0,
        TriggerType::Right => 1,
    }
}

/// Analog inputs that drive channels.
#[derive(Clone, Copy, Debug, PartialEq, Eq, Hash, Structural)]
pub enum AnalogSource {
    LeftStickX,
    LeftStickY,
    RightStickX,
    RightStickY,
    LeftTrigger,
    RightTrigger,
}

/// An analog input driving a channel, and whether the channel is inverted.
#[derive(Clone, Copy, Debug, PartialEq, Eq, Structural)]
pub struct AnalogAssignment {
    pub source: AnalogSource,
    pub channel: ELRSChannel,
    pub invert: bool,
}

/// Essential channels for basic vehicle control, in order.
pub open spec fn essential_channels() -> Seq<ELRSChannel> {
    seq![ELRSChannel::Roll, ELRSChannel::Pitch, ELRSChannel::Throttle, ELRSChannel::Yaw]
}

/// Comma-separated channel names.
pub open spec fn channel_list_body(s: Seq<ELRSChannel>) -> Seq<char>
    decreases s.len(),
{
    if s.len() == 0 {
        Seq::empty()
    } else if s.len() == 1 {
        channel_name(s[0])
    } else {
        channel_list_body(s.drop_last()) + ", "@ + channel_name(s.last())
    }
}

/// Bracketed, comma-separated channel names.
pub open spec fn channel_list_text(s: Seq<ELRSChannel>) -> Seq<char> {
    "["@ + channel_list_body(s) + "]"@
}

/// Configuration of the ELRS mapping.
pub struct ELRSConfig {
    /// Channel pair (x axis, y axis) of each stick, by stick position.
    pub joystick_mapping: Vec<Option<(ELRSChannel, ELRSChannel)>>,
    /// Channel of each trigger, by trigger position.
    pub trigger_mapping: Vec<Option<ELRSChannel>>,
    /// Channel, pressed value and released value of each button, by button position.
    pub button_mapping: Vec<Option<(ELRSChannel, u16, u16)>>,
    /// Whether each channel is inverted, by channel number.
    pub invert_channel: Vec<Option<bool>>,
    /// Failsafe value of each channel, by channel number.
    pub failsafe_values: Vec<Option<u16>>,
    /// Human-readable name.
    pub name: String,
    /// Channel value range, in microseconds.
    pub channel_min: u16,
    pub channel_max: u16,
    pub channel_mid: u16,
}

/// Whether a stick entry drives channel `c` on either axis.
pub open spec fn stick_drives(entry: Option<(ELRSChannel, ELRSChannel)>, c: ELRSChannel) -> bool {
    match entry {
        Some((x, y)) => x == c || y == c,
        None => false,
    }
}

/// Whether a channel is driven by a stick or a trigger in the given tables.
pub open spec fn analog_mapped(
    joysticks: Seq<Option<(ELRSChannel, ELRSChannel)>>,
    triggers: Seq<Option<ELRSChannel>>,
    c: ELRSChannel,
) -> bool {
    (exists|j: int| 0 <= j < joysticks.len() && stick_drives(#[trigger] joysticks[j], c))
    || (exists|t: int| 0 <= t < triggers.len() && #[trigger] triggers[t] == Some(c))
}

impl ELRSConfig {
    /// Every table has one slot per key.
    pub open spec fn wf(&self) -> bool {
        &&& self.joystick_mapping@.len() == 2
        &&& self.trigger_mapping@.len() == 2
        &&& self.button_mapping@.len() == BUTTON_COUNT
        &&& self.invert_channel@.len() == CHANNEL_COUNT
        &&& self.failsafe_values@.len() == CHANNEL_COUNT
    }

    /// No stick drives a channel.
    pub open spec fn has_no_joysticks(&self) -> bool {
        forall|j: int| 0 <= j < self.joystick_mapping@.len() ==> (#[trigger] self.joystick_mapping@[j]) is None
    }

    /// Whether a channel is driven by a stick or a trigger.
    pub open spec fn maps_channel(&self, c: ELRSChannel) -> bool {
        analog_mapped(self.joystick_mapping@, self.trigger_mapping@, c)
    }

    /// Essential channels that no stick or trigger drives, in order.
    pub open spec fn missing_channels(&self) -> Seq<ELRSChannel> {
        essential_channels().filter(|c: ELRSChannel| !self.maps_channel(c))
    }

    /// The configuration passes validation.
    pub open spec fn spec_is_valid(&self) -> bool {
        !self.has_no_joysticks() && self.missing_channels().len() == 0
    }

    /// Why validation fails: no stick drives a channel, or the essential channels
    /// that nothing drives.
    pub open spec fn validation_message(&self) -> Seq<char> {
        if self.has_no_joysticks() {
            "Joystick mapping cannot be empty for ELRS configuration"@
        } else {
            "Missing essential channels in ELRS configuration: "@ + channel_list_text(self.missing_channels())
        }
    }

    /// The configuration is the default one: the tables, name and channel range
    /// that `default_config` gives.
    pub open spec fn is_default_layout(&self) -> bool {
        &&& self.joystick_mapping@ == default_joysticks()
        &&& self.trigger_mapping@ == default_triggers()
        &&& self.button_mapping@ == default_buttons()
        &&& self.invert_channel@ == default_inversion()
        &&& self.failsafe_values@ == default_failsafe()
        &&& self.name@ == "Default ELRS Configuration"@
        &&& self.channel_min == 1000 && self.channel_max == 2000 && self.channel_mid == 1500
    }

    /// Whether the inverted flag of a channel is set.
    pub open spec fn inverted(&self, c: ELRSChannel) -> bool {
        self.invert_channel@[channel_number(c)] == Some(true)
    }

    /// A configuration from its tables and channel range; the middle of the range
    /// is the midpoint of `channel_min` and `channel_max`, rounded down.
    pub fn new(
        joystick_mapping: Vec<Option<(ELRSChannel, ELRSChannel)>>,
        trigger_mapping: Vec<Option<ELRSChannel>>,
        button_mapping: Vec<Option<(ELRSChannel, u16, u16)>>,
        invert_channel: Vec<Option<bool>>,
        failsafe_values: Vec<Option<u16>>,
        name: String,
        channel_min: u16,
        channel_max: u16,
    ) -> (c: ELRSConfig)
        ensures
            c.joystick_mapping == joystick_mapping,
            c.trigger_mapping == trigger_mapping,
            c.button_mapping == button_mapping,
            c.invert_channel == invert_channel,
            c.failsafe_values == failsafe_values,
            c.name == name,
            c.channel_min == channel_min,
            c.channel_max == channel_max,
            c.channel_mid == (channel_min + channel_max) / 2,
    {
        let sum: u32 = channel_min as u32 + channel_max as u32;
        let channel_mid: u16 = (sum / 2) as u16;
        ELRSConfig {
            joystick_mapping,
            trigger_mapping,
            button_mapping,
            invert_channel,
            failsafe_values,
            name,
            channel_min,
            channel_max,
            channel_mid,
        }
    }

    /// The standard Mode 2 layout: right stick on Roll and Pitch, left stick on Yaw
    /// and Throttle, the triggers on Aux1 and Aux2, buttons A and B switching Aux3
    /// and Aux4 between 2000 (pressed) and 1000 (released), Throttle inverted, and
    /// failsafe values that centre Roll, Pitch and Yaw (1500) and hold Throttle and
    /// Aux1 to Aux4 at 1000; channel range 1000 to 2000.
    pub fn default_config() -> (c: ELRSConfig)
        ensures
            c.is_default_layout(),
            c.wf(),
            c.joystick_mapping@ == default_joysticks(),
            c.trigger_mapping@ == default_triggers(),
            c.button_mapping@ == default_buttons(),
            c.invert_channel@ == default_inversion(),
            c.failsafe_values@ == default_failsafe(),
            c.name@ == "Default ELRS Configuration"@,
            c.channel_min == 1000 && c.channel_max == 2000 && c.channel_mid == 1500,
            c.spec_is_valid(),
    {
        let joystick_mapping = vec![
            Some((ELRSChannel::Yaw, ELRSChannel::Throttle)),
            Some((ELRSChannel::Roll, ELRSChannel::Pitch)),
        ];
        let trigger_mapping = vec![Some(ELRSChannel::Aux1), Some(ELRSChannel::Aux2)];
        let mut button_mapping: Vec<Option<(ELRSChannel, u16, u16)>> = empty_table(BUTTON_COUNT);
        button_mapping.set(0, Some((ELRSChannel::Aux3, 2000, 1000)));
        button_mapping.set(1, Some((ELRSChannel::Aux4, 2000, 1000)));
        let mut invert_channel: Vec<Option<bool>> = empty_table(CHANNEL_COUNT);
        invert_channel.set(2, Some(true));
        let failsafe_values = vec![
            Some(1500u16), Some(1500u16), Some(1000u16), Some(1500u16),
            Some(1000u16), Some(1000u16), Some(1000u16), Some(1000u16),
            None, None, None, None,
        ];
        let c = ELRSConfig::new(
            joystick_mapping,
            trigger_mapping,
            button_mapping,
            invert_channel,
            failsafe_values,
            String::from_str("Default ELRS Configuration"),
            1000,
            2000,
        );
        assert(c.joystick_mapping@ =~= default_joysticks());
        assert(c.trigger_mapping@ =~= default_triggers());
        assert(c.button_mapping@ =~= default_buttons());
        assert(c.invert_channel@ =~= default_inversion());
        assert(c.failsafe_values@ =~= default_failsafe());
        proof {
            lemma_default_layout_valid(c);
        }
        c
    }

    /// Whether no stick drives a channel.
    pub fn joystick_mapping_is_empty(&self) -> (b: bool)
        ensures
            b == self.has_no_joysticks(),
    {
        let mut i: usize = 0;
        while i < self.joystick_mapping.len()
            invariant
                i <= self.joystick_mapping@.len(),
                forall|k: int| 0 <= k < i ==> (#[trigger] self.joystick_mapping@[k]) is None,
            decreases self.joystick_mapping@.len() - i,
        {
            if self.joystick_mapping[i].is_some() {
                return false;
            }
            i = i + 1;
        }
        true
    }

    /// Whether a channel is driven by a stick or a trigger.
    pub fn is_channel_mapped(&self, c: ELRSChannel) -> (b: bool)
        ensures
            b == self.maps_channel(c),
    {
        let mut j: usize = 0;
        while j < self.joystick_mapping.len()
            invariant
                j <= self.joystick_mapping@.len(),
                forall|k: int| 0 <= k < j ==> !stick_drives(#[trigger] self.joystick_mapping@[k], c),
            decreases self.joystick_mapping@.len() - j,
        {
            match self.joystick_mapping[j] {
                Some((x, y)) => {
                    if x == c || y == c {
                        return true;
                    }
                },
                None => {},
            }
            j = j + 1;
        }
        let mut t: usize = 0;
        while t < self.trigger_mapping.len()
            invariant
                t <= self.trigger_mapping@.len(),
                forall|k: int| 0 <= k < self.joystick_mapping@.len() ==> !stick_drives(#[trigger] self.joystick_mapping@[k], c),
                forall|k: int| 0 <= k < t ==> #[trigger] self.trigger_mapping@[k] != Some(c),
            decreases self.trigger_mapping@.len() - t,
        {
            if self.trigger_mapping[t] == Some(c) {
                return true;
            }
            t = t + 1;
        }
        false
    }

    /// Checks the configuration: a stick must drive a channel, and every essential
    /// channel (Roll, Pitch, Throttle, Yaw) must be driven by a stick or a trigger.
    /// The error names the missing essential channels in that order.
    pub fn validate(&self) -> (r: Result<(), MappingError>)
        ensures
            r is Ok <==> self.spec_is_valid(),
            r is Err ==> (r matches Err(MappingError::ConfigError(msg)) && msg@ == self.validation_message()),
            self.has_no_joysticks() ==> (r matches Err(MappingError::ConfigError(msg))
                && msg@ == "Joystick mapping cannot be empty for ELRS configuration"@),
            !self.has_no_joysticks() && !self.spec_is_valid() ==> (r matches Err(MappingError::ConfigError(msg))
                && msg@ == "Missing essential channels in ELRS configuration: "@ + channel_list_text(self.missing_channels())),
    {
        if self.joystick_mapping_is_empty() {
            return Err(MappingError::ConfigError(String::from_str("Joystick mapping cannot be empty for ELRS configuration")));
        }
        let essential = [ELRSChannel::Roll, ELRSChannel::Pitch, ELRSChannel::Throttle, ELRSChannel::Yaw];
        let mut missing: Vec<ELRSChannel> = Vec::new();
        let ghost pred = |c: ELRSChannel| !self.maps_channel(c);
        assert(essential@ =~= essential_channels());
        assert(essential_channels().take(0) =~= Seq::<ELRSChannel>::empty());
        for i in 0..4
            invariant
                essential@ == essential_channels(),
                pred == (|c: ELRSChannel| !self.maps_channel(c)),
                missing@ == essential_channels().take(i as int).filter(pred),
        {
            let c = essential[i];
            proof {
                assert(essential_channels().take(i + 1) =~= essential_channels().take(i as int).push(c));
                essential_channels().take(i as int).lemma_filter_push(c, pred);
            }
            if !self.is_channel_mapped(c) {
                missing.push(c);
            }
        }
        assert(essential_channels().take(4) =~= essential_channels());
        if missing.len() > 0 {
            let mut msg = String::from_str("Missing essential channels in ELRS configuration: ");
            let list = channel_list(&missing);
            msg.append(list.as_str());
            return Err(MappingError::ConfigError(msg));
        }
        Ok(())
    }

    /// The kind of mapping this configuration produces.
    pub fn get_type(&self) -> (t: MappingType)
        ensures
            t == MappingType::ELRS,
    {
        MappingType::ELRS
    }

    /// Human-readable name of this configuration.
    pub fn get_name(&self) -> (s: String)
        ensures
            s@ == self.name@,
    {
        self.name.clone()
    }

    /// Description of this configuration for display.
    pub fn get_description(&self) -> (s: String)
        ensures
            s@ == "Configuration for "@ + "ELRS"@ + " mapping"@,
    {
        let mut s = String::from_str("Configuration for ");
        let t = self.get_type().name();
        s.append(t.as_str());
        s.append(" mapping");
        proof {
            reveal_strlit("ELRS");
        }
        s
    }

    /// A copy of this configuration.
    pub fn duplicate(&self) -> (c: ELRSConfig)
        ensures
            c.joystick_mapping@ == self.joystick_mapping@,
            c.trigger_mapping@ == self.trigger_mapping@,
            c.button_mapping@ == self.button_mapping@,
            c.invert_channel@ == self.invert_channel@,
            c.failsafe_values@ == self.failsafe_values@,
            c.name@ == self.name@,
            c.channel_min == self.channel_min,
            c.channel_max == self.channel_max,
            c.channel_mid == self.channel_mid,
    {
        ELRSConfig {
            joystick_mapping: copy_table(&self.joystick_mapping),
            trigger_mapping: copy_table(&self.trigger_mapping),
            button_mapping: copy_table(&self.button_mapping),
            invert_channel: copy_table(&self.invert_channel),
            failsafe_values: copy_table(&self.failsafe_values),
            name: self.name.clone(),
            channel_min: self.channel_min,
            channel_max: self.channel_max,
            channel_mid: self.channel_mid,
        }
    }

    /// An ELRS strategy running this configuration.
    pub fn create_strategy(&self) -> (r: Result<ELRSStrategy, MappingError>)
        requires
            self.wf(),
        ensures
            r matches Ok(s) && s.wf() && s.channel_values_view() == self.failsafe_values@
                && s.config_view().joystick_mapping@ == self.joystick_mapping@
                && s.config_view().trigger_mapping@ == self.trigger_mapping@
                && s.config_view().button_mapping@ == self.button_mapping@
                && s.config_view().invert_channel@ == self.invert_channel@
                && s.config_view().failsafe_values@ == self.failsafe_values@
                && s.config_view().channel_min == self.channel_min
                && s.config_view().channel_max == self.channel_max
                && s.config_view().channel_mid == self.channel_mid
                && s.config_view().name@ == self.name@,
    {
        Ok(ELRSStrategy::new(self.duplicate()))
    }
}

/// Comma-separated names of `s` in brackets.
fn channel_list(s: &Vec<ELRSChannel>) -> (text: String)
    ensures
        text@ == channel_list_text(s@),
{
    let mut body = String::new();
    assert(s@.take(0) =~= Seq::<ELRSChannel>::empty());
    for i in 0..s.len()
        invariant
            body@ == channel_list_body(s@.take(i as int)),
    {
        proof {
            assert(s@.take(i + 1).drop_last() =~= s@.take(i as int));
            assert(s@.take(i + 1).last() == s@[i as int]);
        }
        if i > 0 {
            body.append(", ");
        } else {
            assert(s@.take(1) =~= seq![s@[0]]);
        }
        let name = s[i].name();
        body.append(name.as_str());
    }
    assert(s@.take(s@.len() as int) =~= s@);
    let mut text = String::from_str("[");
    text.append(body.as_str());
    text.append("]");
    text
}

/// A copy of a table of copyable entries.
fn copy_table<V: Copy>(v: &Vec<Option<V>>) -> (r: Vec<Option<V>>)
    ensures
        r@ == v@,
{
    let mut r: Vec<Option<V>> = Vec::new();
    for i in 0..v.len()
        invariant
            r@.len() == i,
            i <= v@.len(),
            forall|k: int| 0 <= k < i ==> #[trigger] r@[k] == v@[k],
    {
        r.push(v[i]);
    }
    assert(r@ =~= v@);
    r
}

/// Table with `n` empty slots.
fn empty_table<V>(n: usize) -> (v: Vec<Option<V>>)
    ensures
        v@.len() == n,
        forall|k: int| 0 <= k < n ==> (#[trigger] v@[k]) is None,
{
    let mut v: Vec<Option<V>> = Vec::new();
    for i in 0..n
        invariant
            v@.len() == i,
            forall|k: int| 0 <= k < i ==> (#[trigger] v@[k]) is None,
    {
        v.push(None);
    }
    v
}

impl Default for ELRSConfig {
    fn default() -> (c: Self)
        ensures
            c.wf(),
            c.has_no_joysticks(),
            forall|k: int| 0 <= k < 2 ==> (#[trigger] c.trigger_mapping@[k]) is None,
            forall|k: int| 0 <= k < BUTTON_COUNT ==> (#[trigger] c.button_mapping@[k]) is None,
            forall|k: int| 0 <= k < CHANNEL_COUNT ==> (#[trigger] c.invert_channel@[k]) is None,
            forall|k: int| 0 <= k < CHANNEL_COUNT ==> (#[trigger] c.failsafe_values@[k]) is None,
            c.name@ == Seq::<char>::empty(),
            c.channel_min == 0 && c.channel_max == 0 && c.channel_mid == 0,
    {
        ELRSConfig {
            joystick_mapping: empty_table(2),
            trigger_mapping: empty_table(2),
            button_mapping: empty_table(BUTTON_COUNT),
            invert_channel: empty_table(CHANNEL_COUNT),
            failsafe_values: empty_table(CHANNEL_COUNT),
            name: String::new(),
            channel_min: 0,
            channel_max: 0,
            channel_mid: 0,
        }
    }
}

/// Maps controller input onto ELRS channel values.
pub struct ELRSStrategy {
    config: ELRSConfig,
    context: MappingContext,
    channel_values: Vec<Option<u16>>,
}

impl ELRSStrategy {
    /// The configuration this strategy runs.
    pub closed spec fn config_view(&self) -> ELRSConfig {
        self.config
    }

    /// Current value of each channel, by channel number.
    pub closed spec fn channel_values_view(&self) -> Seq<Option<u16>> {
        self.channel_values@
    }

    /// Configuration and channel table are well formed.
    pub open spec fn wf(&self) -> bool {
        self.config_view().wf() && self.channel_values_view().len() == CHANNEL_COUNT
    }

    /// A strategy running `config`, with every channel at its failsafe value.
    pub fn new(config: ELRSConfig) -> (s: ELRSStrategy)
        requires
            config.wf(),
        ensures
            s.wf(),
            s.config_view() == config,
            s.channel_values_view() == config.failsafe_values@,
    {
        let channel_values = copy_table(&config.failsafe_values);
        ELRSStrategy { config, context: MappingContext::default(), channel_values }
    }

    /// Current value of a channel.
    pub fn channel_value(&self, c: ELRSChannel) -> (v: Option<u16>)
        requires
            self.wf(),
        ensures
            v == self.channel_values_view()[channel_number(c)],
    {
        self.channel_values[c.number() as usize]
    }

    /// Channel range of the running configuration: (min, max, mid).
    pub fn channel_range(&self) -> (r: (u16, u16, u16))
        ensures
            r == (self.config_view().channel_min, self.config_view().channel_max, self.config_view().channel_mid),
    {
        (self.config.channel_min, self.config.channel_max, self.config.channel_mid)
    }

    /// Whether a channel is inverted, absent entries counting as not inverted.
    pub fn is_inverted(&self, c: ELRSChannel) -> (b: bool)
        requires
            self.wf(),
        ensures
            b == self.config_view().inverted(c),
    {
        match self.config.invert_channel[c.number() as usize] {
            Some(flag) => flag,
            None => false,
        }
    }

    /// Which analog input drives which channel, and with which inversion: the left
    /// stick's axes, then the right stick's, then the left and right trigger.
    pub fn analog_assignments(&self) -> (plan: Vec<AnalogAssignment>)
        requires
            self.wf(),
        ensures
            plan@ == analog_plan(self.config_view()),
    {
        let mut plan: Vec<AnalogAssignment> = Vec::new();
        self.push_stick(&mut plan, self.config.joystick_mapping[0], AnalogSource::LeftStickX, AnalogSource::LeftStickY);
        self.push_stick(&mut plan, self.config.joystick_mapping[1], AnalogSource::RightStickX, AnalogSource::RightStickY);
        self.push_trigger(&mut plan, self.config.trigger_mapping[0], AnalogSource::LeftTrigger);
        self.push_trigger(&mut plan, self.config.trigger_mapping[1], AnalogSource::RightTrigger);
        assert(plan@ =~= analog_plan(self.config_view()));
        plan
    }

    /// Appends the assignments of one stick's axes.
    fn push_stick(
        &self,
        plan: &mut Vec<AnalogAssignment>,
        entry: Option<(ELRSChannel, ELRSChannel)>,
        sx: AnalogSource,
        sy: AnalogSource,
    )
        requires
            self.wf(),
        ensures
            final(plan)@ == old(plan)@ + stick_plan(self.config_view(), entry, sx, sy),
    {
        match entry {
            Some((x, y)) => {
                let ix = self.is_inverted(x);
                let iy = self.is_inverted(y);
                plan.push(AnalogAssignment { source: sx, channel: x, invert: ix });
                plan.push(AnalogAssignment { source: sy, channel: y, invert: iy });
            },
            None => {},
        }
        assert(plan@ =~= old(plan)@ + stick_plan(self.config_view(), entry, sx, sy));
    }

    /// Appends the assignment of one trigger.
    fn push_trigger(&self, plan: &mut Vec<AnalogAssignment>, entry: Option<ELRSChannel>, src: AnalogSource)
        requires
            self.wf(),
        ensures
            final(plan)@ == old(plan)@ + trigger_plan(self.config_view(), entry, src),
    {
        match entry {
            Some(c) => {
                let inv = self.is_inverted(c);
                plan.push(AnalogAssignment { source: src, channel: c, invert: inv });
            },
            None => {},
        }
        assert(plan@ =~= old(plan)@ + trigger_plan(self.config_view(), entry, src));
    }

    /// A raw channel value brought into the channel range: above the maximum it is
    /// the maximum, then below the minimum it is the minimum.
    pub fn bound_value(&self, raw: u16) -> (v: u16)
        ensures
            v == bounded(raw, self.config_view().channel_min, self.config_view().channel_max),
    {
        let capped = if raw > self.config.channel_max { self.config.channel_max } else { raw };
        if capped < self.config.channel_min { self.config.channel_min } else { capped }
    }

    /// Channel values for one controller state: `analog` holds the converted stick and
    /// trigger values for the channels of `analog_assignments`, in that order; each is
    /// brought into the channel range and set. Then every button event with a channel
    /// sets it to the pressed value while held and to the released value once complete.
    /// The result holds every channel that has a value, by channel number; `None` when
    /// no channel has one.
    pub fn map(&mut self, analog: &Vec<(ELRSChannel, u16)>, button_events: &Vec<ButtonEvent>) -> (r: Option<MappedEvent>)
        requires
            old(self).wf(),
        ensures
            final(self).wf(),
            final(self).config_view() == old(self).config_view(),
            final(self).channel_values_view() == apply_buttons(
                apply_analog(
                    old(self).channel_values_view(),
                    analog@,
                    old(self).config_view().channel_min,
                    old(self).config_view().channel_max,
                ),
                old(self).config_view().button_mapping@,
                button_events@,
            ),
            package(final(self).channel_values_view(), CHANNEL_COUNT as nat).len() == 0 ==> r is None,
            package(final(self).channel_values_view(), CHANNEL_COUNT as nat).len() > 0 ==> (r matches Some(MappedEvent::ELRSData { pre_package })
                && pre_package@ == package(final(self).channel_values_view(), CHANNEL_COUNT as nat)),
    {
        let ghost v0 = self.channel_values@;
        let min = self.config.channel_min;
        let max = self.config.channel_max;
        assert(analog@.take(0) =~= Seq::<(ELRSChannel, u16)>::empty());
        for i in 0..analog.len()
            invariant
                self.wf(),
                self.config_view() == old(self).config_view(),
                min == self.config_view().channel_min,
                max == self.config_view().channel_max,
                v0 == old(self).channel_values_view(),
                self.channel_values@ == apply_analog(v0, analog@.take(i as int), min, max),
        {
            let (c, raw) = analog[i];
            proof {
                assert(analog@.take(i + 1).drop_last() =~= analog@.take(i as int));
                assert(analog@.take(i + 1).last() == (c, raw));
            }
            let v = self.bound_value(raw);
            self.channel_values.set(c.number() as usize, Some(v));
        }
        assert(analog@.take(analog@.len() as int) =~= analog@);
        let ghost v1 = self.channel_values@;
        assert(button_events@.take(0) =~= Seq::<ButtonEvent>::empty());
        for i in 0..button_events.len()
            invariant
                self.wf(),
                self.config_view() == old(self).config_view(),
                self.channel_values@ == apply_buttons(v1, self.config_view().button_mapping@, button_events@.take(i as int)),
        {
            let e = button_events[i];
            proof {
                assert(button_events@.take(i + 1).drop_last() =~= button_events@.take(i as int));
                assert(button_events@.take(i + 1).last() == e);
            }
            match self.config.button_mapping[e.button.index()] {
                Some((c, pressed, released)) => {
                    let v = match e.state {
                        ButtonEventState::Held => pressed,
                        ButtonEventState::Complete => released,
                    };
                    self.channel_values.set(c.number() as usize, Some(v));
                },
                None => {},
            }
        }
        assert(button_events@.take(button_events@.len() as int) =~= button_events@);
        let pre_package = package_values(&self.channel_values);
        if pre_package.len() == 0 {
            None
        } else {
            Some(MappedEvent::ELRSData { pre_package })
        }
    }

    /// Sets every channel that has a failsafe value to it; other channels keep theirs.
    fn restore_failsafe(&mut self)
        requires
            old(self).wf(),
        ensures
            final(self).wf(),
            final(self).config_view() == old(self).config_view(),
            final(self).channel_values_view() == with_failsafe(old(self).channel_values_view(), old(self).config_view().failsafe_values@),
    {
        let ghost v0 = self.channel_values@;
        for i in 0..CHANNEL_COUNT
            invariant
                self.wf(),
                self.config_view() == old(self).config_view(),
                v0 == old(self).channel_values_view(),
                v0.len() == CHANNEL_COUNT,
                forall|k: int| 0 <= k < i ==> #[trigger] self.channel_values@[k] == with_failsafe(v0, self.config.failsafe_values@)[k],
                forall|k: int| i <= k < CHANNEL_COUNT ==> #[trigger] self.channel_values@[k] == v0[k],
        {
            match self.config.failsafe_values[i] {
                Some(v) => {
                    self.channel_values.set(i, Some(v));
                },
                None => {},
            }
        }
        assert(self.channel_values@ =~= with_failsafe(v0, self.config.failsafe_values@));
    }

    /// Starts the strategy: every channel with a failsafe value is set to it.
    pub fn initialize(&mut self) -> (r: Result<(), MappingError>)
        requires
            old(self).wf(),
        ensures
            r is Ok,
            final(self).wf(),
            final(self).config_view() == old(self).config_view(),
            final(self).channel_values_view() == with_failsafe(old(self).channel_values_view(), old(self).config_view().failsafe_values@),
    {
        self.restore_failsafe();
        Ok(())
    }

    /// Ends the strategy: every channel with a failsafe value is set to it, so that
    /// the vehicle is left in a safe state.
    pub fn shutdown(&mut self)
        requires
            old(self).wf(),
        ensures
            final(self).wf(),
            final(self).config_view() == old(self).config_view(),
            final(self).channel_values_view() == with_failsafe(old(self).channel_values_view(), old(self).config_view().failsafe_values@),
    {
        self.restore_failsafe();
    }

    /// Minimum interval between mapped inputs: 50 ms, usual for RC links.
    pub fn get_rate_limit(&self) -> (r: Option<u64>)
        ensures
            r == Some(50u64),
    {
        Some(50)
    }

    /// The kind of mapping this strategy produces.
    pub fn get_type(&self) -> (t: MappingType)
        ensures
            t == MappingType::ELRS,
    {
        MappingType::ELRS
    }
}

/// Stick table of the default layout: left stick (Yaw, Throttle), right stick (Roll, Pitch).
pub open spec fn default_joysticks() -> Seq<Option<(ELRSChannel, ELRSChannel)>> {
    seq![Some((ELRSChannel::Yaw, ELRSChannel::Throttle)), Some((ELRSChannel::Roll, ELRSChannel::Pitch))]
}

/// Trigger table of the default layout: left trigger Aux1, right trigger Aux2.
pub open spec fn default_triggers() -> Seq<Option<ELRSChannel>> {
    seq![Some(ELRSChannel::Aux1), Some(ELRSChannel::Aux2)]
}

/// Button table of the default layout: A switches Aux3, B switches Aux4, both
/// 2000 while pressed and 1000 when released; no other button has a channel.
pub open spec fn default_buttons() -> Seq<Option<(ELRSChannel, u16, u16)>> {
    Seq::new(BUTTON_COUNT as nat, |k: int|
        if k == 0 { Some((ELRSChannel::Aux3, 2000u16, 1000u16)) }
        else if k == 1 { Some((ELRSChannel::Aux4, 2000u16, 1000u16)) }
        else { None })
}

/// Inversion table of the default layout: only Throttle is inverted.
pub open spec fn default_inversion() -> Seq<Option<bool>> {
    Seq::new(CHANNEL_COUNT as nat, |k: int| if k == 2 { Some(true) } else { None })
}

/// Failsafe table of the default layout: Roll, Pitch and Yaw at 1500, Throttle and
/// Aux1 to Aux4 at 1000, Aux5 to Aux8 without a failsafe value.
pub open spec fn default_failsafe() -> Seq<Option<u16>> {
    seq![
        Some(1500u16), Some(1500u16), Some(1000u16), Some(1500u16),
        Some(1000u16), Some(1000u16), Some(1000u16), Some(1000u16),
        None, None, None, None,
    ]
}

/// Channel assignments of the analog inputs under a configuration: the left stick's
/// axes, then the right stick's, then the left and right trigger.
pub open spec fn analog_plan(cfg: ELRSConfig) -> Seq<AnalogAssignment> {
    stick_plan(cfg, cfg.joystick_mapping@[0], AnalogSource::LeftStickX, AnalogSource::LeftStickY)
        + stick_plan(cfg, cfg.joystick_mapping@[1], AnalogSource::RightStickX, AnalogSource::RightStickY)
        + trigger_plan(cfg, cfg.trigger_mapping@[0], AnalogSource::LeftTrigger)
        + trigger_plan(cfg, cfg.trigger_mapping@[1], AnalogSource::RightTrigger)
}

/// Assignments of a stick's axes to the channels of its entry, if it has one.
pub open spec fn stick_plan(
    cfg: ELRSConfig,
    entry: Option<(ELRSChannel, ELRSChannel)>,
    sx: AnalogSource,
    sy: AnalogSource,
) -> Seq<AnalogAssignment> {
    match entry {
        Some((x, y)) => seq![
            AnalogAssignment { source: sx, channel: x, invert: cfg.inverted(x) },
            AnalogAssignment { source: sy, channel: y, invert: cfg.inverted(y) },
        ],
        None => Seq::empty(),
    }
}

/// Assignment of a trigger to the channel of its entry, if it has one.
pub open spec fn trigger_plan(cfg: ELRSConfig, entry: Option<ELRSChannel>, src: AnalogSource) -> Seq<AnalogAssignment> {
    match entry {
        Some(c) => seq![AnalogAssignment { source: src, channel: c, invert: cfg.inverted(c) }],
        None => Seq::empty(),
    }
}

/// A configuration with the default stick and trigger tables passes validation.
proof fn lemma_default_layout_valid(c: ELRSConfig)
    requires
        c.joystick_mapping@ == default_joysticks(),
        c.trigger_mapping@ == default_triggers(),
    ensures
        c.spec_is_valid(),
{
    let js = c.joystick_mapping@;
    assert(stick_drives(js[0], ELRSChannel::Yaw));
    assert(stick_drives(js[0], ELRSChannel::Throttle));
    assert(stick_drives(js[1], ELRSChannel::Roll));
    assert(stick_drives(js[1], ELRSChannel::Pitch));
    assert(!c.has_no_joysticks()) by {
        assert(js[0] is Some);
    }
    let pred = |ch: ELRSChannel| !c.maps_channel(ch);
    assert forall|i: int| 0 <= i < essential_channels().len() implies !pred(#[trigger] essential_channels()[i]) by {
        assert(c.maps_channel(essential_channels()[i]));
    }
    lemma_filter_none(essential_channels(), pred);
}

/// Filtering out every element of a sequence leaves it empty.
proof fn lemma_filter_none<A>(s: Seq<A>, pred: spec_fn(A) -> bool)
    requires
        forall|i: int| 0 <= i < s.len() ==> !pred(#[trigger] s[i]),
    ensures
        s.filter(pred).len() == 0,
    decreases s.len(),
{
    reveal(Seq::filter);
    if s.len() > 0 {
        lemma_filter_none(s.drop_last(), pred);
        assert(!pred(s.last()));
    }
}

/// A raw value capped at `max`, then raised to `min`.
pub open spec fn bounded(raw: u16, min: u16, max: u16) -> u16 {
    let capped = if raw > max { max } else { raw };
    if capped < min { min } else { capped }
}

/// Channel values after setting each (channel, raw value), in order, to the raw value
/// brought into the range.
pub open spec fn apply_analog(
    values: Seq<Option<u16>>,
    analog: Seq<(ELRSChannel, u16)>,
    min: u16,
    max: u16,
) -> Seq<Option<u16>>
    decreases analog.len(),
{
    if analog.len() == 0 {
        values
    } else {
        let v = apply_analog(values, analog.drop_last(), min, max);
        let (c, raw) = analog.last();
        v.update(channel_number(c), Some(bounded(raw, min, max)))
    }
}

/// Channel values after the button events, in order: each button with a channel sets
/// it to the pressed value while held, to the released value once complete.
pub open spec fn apply_buttons(
    values: Seq<Option<u16>>,
    buttons: Seq<Option<(ELRSChannel, u16, u16)>>,
    events: Seq<ButtonEvent>,
) -> Seq<Option<u16>>
    decreases events.len(),
{
    if events.len() == 0 {
        values
    } else {
        let v = apply_buttons(values, buttons, events.drop_last());
        let e = events.last();
        match buttons[button_index(e.button)] {
            Some((c, pressed, released)) => v.update(
                channel_number(c),
                Some(if e.state == ButtonEventState::Held { pressed } else { released }),
            ),
            None => v,
        }
    }
}

/// Channel values with every channel that has a failsafe value set to it.
pub open spec fn with_failsafe(values: Seq<Option<u16>>, failsafe: Seq<Option<u16>>) -> Seq<Option<u16>> {
    Seq::new(values.len(), |k: int| if failsafe[k] is Some { failsafe[k] } else { values[k] })
}

/// (channel number, value) of the channels below `n` that have a value, by channel number.
pub open spec fn package(values: Seq<Option<u16>>, n: nat) -> Seq<(u16, u16)>
    decreases n,
{
    if n == 0 {
        Seq::empty()
    } else {
        let rest = package(values, (n - 1) as nat);
        match values[n - 1] {
            Some(v) => rest.push(((n - 1) as u16, v)),
            None => rest,
        }
    }
}

/// (channel number, value) of every channel that has a value, by channel number.
fn package_values(values: &Vec<Option<u16>>) -> (p: Vec<(u16, u16)>)
    requires
        values@.len() == CHANNEL_COUNT,
    ensures
        p@ == package(values@, CHANNEL_COUNT as nat),
{
    let mut p: Vec<(u16, u16)> = Vec::new();
    for i in 0..CHANNEL_COUNT
        invariant
            values@.len() == CHANNEL_COUNT,
            p@ == package(values@, i as nat),
    {
        match values[i] {
            Some(v) => {
                p.push((i as u16, v));
            },
            None => {},
        }
    }
    p
}

/// Whether every channel that has a value holds one within `min..=max`.
pub open spec fn values_in_range(values: Seq<Option<u16>>, min: u16, max: u16) -> bool {
    forall|k: int| 0 <= k < values.len() ==> match #[trigger] values[k] {
        Some(v) => min <= v <= max,
        None => true,
    }
}

/// A value brought into a non-empty range lies in it, and a value already in the
/// range is left unchanged.
pub proof fn law_bounded_value_in_range(raw: u16, min: u16, max: u16)
    requires
        min <= max,
    ensures
        min <= bounded(raw, min, max) <= max,
        min <= raw <= max ==> bounded(raw, min, max) == raw,
{
}

/// Stick and trigger input never takes a channel out of a non-empty channel range:
/// if every channel value lies in the range before, every one lies in it after.
pub proof fn law_analog_keeps_channels_in_range(
    values: Seq<Option<u16>>,
    analog: Seq<(ELRSChannel, u16)>,
    min: u16,
    max: u16,
)
    requires
        min <= max,
        values.len() == CHANNEL_COUNT,
        values_in_range(values, min, max),
    ensures
        apply_analog(values, analog, min, max).len() == CHANNEL_COUNT,
        values_in_range(apply_analog(values, analog, min, max), min, max),
    decreases analog.len(),
{
    if analog.len() > 0 {
        law_analog_keeps_channels_in_range(values, analog.drop_last(), min, max);
        let (c, raw) = analog.last();
        law_bounded_value_in_range(raw, min, max);
        let v = apply_analog(values, analog.drop_last(), min, max);
        assert forall|k: int| 0 <= k < CHANNEL_COUNT implies match #[trigger] apply_analog(values, analog, min, max)[k] {
            Some(x) => min <= x <= max,
            None => true,
        } by {
            if k != channel_number(c) {
                assert(v[k] == apply_analog(values, analog, min, max)[k]);
            }
        }
    }
}

/// Restoring failsafe values twice is the same as restoring them once; in
/// particular a fresh strategy, whose channels hold the failsafe values, is left
/// unchanged by a shutdown.
pub proof fn law_failsafe_restore_idempotent(values: Seq<Option<u16>>, failsafe: Seq<Option<u16>>)
    requires
        values.len() == failsafe.len(),
    ensures
        with_failsafe(with_failsafe(values, failsafe), failsafe) == with_failsafe(values, failsafe),
        with_failsafe(failsafe, failsafe) == failsafe,
{
    assert(with_failsafe(with_failsafe(values, failsafe), failsafe) =~= with_failsafe(values, failsafe));
    assert(with_failsafe(failsafe, failsafe) =~= failsafe);
}

/// After a failsafe restore every channel that has a failsafe value holds it.
pub proof fn law_failsafe_restore_sets_failsafe(values: Seq<Option<u16>>, failsafe: Seq<Option<u16>>, k: int)
    requires
        values.len() == failsafe.len(),
        0 <= k < values.len(),
        failsafe[k] is Some,
    ensures
        with_failsafe(values, failsafe)[k] == failsafe[k],
{
}

/// The packaged channel data names each channel at most once, in increasing order
/// of channel number, and only channels below `n`.
pub proof fn law_package_channels_increasing(values: Seq<Option<u16>>, n: nat)
    requires
        n <= CHANNEL_COUNT,
    ensures
        forall|i: int, j: int| 0 <= i < j < package(values, n).len()
            ==> (#[trigger] package(values, n)[i]).0 < (#[trigger] package(values, n)[j]).0,
        forall|i: int| 0 <= i < package(values, n).len() ==> (#[trigger] package(values, n)[i]).0 < n,
    decreases n,
{
    if n > 0 {
        let m = (n - 1) as nat;
        law_package_channels_increasing(values, m);
        let rest = package(values, m);
        let whole = package(values, n);
        assert((m as u16) as int == m);
        match values[m as int] {
            Some(v) => {
                assert(whole == rest.push((m as u16, v)));
                assert forall|i: int| 0 <= i < whole.len() implies (#[trigger] whole[i]).0 < n by {
                    if i < rest.len() {
                        assert(whole[i] == rest[i]);
                    }
                }
                assert forall|i: int, j: int| 0 <= i < j < whole.len() implies (#[trigger] whole[i]).0 < (#[trigger] whole[j]).0 by {
                    assert(whole[i] == rest[i]);
                    if j < rest.len() {
                        assert(whole[j] == rest[j]);
                    }
                }
            },
            None => {
                assert(whole == rest);
            },
        }
    }
}

/// The channel that the configuration's tables give an analog input: a stick's x
/// axis drives the first channel of that stick's entry and its y axis the second;
/// a trigger drives the channel of its entry.
pub open spec fn source_channel(cfg: ELRSConfig, src: AnalogSource) -> Option<ELRSChannel> {
    let left = cfg.joystick_mapping@[joystick_index(JoystickType::Left)];
    let right = cfg.joystick_mapping@[joystick_index(JoystickType::Right)];
    match src {
        AnalogSource::LeftStickX => match left { Some(p) => Some(p.0), None => None },
        AnalogSource::LeftStickY => match left { Some(p) => Some(p.1), None => None },
        AnalogSource::RightStickX => match right { Some(p) => Some(p.0), None => None },
        AnalogSource::RightStickY => match right { Some(p) => Some(p.1), None => None },
        AnalogSource::LeftTrigger => cfg.trigger_mapping@[trigger_index(TriggerType::Left)],
        AnalogSource::RightTrigger => cfg.trigger_mapping@[trigger_index(TriggerType::Right)],
    }
}

/// Every analog input drives exactly the channel its table entry names, with that
/// channel's inversion: each assignment's channel is its input's channel (so the
/// left stick's entry is driven by the left stick's axes, the right one's by the
/// right stick's), and every input that has a channel has one assignment.
pub proof fn law_analog_inputs_drive_their_channels(cfg: ELRSConfig)
    ensures
        forall|k: int| 0 <= k < analog_plan(cfg).len() ==> {
            let a = #[trigger] analog_plan(cfg)[k];
            source_channel(cfg, a.source) == Some(a.channel) && a.invert == cfg.inverted(a.channel)
        },
        forall|src: AnalogSource| #[trigger] source_channel(cfg, src) is Some ==> exists|k: int|
            0 <= k < analog_plan(cfg).len() && (#[trigger] analog_plan(cfg)[k]).source == src
                && analog_plan(cfg)[k].channel == source_channel(cfg, src)->0,
        forall|k1: int, k2: int| 0 <= k1 < k2 < analog_plan(cfg).len() ==>
            (#[trigger] analog_plan(cfg)[k1]).source != (#[trigger] analog_plan(cfg)[k2]).source,
{
    let ls = stick_plan(cfg, cfg.joystick_mapping@[0], AnalogSource::LeftStickX, AnalogSource::LeftStickY);
    let rs = stick_plan(cfg, cfg.joystick_mapping@[1], AnalogSource::RightStickX, AnalogSource::RightStickY);
    let lt = trigger_plan(cfg, cfg.trigger_mapping@[0], AnalogSource::LeftTrigger);
    let rt = trigger_plan(cfg, cfg.trigger_mapping@[1], AnalogSource::RightTrigger);
    let plan = analog_plan(cfg);
    assert(plan == ls + rs + lt + rt);
    assert forall|k: int| 0 <= k < plan.len() implies {
        let a = #[trigger] plan[k];
        source_channel(cfg, a.source) == Some(a.channel) && a.invert == cfg.inverted(a.channel)
    } by {
        if k < ls.len() {
            assert(plan[k] == ls[k]);
        } else if k < ls.len() + rs.len() {
            assert(plan[k] == rs[k - ls.len()]);
        } else if k < ls.len() + rs.len() + lt.len() {
            assert(plan[k] == lt[k - ls.len() - rs.len()]);
        } else {
            assert(plan[k] == rt[k - ls.len() - rs.len() - lt.len()]);
        }
    }
    assert forall|src: AnalogSource| #[trigger] source_channel(cfg, src) is Some implies exists|k: int|
        0 <= k < plan.len() && (#[trigger] plan[k]).source == src && plan[k].channel == source_channel(cfg, src)->0 by {
        match src {
            AnalogSource::LeftStickX => { assert(plan[0] == ls[0]); },
            AnalogSource::LeftStickY => { assert(plan[1] == ls[1]); },
            AnalogSource::RightStickX => { assert(plan[ls.len() as int] == rs[0]); },
            AnalogSource::RightStickY => { assert(plan[ls.len() + 1int] == rs[1]); },
            AnalogSource::LeftTrigger => { assert(plan[(ls.len() + rs.len()) as int] == lt[0]); },
            AnalogSource::RightTrigger => { assert(plan[(ls.len() + rs.len() + lt.len()) as int] == rt[0]); },
        }
    }
    assert forall|k1: int, k2: int| 0 <= k1 < k2 < plan.len() implies
        (#[trigger] plan[k1]).source != (#[trigger] plan[k2]).source by {
        if k1 < ls.len() { assert(plan[k1] == ls[k1]); }
        else if k1 < ls.len() + rs.len() { assert(plan[k1] == rs[k1 - ls.len()]); }
        else if k1 < ls.len() + rs.len() + lt.len() { assert(plan[k1] == lt[k1 - ls.len() - rs.len()]); }
        else { assert(plan[k1] == rt[k1 - ls.len() - rs.len() - lt.len()]); }
        if k2 < ls.len() { assert(plan[k2] == ls[k2]); }
        else if k2 < ls.len() + rs.len() { assert(plan[k2] == rs[k2 - ls.len()]); }
        else if k2 < ls.len() + rs.len() + lt.len() { assert(plan[k2] == lt[k2 - ls.len() - rs.len()]); }
        else { assert(plan[k2] == rt[k2 - ls.len() - rs.len() - lt.len()]); }
    }
}

} // verus!
