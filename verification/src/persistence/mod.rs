//! Configuration sections that make up a session (UI, controller mappings,
//! connections, saved messages, session metadata), the store that serves and
//! replaces them, and the decisions of saving, loading and deleting sessions.

pub mod config_portal;
pub mod session_client;

use vstd::prelude::*;
use vstd::string::*;

use crate::mapping::elrs::{ELRSChannel, ELRSConfig};
use crate::mapping::keyboard::{KeyCode, KeyModifiers, KeyboardConfig};
use crate::mqtt::config::{MqttConfig, MqttConfigView};
use crate::mqtt::message_manager::{copy_messages, messages_view, MQTTMessage};

verus! {

/// A colour as red, green and blue components.
#[derive(Clone, Copy, Debug, PartialEq, Eq, Structural)]
pub struct Rgb {
    pub r: u8,
    pub g: u8,
    pub b: u8,
}

/// Colour scheme of the UI.
#[derive(Clone, Copy, Debug, PartialEq, Eq, Structural)]
pub struct Theme {
    pub border_color: Rgb,
    pub background_color_one: Rgb,
    pub background_color_two: Rgb,
    pub background_color_three: Rgb,
    pub text_color: Rgb,
    pub highlight_color: Rgb,
    pub highlight_color_two: Rgb,
    pub frame_color: Rgb,
    pub frame_color_two: Rgb,
}

impl Default for Theme {
    fn default() -> (t: Self)
        ensures
            t == (Theme {
                border_color: Rgb { r: 0, g: 0, b: 0 },
                background_color_one: Rgb { r: 0, g: 0, b: 0 },
                background_color_two: Rgb { r: 0, g: 0, b: 0 },
                background_color_three: Rgb { r: 0, g: 0, b: 0 },
                text_color: Rgb { r: 0, g: 0, b: 0 },
                highlight_color: Rgb { r: 0, g: 0, b: 0 },
                highlight_color_two: Rgb { r: 0, g: 0, b: 0 },
                frame_color: Rgb { r: 0, g: 0, b: 0 },
                frame_color_two: Rgb { r: 0, g: 0, b: 0 },
            }),
    {
        Theme {
            border_color: Rgb { r: 0, g: 0, b: 0 },
            background_color_one: Rgb { r: 0, g: 0, b: 0 },
            background_color_two: Rgb { r: 0, g: 0, b: 0 },
            background_color_three: Rgb { r: 0, g: 0, b: 0 },
            text_color: Rgb { r: 0, g: 0, b: 0 },
            highlight_color: Rgb { r: 0, g: 0, b: 0 },
            highlight_color_two: Rgb { r: 0, g: 0, b: 0 },
            frame_color: Rgb { r: 0, g: 0, b: 0 },
            frame_color_two: Rgb { r: 0, g: 0, b: 0 },
        }
    }
}

/// UI settings: colour scheme and target frame rate.
#[derive(Clone, Copy, Debug, PartialEq, Eq, Structural)]
pub struct UIConfig {
    pub theme: Theme,
    pub fps: u8,
}

impl Default for UIConfig {
    fn default() -> (c: Self)
        ensures
            c.theme == Theme::default_value(),
            c.fps == 0,
    {
        UIConfig { theme: Theme::default(), fps: 0 }
    }
}

impl Theme {
    /// The all-black default scheme.
    pub open spec fn default_value() -> Theme {
        Theme {
            border_color: Rgb { r: 0, g: 0, b: 0 },
            background_color_one: Rgb { r: 0, g: 0, b: 0 },
            background_color_two: Rgb { r: 0, g: 0, b: 0 },
            background_color_three: Rgb { r: 0, g: 0, b: 0 },
            text_color: Rgb { r: 0, g: 0, b: 0 },
            highlight_color: Rgb { r: 0, g: 0, b: 0 },
            highlight_color_two: Rgb { r: 0, g: 0, b: 0 },
            frame_color: Rgb { r: 0, g: 0, b: 0 },
            frame_color_two: Rgb { r: 0, g: 0, b: 0 },
        }
    }
}

/// A network connection with its credentials.
#[derive(Debug)]
pub struct NetworkConnection {
    pub network: String,
    pub key: String,
}

/// Network settings: the connection and a description of its state.
#[derive(Debug)]
pub struct NetworkConfig {
    pub network: NetworkConnection,
    pub state: String,
}

impl Default for NetworkConfig {
    fn default() -> (c: Self)
        ensures
            c.network.network@ == Seq::<char>::empty(),
            c.network.key@ == Seq::<char>::empty(),
            c.state@ == Seq::<char>::empty(),
    {
        NetworkConfig { network: NetworkConnection { network: String::new(), key: String::new() }, state: String::new() }
    }
}

/// Settings of the external connections.
#[derive(Debug)]
pub struct ConnectionConfig {
    pub mqtt_config: MqttConfig,
}

impl ConnectionConfig {
    /// A copy of these settings.
    pub fn duplicate(&self) -> (c: ConnectionConfig)
        ensures
            c.mqtt_config@ == self.mqtt_config@,
    {
        ConnectionConfig { mqtt_config: self.mqtt_config.duplicate() }
    }
}

impl Default for ConnectionConfig {
    fn default() -> (c: Self)
        ensures
            c.mqtt_config@ == crate::mqtt::config::default_mqtt_view(),
    {
        ConnectionConfig { mqtt_config: MqttConfig::default() }
    }
}

/// Keyboard mapping tables and name, as values.
pub struct KeyboardContent {
    pub buttons: Seq<Option<KeyCode>>,
    pub letters: Seq<Option<(KeyCode, String, String)>>,
    pub modifiers: Seq<Option<KeyModifiers>>,
    pub name: Seq<char>,
}

/// The tables and name of a keyboard configuration.
pub open spec fn keyboard_content(c: KeyboardConfig) -> KeyboardContent {
    KeyboardContent {
        buttons: c.button_mapping@,
        letters: c.joystick_mapping@,
        modifiers: c.modifier_mapping@,
        name: c.name@,
    }
}

/// ELRS mapping tables, name and channel range, as values.
pub struct ElrsContent {
    pub joysticks: Seq<Option<(ELRSChannel, ELRSChannel)>>,
    pub triggers: Seq<Option<ELRSChannel>>,
    pub buttons: Seq<Option<(ELRSChannel, u16, u16)>>,
    pub inversion: Seq<Option<bool>>,
    pub failsafe: Seq<Option<u16>>,
    pub name: Seq<char>,
    pub range: (u16, u16, u16),
}

/// The tables, name and channel range of an ELRS configuration.
pub open spec fn elrs_content(c: ELRSConfig) -> ElrsContent {
    ElrsContent {
        joysticks: c.joystick_mapping@,
        triggers: c.trigger_mapping@,
        buttons: c.button_mapping@,
        inversion: c.invert_channel@,
        failsafe: c.failsafe_values@,
        name: c.name@,
        range: (c.channel_min, c.channel_max, c.channel_mid),
    }
}

/// Settings of the controller mappings.
pub struct ControllerConfig {
    pub keyboard_mapping: KeyboardConfig,
    pub elrs_mapping: ELRSConfig,
}

/// Controller mapping settings as values.
pub struct ControllerContent {
    pub keyboard: KeyboardContent,
    pub elrs: ElrsContent,
}

/// The contents of controller mapping settings.
pub open spec fn controller_content(c: ControllerConfig) -> ControllerContent {
    ControllerContent { keyboard: keyboard_content(c.keyboard_mapping), elrs: elrs_content(c.elrs_mapping) }
}

impl ControllerConfig {
    /// A copy of these settings.
    pub fn duplicate(&self) -> (c: ControllerConfig)
        ensures
            controller_content(c) == controller_content(*self),
    {
        ControllerConfig { keyboard_mapping: self.keyboard_mapping.duplicate(), elrs_mapping: self.elrs_mapping.duplicate() }
    }
}

impl Default for ControllerConfig {
    fn default() -> (c: Self)
        ensures
            c.keyboard_mapping.wf(),
            c.keyboard_mapping.has_no_button_keys(),
            c.elrs_mapping.wf(),
            c.elrs_mapping.has_no_joysticks(),
    {
        ControllerConfig { keyboard_mapping: KeyboardConfig::default(), elrs_mapping: ELRSConfig::default() }
    }
}

/// Messages the user saved.
pub struct SavedMessages {
    pub msg: Vec<MQTTMessage>,
}

impl SavedMessages {
    /// A copy of the saved messages.
    pub fn duplicate(&self) -> (c: SavedMessages)
        ensures
            messages_view(c.msg@) == messages_view(self.msg@),
    {
        SavedMessages { msg: copy_messages(&self.msg) }
    }
}

impl Default for SavedMessages {
    fn default() -> (c: Self)
        ensures
            c.msg@.len() == 0,
    {
        SavedMessages { msg: Vec::new() }
    }
}

/// Session metadata as values.
pub struct SessionView {
    pub session_name: Seq<char>,
    pub last_session: Option<Seq<char>>,
    pub path: Seq<char>,
    pub available_sessions: Seq<(Seq<char>, Seq<char>)>,
}

/// Known sessions and their directories, as values.
pub open spec fn sessions_view(s: Seq<(String, String)>) -> Seq<(Seq<char>, Seq<char>)> {
    s.map_values(|p: (String, String)| (p.0@, p.1@))
}

/// An optional text as a value.
pub open spec fn opt_text(o: Option<String>) -> Option<Seq<char>> {
    match o {
        Some(s) => Some(s@),
        None => None,
    }
}

/// A copy of an optional text.
pub fn copy_opt_text(o: &Option<String>) -> (r: Option<String>)
    ensures
        opt_text(r) == opt_text(*o),
{
    match o {
        Some(s) => Some(s.clone()),
        None => None,
    }
}

/// A copy of the known sessions.
pub fn copy_sessions(v: &Vec<(String, String)>) -> (r: Vec<(String, String)>)
    ensures
        sessions_view(r@) == sessions_view(v@),
{
    let mut r: Vec<(String, String)> = Vec::new();
    for i in 0..v.len()
        invariant
            i <= v@.len(),
            sessions_view(r@) == sessions_view(v@.take(i as int)),
    {
        let ghost before = r@;
        let entry = (v[i].0.clone(), v[i].1.clone());
        r.push(entry);
        proof {
            assert(sessions_view(r@) =~= sessions_view(before).push((v@[i as int].0@, v@[i as int].1@)));
            assert(v@.take(i + 1) =~= v@.take(i as int).push(v@[i as int]));
            assert(sessions_view(v@.take(i + 1)) =~= sessions_view(v@.take(i as int)).push((v@[i as int].0@, v@[i as int].1@)));
        }
    }
    assert(v@.take(v@.len() as int) =~= v@);
    r
}

/// Metadata of a session: its name, the session before it, its directory, and the
/// sessions known with their directories (each name once).
#[derive(Debug)]
pub struct SessionConfig {
    pub session_name: String,
    pub last_session: Option<String>,
    pub path: String,
    pub available_sessions: Vec<(String, String)>,
}

impl View for SessionConfig {
    type V = SessionView;

    open spec fn view(&self) -> SessionView {
        SessionView {
            session_name: self.session_name@,
            last_session: opt_text(self.last_session),
            path: self.path@,
            available_sessions: sessions_view(self.available_sessions@),
        }
    }
}

impl SessionConfig {
    /// A copy of this metadata.
    pub fn duplicate(&self) -> (c: SessionConfig)
        ensures
            c@ == self@,
    {
        SessionConfig {
            session_name: self.session_name.clone(),
            last_session: copy_opt_text(&self.last_session),
            path: self.path.clone(),
            available_sessions: copy_sessions(&self.available_sessions),
        }
    }
}

impl Default for SessionConfig {
    fn default() -> (c: Self)
        ensures
            c@ == (SessionView {
                session_name: Seq::empty(),
                last_session: None,
                path: Seq::empty(),
                available_sessions: Seq::empty(),
            }),
    {
        let c = SessionConfig {
            session_name: String::new(),
            last_session: None,
            path: String::new(),
            available_sessions: Vec::new(),
        };
        assert(c@.available_sessions =~= Seq::<(Seq<char>, Seq<char>)>::empty());
        c
    }
}

/// Messages as values, for the saved-message section.
pub open spec fn saved_view(s: SavedMessages) -> Seq<(Seq<char>, Seq<char>, i64)> {
    messages_view(s.msg@)
}

/// The connection section as values.
pub open spec fn connection_view(c: ConnectionConfig) -> MqttConfigView {
    c.mqtt_config@
}

} // verus!
