//! The configuration store: one value per section (session metadata, UI,
//! controller mappings, connections, saved messages), read and replaced through
//! actions, and the retry policy for reaching a section that is busy.

use vstd::prelude::*;
use vstd::string::*;

use crate::mapping::elrs::ELRSConfig;
use crate::mapping::keyboard::KeyboardConfig;
use crate::mqtt::config::{MqttConfig, MqttConfigView};
use crate::mqtt::message_manager::{copy_messages, messages_view, MQTTMessage};
use super::{
    controller_content, copy_opt_text, copy_sessions, elrs_content, keyboard_content, opt_text, saved_view,
    sessions_view, ConnectionConfig, ControllerConfig, ControllerContent, ElrsContent, KeyboardContent,
    SavedMessages, SessionConfig, SessionView, Theme, UIConfig,
};

verus! {

/// Errors of the configuration store.
#[derive(Clone, Debug, PartialEq, Eq)]
pub enum Error {
    /// A section stayed busy through every attempt.
    LockTimeout,
    SessionNotFound(String),
    InvalidOperation(String),
}

/// Text shown for a store error.
pub open spec fn error_text(e: Error) -> Seq<char> {
    match e {
        Error::LockTimeout => "Could not acquire lock after maximum retry attempts"@,
        Error::SessionNotFound(s) => "Session not found: "@ + s@,
        Error::InvalidOperation(s) => "Invalid operation: "@ + s@,
    }
}

impl Error {
    /// Text shown for this error.
    pub fn message(&self) -> (s: String)
        ensures
            s@ == error_text(*self),
    {
        match self {
            Error::LockTimeout => String::from_str("Could not acquire lock after maximum retry attempts"),
            Error::SessionNotFound(n) => {
                let mut s = String::from_str("Session not found: ");
                s.append(n.as_str());
                s
            },
            Error::InvalidOperation(n) => {
                let mut s = String::from_str("Invalid operation: ");
                s.append(n.as_str());
                s
            },
        }
    }
}

/// An operation on the store: `Get` actions read a section or one of its fields,
/// `Write` actions replace one.
pub enum PortalAction {
    GetSession,
    GetSessionName,
    GetLastSession,
    GetSessionPath,
    GetAvailableSessions,
    WriteSession(SessionConfig),
    WriteSessionName(String),
    WriteLastSession(Option<String>),
    WriteSessionPath(String),
    WriteAvailableSessions(Vec<(String, String)>),
    GetUIConfig,
    GetTheme,
    GetFps,
    WriteUIConfig(UIConfig),
    WriteTheme(Theme),
    WriteFps(u8),
    GetElrsConfig,
    GetKeyboardConfig,
    GetControllerConfig,
    WriteElrsConfig(ELRSConfig),
    WriteKeyboardConfig(KeyboardConfig),
    WriteControllerConfig(ControllerConfig),
    GetMqttConfig,
    GetConnectionConfig,
    WriteMqttConfig(MqttConfig),
    WriteConnectionConfig(ConnectionConfig),
    GetSavedMessagesMsg,
    GetSavedMessages,
    WriteSavedMessages(SavedMessages),
    WriteSavedMessagesMsg(Vec<MQTTMessage>),
}

/// An operation on the store, with its payload as a value.
pub enum ActionView {
    GetSession,
    GetSessionName,
    GetLastSession,
    GetSessionPath,
    GetAvailableSessions,
    WriteSession(SessionView),
    WriteSessionName(Seq<char>),
    WriteLastSession(Option<Seq<char>>),
    WriteSessionPath(Seq<char>),
    WriteAvailableSessions(Seq<(Seq<char>, Seq<char>)>),
    GetUIConfig,
    GetTheme,
    GetFps,
    WriteUIConfig(UIConfig),
    WriteTheme(Theme),
    WriteFps(u8),
    GetElrsConfig,
    GetKeyboardConfig,
    GetControllerConfig,
    WriteElrsConfig(ElrsContent),
    WriteKeyboardConfig(KeyboardContent),
    WriteControllerConfig(ControllerContent),
    GetMqttConfig,
    GetConnectionConfig,
    WriteMqttConfig(MqttConfigView),
    WriteConnectionConfig(MqttConfigView),
    GetSavedMessagesMsg,
    GetSavedMessages,
    WriteSavedMessages(Seq<(Seq<char>, Seq<char>, i64)>),
    WriteSavedMessagesMsg(Seq<(Seq<char>, Seq<char>, i64)>),
}

impl View for PortalAction {
    type V = ActionView;

    open spec fn view(&self) -> ActionView {
        match self {
            PortalAction::GetSession => ActionView::GetSession,
            PortalAction::GetSessionName => ActionView::GetSessionName,
            PortalAction::GetLastSession => ActionView::GetLastSession,
            PortalAction::GetSessionPath => ActionView::GetSessionPath,
            PortalAction::GetAvailableSessions => ActionView::GetAvailableSessions,
            PortalAction::WriteSession(x) => ActionView::WriteSession(x@),
            PortalAction::WriteSessionName(x) => ActionView::WriteSessionName(x@),
            PortalAction::WriteLastSession(x) => ActionView::WriteLastSession(opt_text(*x)),
            PortalAction::WriteSessionPath(x) => ActionView::WriteSessionPath(x@),
            PortalAction::WriteAvailableSessions(x) => ActionView::WriteAvailableSessions(sessions_view(x@)),
            PortalAction::GetUIConfig => ActionView::GetUIConfig,
            PortalAction::GetTheme => ActionView::GetTheme,
            PortalAction::GetFps => ActionView::GetFps,
            PortalAction::WriteUIConfig(x) => ActionView::WriteUIConfig(*x),
            PortalAction::WriteTheme(x) => ActionView::WriteTheme(*x),
            PortalAction::WriteFps(x) => ActionView::WriteFps(*x),
            PortalAction::GetElrsConfig => ActionView::GetElrsConfig,
            PortalAction::GetKeyboardConfig => ActionView::GetKeyboardConfig,
            PortalAction::GetControllerConfig => ActionView::GetControllerConfig,
            PortalAction::WriteElrsConfig(x) => ActionView::WriteElrsConfig(elrs_content(*x)),
            PortalAction::WriteKeyboardConfig(x) => ActionView::WriteKeyboardConfig(keyboard_content(*x)),
            PortalAction::WriteControllerConfig(x) => ActionView::WriteControllerConfig(controller_content(*x)),
            PortalAction::GetMqttConfig => ActionView::GetMqttConfig,
            PortalAction::GetConnectionConfig => ActionView::GetConnectionConfig,
            PortalAction::WriteMqttConfig(x) => ActionView::WriteMqttConfig(x@),
            PortalAction::WriteConnectionConfig(x) => ActionView::WriteConnectionConfig(x.mqtt_config@),
            PortalAction::GetSavedMessagesMsg => ActionView::GetSavedMessagesMsg,
            PortalAction::GetSavedMessages => ActionView::GetSavedMessages,
            PortalAction::WriteSavedMessages(x) => ActionView::WriteSavedMessages(saved_view(*x)),
            PortalAction::WriteSavedMessagesMsg(x) => ActionView::WriteSavedMessagesMsg(messages_view(x@)),
        }
    }
}

/// What an operation on the store gives back.
pub enum ConfigResult {
    Success,
    SessionConfig(SessionConfig),
    String(String),
    OptionString(Option<String>),
    PathBuf(String),
    AvailableSessions(Vec<(String, String)>),
    UIConfig(UIConfig),
    Theme(Theme),
    Fps(u8),
    ControllerConfig(ControllerConfig),
    ElrsConfig(ELRSConfig),
    KeyboardConfig(KeyboardConfig),
    ConnectionConfig(ConnectionConfig),
    MqttConfig(MqttConfig),
    MqttMessages(Vec<MQTTMessage>),
    MqttHistory(SavedMessages),
    Failed(Error),
}

/// What an operation gives back, as a value.
pub enum ResultView {
    Success,
    SessionConfig(SessionView),
    String(Seq<char>),
    OptionString(Option<Seq<char>>),
    PathBuf(Seq<char>),
    AvailableSessions(Seq<(Seq<char>, Seq<char>)>),
    UIConfig(UIConfig),
    Theme(Theme),
    Fps(u8),
    ControllerConfig(ControllerContent),
    ElrsConfig(ElrsContent),
    KeyboardConfig(KeyboardContent),
    ConnectionConfig(MqttConfigView),
    MqttConfig(MqttConfigView),
    MqttMessages(Seq<(Seq<char>, Seq<char>, i64)>),
    MqttHistory(Seq<(Seq<char>, Seq<char>, i64)>),
    Failed(Error),
}

impl View for ConfigResult {
    type V = ResultView;

    open spec fn view(&self) -> ResultView {
        match self {
            ConfigResult::Success => ResultView::Success,
            ConfigResult::SessionConfig(x) => ResultView::SessionConfig(x@),
            ConfigResult::String(x) => ResultView::String(x@),
            ConfigResult::OptionString(x) => ResultView::OptionString(opt_text(*x)),
            ConfigResult::PathBuf(x) => ResultView::PathBuf(x@),
            ConfigResult::AvailableSessions(x) => ResultView::AvailableSessions(sessions_view(x@)),
            ConfigResult::UIConfig(x) => ResultView::UIConfig(*x),
            ConfigResult::Theme(x) => ResultView::Theme(*x),
            ConfigResult::Fps(x) => ResultView::Fps(*x),
            ConfigResult::ControllerConfig(x) => ResultView::ControllerConfig(controller_content(*x)),
            ConfigResult::ElrsConfig(x) => ResultView::ElrsConfig(elrs_content(*x)),
            ConfigResult::KeyboardConfig(x) => ResultView::KeyboardConfig(keyboard_content(*x)),
            ConfigResult::ConnectionConfig(x) => ResultView::ConnectionConfig(x.mqtt_config@),
            ConfigResult::MqttConfig(x) => ResultView::MqttConfig(x@),
            ConfigResult::MqttMessages(x) => ResultView::MqttMessages(messages_view(x@)),
            ConfigResult::MqttHistory(x) => ResultView::MqttHistory(saved_view(*x)),
            ConfigResult::Failed(x) => ResultView::Failed(*x),
        }
    }
}

/// The store's sections as values.
pub struct StoreView {
    pub session: SessionView,
    pub ui: UIConfig,
    pub controller: ControllerContent,
    pub connection: MqttConfigView,
    pub messages: Seq<(Seq<char>, Seq<char>, i64)>,
}

/// One operation on the store: the sections after it and what it gives back. A
/// read gives a copy of the section or field and changes nothing; a write
/// replaces the section or field, leaves everything else as it was, and gives
/// back success.
pub open spec fn portal_step(s: StoreView, a: ActionView) -> (StoreView, ResultView) {
    match a {
        ActionView::GetSession => (s, ResultView::SessionConfig(s.session)),
        ActionView::GetSessionName => (s, ResultView::String(s.session.session_name)),
        ActionView::GetLastSession => (s, ResultView::OptionString(s.session.last_session)),
        ActionView::GetSessionPath => (s, ResultView::PathBuf(s.session.path)),
        ActionView::GetAvailableSessions => (s, ResultView::AvailableSessions(s.session.available_sessions)),
        ActionView::WriteSession(v) => (StoreView { session: v, ..s }, ResultView::Success),
        ActionView::WriteSessionName(v) => (StoreView { session: SessionView { session_name: v, ..s.session }, ..s }, ResultView::Success),
        ActionView::WriteLastSession(v) => (StoreView { session: SessionView { last_session: v, ..s.session }, ..s }, ResultView::Success),
        ActionView::WriteSessionPath(v) => (StoreView { session: SessionView { path: v, ..s.session }, ..s }, ResultView::Success),
        ActionView::WriteAvailableSessions(v) => (StoreView { session: SessionView { available_sessions: v, ..s.session }, ..s }, ResultView::Success),
        ActionView::GetUIConfig => (s, ResultView::UIConfig(s.ui)),
        ActionView::GetTheme => (s, ResultView::Theme(s.ui.theme)),
        ActionView::GetFps => (s, ResultView::Fps(s.ui.fps)),
        ActionView::WriteUIConfig(v) => (StoreView { ui: v, ..s }, ResultView::Success),
        ActionView::WriteTheme(v) => (StoreView { ui: UIConfig { theme: v, ..s.ui }, ..s }, ResultView::Success),
        ActionView::WriteFps(v) => (StoreView { ui: UIConfig { fps: v, ..s.ui }, ..s }, ResultView::Success),
        ActionView::GetElrsConfig => (s, ResultView::ElrsConfig(s.controller.elrs)),
        ActionView::GetKeyboardConfig => (s, ResultView::KeyboardConfig(s.controller.keyboard)),
        ActionView::GetControllerConfig => (s, ResultView::ControllerConfig(s.controller)),
        ActionView::WriteElrsConfig(v) => (StoreView { controller: ControllerContent { elrs: v, ..s.controller }, ..s }, ResultView::Success),
        ActionView::WriteKeyboardConfig(v) => (StoreView { controller: ControllerContent { keyboard: v, ..s.controller }, ..s }, ResultView::Success),
        ActionView::WriteControllerConfig(v) => (StoreView { controller: v, ..s }, ResultView::Success),
        ActionView::GetMqttConfig => (s, ResultView::MqttConfig(s.connection)),
        ActionView::GetConnectionConfig => (s, ResultView::ConnectionConfig(s.connection)),
        ActionView::WriteMqttConfig(v) => (StoreView { connection: v, ..s }, ResultView::Success),
        ActionView::WriteConnectionConfig(v) => (StoreView { connection: v, ..s }, ResultView::Success),
        ActionView::GetSavedMessagesMsg => (s, ResultView::MqttMessages(s.messages)),
        ActionView::GetSavedMessages => (s, ResultView::MqttHistory(s.messages)),
        ActionView::WriteSavedMessages(v) => (StoreView { messages: v, ..s }, ResultView::Success),
        ActionView::WriteSavedMessagesMsg(v) => (StoreView { messages: v, ..s }, ResultView::Success),
    }
}

/// Every configuration section of a session, each kept as a value.
pub struct ConfigStore {
    pub session: SessionConfig,
    pub ui_config: UIConfig,
    pub controller_config: ControllerConfig,
    pub connection_config: ConnectionConfig,
    pub msg_save: SavedMessages,
}

impl View for ConfigStore {
    type V = StoreView;

    open spec fn view(&self) -> StoreView {
        StoreView {
            session: self.session@,
            ui: self.ui_config,
            controller: controller_content(self.controller_config),
            connection: self.connection_config.mqtt_config@,
            messages: saved_view(self.msg_save),
        }
    }
}

impl ConfigStore {
    /// A store holding the given sections.
    pub fn new(
        session: SessionConfig,
        ui_config: UIConfig,
        controller_config: ControllerConfig,
        connection_config: ConnectionConfig,
        msg_save: SavedMessages,
    ) -> (s: ConfigStore)
        ensures
            s.session == session,
            s.ui_config == ui_config,
            s.controller_config == controller_config,
            s.connection_config == connection_config,
            s.msg_save == msg_save,
    {
        ConfigStore { session, ui_config, controller_config, connection_config, msg_save }
    }

    /// Carries out one operation: a read gives back a copy of the section or field,
    /// a write replaces it and gives back success.
    pub fn execute_potal_action(&mut self, action: PortalAction) -> (r: ConfigResult)
        ensures
            (final(self)@, r@) == portal_step(old(self)@, action@),
    {
        match action {
            PortalAction::GetSession => ConfigResult::SessionConfig(self.session.duplicate()),
            PortalAction::GetSessionName => ConfigResult::String(self.session.session_name.clone()),
            PortalAction::GetLastSession => ConfigResult::OptionString(copy_opt_text(&self.session.last_session)),
            PortalAction::GetSessionPath => ConfigResult::PathBuf(self.session.path.clone()),
            PortalAction::GetAvailableSessions => ConfigResult::AvailableSessions(copy_sessions(&self.session.available_sessions)),
            PortalAction::WriteSession(v) => {
                self.session = v;
                ConfigResult::Success
            },
            PortalAction::WriteSessionName(v) => {
                self.session.session_name = v;
                ConfigResult::Success
            },
            PortalAction::WriteLastSession(v) => {
                self.session.last_session = v;
                ConfigResult::Success
            },
            PortalAction::WriteSessionPath(v) => {
                self.session.path = v;
                ConfigResult::Success
            },
            PortalAction::WriteAvailableSessions(v) => {
                self.session.available_sessions = v;
                ConfigResult::Success
            },
            PortalAction::GetUIConfig => ConfigResult::UIConfig(self.ui_config),
            PortalAction::GetTheme => ConfigResult::Theme(self.ui_config.theme),
            PortalAction::GetFps => ConfigResult::Fps(self.ui_config.fps),
            PortalAction::WriteUIConfig(v) => {
                self.ui_config = v;
                ConfigResult::Success
            },
            PortalAction::WriteTheme(v) => {
                self.ui_config.theme = v;
                ConfigResult::Success
            },
            PortalAction::WriteFps(v) => {
                self.ui_config.fps = v;
                ConfigResult::Success
            },
            PortalAction::GetElrsConfig => ConfigResult::ElrsConfig(self.controller_config.elrs_mapping.duplicate()),
            PortalAction::GetKeyboardConfig => ConfigResult::KeyboardConfig(self.controller_config.keyboard_mapping.duplicate()),
            PortalAction::GetControllerConfig => ConfigResult::ControllerConfig(self.controller_config.duplicate()),
            PortalAction::WriteElrsConfig(v) => {
                self.controller_config.elrs_mapping = v;
                ConfigResult::Success
            },
            PortalAction::WriteKeyboardConfig(v) => {
                self.controller_config.keyboard_mapping = v;
                ConfigResult::Success
            },
            PortalAction::WriteControllerConfig(v) => {
                self.controller_config = v;
                ConfigResult::Success
            },
            PortalAction::GetMqttConfig => ConfigResult::MqttConfig(self.connection_config.mqtt_config.duplicate()),
            PortalAction::GetConnectionConfig => ConfigResult::ConnectionConfig(self.connection_config.duplicate()),
            PortalAction::WriteMqttConfig(v) => {
                self.connection_config.mqtt_config = v;
                ConfigResult::Success
            },
            PortalAction::WriteConnectionConfig(v) => {
                self.connection_config = v;
                ConfigResult::Success
            },
            PortalAction::GetSavedMessagesMsg => ConfigResult::MqttMessages(copy_messages(&self.msg_save.msg)),
            PortalAction::GetSavedMessages => ConfigResult::MqttHistory(self.msg_save.duplicate()),
            PortalAction::WriteSavedMessages(v) => {
                self.msg_save = v;
                ConfigResult::Success
            },
            PortalAction::WriteSavedMessagesMsg(v) => {
                self.msg_save.msg = v;
                ConfigResult::Success
            },
        }
    }
}

/// Whether an operation replaces something.
pub open spec fn is_write(a: ActionView) -> bool {
    match a {
        ActionView::WriteSession(_) | ActionView::WriteSessionName(_) | ActionView::WriteLastSession(_)
        | ActionView::WriteSessionPath(_) | ActionView::WriteAvailableSessions(_) | ActionView::WriteUIConfig(_)
        | ActionView::WriteTheme(_) | ActionView::WriteFps(_) | ActionView::WriteElrsConfig(_)
        | ActionView::WriteKeyboardConfig(_) | ActionView::WriteControllerConfig(_) | ActionView::WriteMqttConfig(_)
        | ActionView::WriteConnectionConfig(_) | ActionView::WriteSavedMessages(_)
        | ActionView::WriteSavedMessagesMsg(_) => true,
        _ => false,
    }
}

/// The read that gives back what a write replaced, and what it then gives.
pub open spec fn read_back(a: ActionView) -> (ActionView, ResultView) {
    match a {
        ActionView::WriteSession(v) => (ActionView::GetSession, ResultView::SessionConfig(v)),
        ActionView::WriteSessionName(v) => (ActionView::GetSessionName, ResultView::String(v)),
        ActionView::WriteLastSession(v) => (ActionView::GetLastSession, ResultView::OptionString(v)),
        ActionView::WriteSessionPath(v) => (ActionView::GetSessionPath, ResultView::PathBuf(v)),
        ActionView::WriteAvailableSessions(v) => (ActionView::GetAvailableSessions, ResultView::AvailableSessions(v)),
        ActionView::WriteUIConfig(v) => (ActionView::GetUIConfig, ResultView::UIConfig(v)),
        ActionView::WriteTheme(v) => (ActionView::GetTheme, ResultView::Theme(v)),
        ActionView::WriteFps(v) => (ActionView::GetFps, ResultView::Fps(v)),
        ActionView::WriteElrsConfig(v) => (ActionView::GetElrsConfig, ResultView::ElrsConfig(v)),
        ActionView::WriteKeyboardConfig(v) => (ActionView::GetKeyboardConfig, ResultView::KeyboardConfig(v)),
        ActionView::WriteControllerConfig(v) => (ActionView::GetControllerConfig, ResultView::ControllerConfig(v)),
        ActionView::WriteMqttConfig(v) => (ActionView::GetMqttConfig, ResultView::MqttConfig(v)),
        ActionView::WriteConnectionConfig(v) => (ActionView::GetConnectionConfig, ResultView::ConnectionConfig(v)),
        ActionView::WriteSavedMessages(v) => (ActionView::GetSavedMessages, ResultView::MqttHistory(v)),
        ActionView::WriteSavedMessagesMsg(v) => (ActionView::GetSavedMessagesMsg, ResultView::MqttMessages(v)),
        _ => (a, ResultView::Success),
    }
}

/// Sections of the store.
pub enum Section {
    Session,
    Ui,
    Controller,
    Connection,
    Messages,
}

/// The section an operation touches.
pub open spec fn section_of(a: ActionView) -> Section {
    match a {
        ActionView::GetSession | ActionView::GetSessionName | ActionView::GetLastSession | ActionView::GetSessionPath
        | ActionView::GetAvailableSessions | ActionView::WriteSession(_) | ActionView::WriteSessionName(_)
        | ActionView::WriteLastSession(_) | ActionView::WriteSessionPath(_) | ActionView::WriteAvailableSessions(_) => Section::Session,
        ActionView::GetUIConfig | ActionView::GetTheme | ActionView::GetFps | ActionView::WriteUIConfig(_)
        | ActionView::WriteTheme(_) | ActionView::WriteFps(_) => Section::Ui,
        ActionView::GetElrsConfig | ActionView::GetKeyboardConfig | ActionView::GetControllerConfig
        | ActionView::WriteElrsConfig(_) | ActionView::WriteKeyboardConfig(_) | ActionView::WriteControllerConfig(_) => Section::Controller,
        ActionView::GetMqttConfig | ActionView::GetConnectionConfig | ActionView::WriteMqttConfig(_)
        | ActionView::WriteConnectionConfig(_) => Section::Connection,
        _ => Section::Messages,
    }
}

/// After a write, the read of what it replaced gives back the written value.
pub proof fn law_read_after_write(s: StoreView, a: ActionView)
    requires
        is_write(a),
    ensures
        portal_step(portal_step(s, a).0, read_back(a).0).1 == read_back(a).1,
{
}

/// Reads change nothing.
pub proof fn law_reads_change_nothing(s: StoreView, a: ActionView)
    requires
        !is_write(a),
    ensures
        portal_step(s, a).0 == s,
{
}

/// A write changes only the section it is addressed to.
pub proof fn law_write_keeps_other_sections(s: StoreView, a: ActionView)
    ensures
        !(section_of(a) is Session) ==> portal_step(s, a).0.session == s.session,
        !(section_of(a) is Ui) ==> portal_step(s, a).0.ui == s.ui,
        !(section_of(a) is Controller) ==> portal_step(s, a).0.controller == s.controller,
        !(section_of(a) is Connection) ==> portal_step(s, a).0.connection == s.connection,
        !(section_of(a) is Messages) ==> portal_step(s, a).0.messages == s.messages,
{
}

/// Attempts at reaching a busy section before giving up.
pub const MAX_LOCK_ATTEMPTS: usize = 5;

/// Attempts made so far at reaching a busy section.
pub struct LockRetry {
    attempts: usize,
}

impl LockRetry {
    /// Attempts made so far.
    pub closed spec fn spec_attempts(&self) -> usize {
        self.attempts
    }

    /// No attempt made yet.
    pub fn new() -> (r: LockRetry)
        ensures
            r.spec_attempts() == 0,
    {
        LockRetry { attempts: 0 }
    }

    /// Counts an attempt that found the section busy; says whether to give up
    /// (after the fifth such attempt) rather than wait 10 ms and try again.
    pub fn record_blocked(&mut self) -> (give_up: bool)
        requires
            old(self).spec_attempts() < MAX_LOCK_ATTEMPTS,
        ensures
            final(self).spec_attempts() == old(self).spec_attempts() + 1,
            give_up == (final(self).spec_attempts() >= MAX_LOCK_ATTEMPTS),
    {
        self.attempts = self.attempts + 1;
        self.attempts >= MAX_LOCK_ATTEMPTS
    }
}

/// What an operation gives back when its section stayed busy.
pub fn timeout_result() -> (r: ConfigResult)
    ensures
        r@ == ResultView::Failed(Error::LockTimeout),
{
    ConfigResult::Failed(Error::LockTimeout)
}

} // verus!
