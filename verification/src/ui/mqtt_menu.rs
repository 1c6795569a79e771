//! State and decisions of the MQTT menu: choosing and adding brokers, choosing,
//! subscribing and adding topics, composing, saving and receiving messages.

use vstd::prelude::*;
use vstd::string::*;

use crate::mqtt::config::{copy_strings, strings_view, MqttConfig, MqttConfigView};
use crate::mqtt::message_manager::{copy_messages, message_view, messages_view, MQTTMessage};
use super::common::{copy_servers, servers_view, MQTTServer, ServerView, UiColors};

verus! {

/// What the MQTT menu shows and lets the user edit.
pub struct MQTTMenuData {
    pub active_server: MQTTServer,
    pub saved_servers: Vec<MQTTServer>,
    pub selected_topic: String,
    pub subscribed_topics: Vec<String>,
    pub available_topics: Vec<String>,
    pub message_history: Vec<MQTTMessage>,
    pub active_message: MQTTMessage,
    pub current_message: String,
    pub received_messages: Vec<MQTTMessage>,
    pub adding_server: bool,
    pub new_server_url: String,
    pub new_user: String,
    pub new_pw: String,
    pub adding_topic: bool,
    pub new_topic: String,
    pub response_trigger: bool,
}

/// Outcome of checking a new broker's fields.
#[derive(Clone, Copy, Debug, PartialEq, Eq, Structural)]
pub enum ServerCheck {
    BothEmpty,
    ServerEmpty,
    UserEmpty,
    Valid,
}

impl ServerCheck {
    /// Message shown for the outcome.
    pub fn message(&self) -> (s: &'static str)
        ensures
            *self == ServerCheck::BothEmpty ==> s@ == "Server and User empty!"@,
            *self == ServerCheck::ServerEmpty ==> s@ == "Server empty!"@,
            *self == ServerCheck::UserEmpty ==> s@ == "User empty!"@,
            *self == ServerCheck::Valid ==> s@ == "Saved!"@,
    {
        match self {
            ServerCheck::BothEmpty => "Server and User empty!",
            ServerCheck::ServerEmpty => "Server empty!",
            ServerCheck::UserEmpty => "User empty!",
            ServerCheck::Valid => "Saved!",
        }
    }
}

/// Position of the first occurrence of a topic, if any.
pub open spec fn topic_position(s: Seq<Seq<char>>, t: Seq<char>) -> Option<int>
    decreases s.len(),
{
    if s.len() == 0 {
        None
    } else if s[0] == t {
        Some(0)
    } else {
        match topic_position(s.drop_first(), t) {
            Some(i) => Some(i + 1),
            None => None,
        }
    }
}

/// The subscriptions after choosing a topic: no change when none is chosen; a
/// subscribed topic is unsubscribed (its first occurrence removed), another one is
/// subscribed (added last).
pub open spec fn topics_toggle(subscribed: Seq<Seq<char>>, selected: Seq<char>) -> Seq<Seq<char>> {
    if selected.len() == 0 {
        subscribed
    } else {
        match topic_position(subscribed, selected) {
            Some(i) => subscribed.remove(i),
            None => subscribed.push(selected),
        }
    }
}

proof fn lemma_topic_position(s: Seq<Seq<char>>, t: Seq<char>)
    ensures
        match topic_position(s, t) {
            Some(i) => 0 <= i < s.len() && s[i] == t && forall|k: int| 0 <= k < i ==> s[k] != t,
            None => forall|k: int| 0 <= k < s.len() ==> s[k] != t,
        },
    decreases s.len(),
{
    if s.len() > 0 && s[0] != t {
        lemma_topic_position(s.drop_first(), t);
        match topic_position(s.drop_first(), t) {
            Some(i) => {
                assert forall|k: int| 0 <= k < i + 1 implies s[k] != t by {
                    if k > 0 { assert(s[k] == s.drop_first()[k - 1]); }
                }
            },
            None => {
                assert forall|k: int| 0 <= k < s.len() implies s[k] != t by {
                    if k > 0 { assert(s[k] == s.drop_first()[k - 1]); }
                }
            },
        }
    }
}

proof fn lemma_topic_position_at(s: Seq<Seq<char>>, t: Seq<char>, i: int)
    requires
        0 <= i < s.len(),
        s[i] == t,
        forall|k: int| 0 <= k < i ==> s[k] != t,
    ensures
        topic_position(s, t) == Some(i),
    decreases i,
{
    if i > 0 {
        lemma_topic_position_at(s.drop_first(), t, i - 1);
    }
}

proof fn lemma_topic_position_none(s: Seq<Seq<char>>, t: Seq<char>)
    requires
        forall|k: int| 0 <= k < s.len() ==> s[k] != t,
    ensures
        topic_position(s, t) is None,
    decreases s.len(),
{
    if s.len() > 0 {
        lemma_topic_position_none(s.drop_first(), t);
    }
}

/// Choosing a topic that is not subscribed and then choosing it again leaves the
/// subscriptions as they were.
pub proof fn law_topic_toggle_twice_restores(subscribed: Seq<Seq<char>>, t: Seq<char>)
    requires
        t.len() > 0,
        !subscribed.contains(t),
    ensures
        topics_toggle(topics_toggle(subscribed, t), t) == subscribed,
{
    assert forall|k: int| 0 <= k < subscribed.len() implies subscribed[k] != t by {
        if subscribed[k] == t {
            assert(subscribed.contains(t));
        }
    }
    lemma_topic_position_none(subscribed, t);
    let once = subscribed.push(t);
    assert(topics_toggle(subscribed, t) == once);
    lemma_topic_position_at(once, t, subscribed.len() as int);
    assert(once.remove(subscribed.len() as int) =~= subscribed);
}

/// Choosing a subscribed topic unsubscribes only its first occurrence: the list
/// is one shorter, the topics before that occurrence stay where they were, and
/// those after it move up by one, in order.
pub proof fn law_topic_toggle_removes_one(subscribed: Seq<Seq<char>>, t: Seq<char>, i: int)
    requires
        t.len() > 0,
        0 <= i < subscribed.len(),
        subscribed[i] == t,
        forall|k: int| 0 <= k < i ==> subscribed[k] != t,
    ensures
        topics_toggle(subscribed, t).len() + 1 == subscribed.len(),
        forall|k: int| 0 <= k < i ==> #[trigger] topics_toggle(subscribed, t)[k] == subscribed[k],
        forall|k: int| i <= k < subscribed.len() - 1 ==> #[trigger] topics_toggle(subscribed, t)[k] == subscribed[k + 1],
{
    lemma_topic_position_at(subscribed, t, i);
}

/// Choosing a topic that is not subscribed subscribes it: it is added after the
/// subscribed topics, which all stay where they were.
pub proof fn law_topic_toggle_adds_last(subscribed: Seq<Seq<char>>, t: Seq<char>)
    requires
        t.len() > 0,
        !subscribed.contains(t),
    ensures
        topics_toggle(subscribed, t).len() == subscribed.len() + 1,
        topics_toggle(subscribed, t)[subscribed.len() as int] == t,
        forall|k: int| 0 <= k < subscribed.len() ==> #[trigger] topics_toggle(subscribed, t)[k] == subscribed[k],
{
    assert forall|k: int| 0 <= k < subscribed.len() implies subscribed[k] != t by {
        if subscribed[k] == t {
            assert(subscribed.contains(t));
        }
    }
    lemma_topic_position_none(subscribed, t);
}

/// Choosing nothing changes nothing.
pub proof fn law_topic_toggle_nothing_chosen(subscribed: Seq<Seq<char>>)
    ensures
        topics_toggle(subscribed, Seq::<char>::empty()) == subscribed,
{
}

impl MQTTMenuData {
    /// The menu for the stored settings and saved messages: broker, known brokers,
    /// subscribed and known topics from the settings; the first saved message is
    /// the active one (an empty message when none is saved); nothing typed.
    pub fn new(config: &MqttConfig, history: Vec<MQTTMessage>) -> (d: MQTTMenuData)
        ensures
            d.active_server@ == config.server@,
            servers_view(d.saved_servers@) == config@.available_servers,
            strings_view(d.subscribed_topics@) == config@.subbed_topics,
            strings_view(d.available_topics@) == config@.available_topics,
            messages_view(d.message_history@) == messages_view(history@),
            history@.len() > 0 ==> message_view(d.active_message) == message_view(history@[0]),
            history@.len() == 0 ==> message_view(d.active_message) == (Seq::<char>::empty(), Seq::<char>::empty(), 0i64),
            d.current_message@ == Seq::<char>::empty(),
            d.selected_topic@ == Seq::<char>::empty(),
            d.received_messages@.len() == 0,
            !d.adding_server && !d.adding_topic && !d.response_trigger,
    {
        let active_message = if history.len() > 0 { history[0].duplicate() } else { MQTTMessage::empty() };
        MQTTMenuData {
            active_server: config.server.duplicate(),
            saved_servers: copy_servers(&config.available_servers),
            subscribed_topics: copy_strings(&config.subbed_topics),
            available_topics: copy_strings(&config.available_topics),
            message_history: history,
            current_message: String::new(),
            received_messages: Vec::new(),
            adding_server: false,
            adding_topic: false,
            selected_topic: String::new(),
            active_message,
            new_pw: String::new(),
            new_server_url: String::new(),
            new_user: String::new(),
            new_topic: String::new(),
            response_trigger: false,
        }
    }

    /// Takes over the stored settings and saved messages before drawing.
    pub fn pre_update_config(&mut self, config: MqttConfig, history: Vec<MQTTMessage>)
        ensures
            final(self).active_server@ == config.server@,
            servers_view(final(self).saved_servers@) == config@.available_servers,
            strings_view(final(self).subscribed_topics@) == config@.subbed_topics,
            strings_view(final(self).available_topics@) == config@.available_topics,
            messages_view(final(self).message_history@) == messages_view(history@),
            final(self).current_message == old(self).current_message,
    {
        self.active_server = config.server;
        self.available_topics = config.available_topics;
        self.saved_servers = config.available_servers;
        self.subscribed_topics = config.subbed_topics;
        self.message_history = history;
    }

    /// The settings to store after drawing: the menu's broker, brokers and topics,
    /// ten looks per second.
    pub fn post_update_config(&self) -> (c: MqttConfig)
        ensures
            c@ == (MqttConfigView {
                available_topics: strings_view(self.available_topics@),
                subbed_topics: strings_view(self.subscribed_topics@),
                server: self.active_server@,
                available_servers: servers_view(self.saved_servers@),
                poll_frequency: 10,
            }),
    {
        MqttConfig {
            available_topics: copy_strings(&self.available_topics),
            subbed_topics: copy_strings(&self.subscribed_topics),
            server: self.active_server.duplicate(),
            available_servers: copy_servers(&self.saved_servers),
            poll_frequency: 10,
        }
    }

    /// Applies the chosen topic: a subscribed topic is unsubscribed, another one is
    /// subscribed; the choice is then cleared. Without a choice nothing happens.
    pub fn toggle_selected_topic(&mut self)
        ensures
            strings_view(final(self).subscribed_topics@) == topics_toggle(strings_view(old(self).subscribed_topics@), old(self).selected_topic@),
            old(self).selected_topic@.len() > 0 ==> final(self).selected_topic@ == Seq::<char>::empty(),
            old(self).selected_topic@.len() == 0 ==> final(self).selected_topic@ == old(self).selected_topic@,
            strings_view(final(self).available_topics@) == strings_view(old(self).available_topics@),
    {
        if self.selected_topic.as_str().is_empty() {
            return;
        }
        let ghost s = strings_view(self.subscribed_topics@);
        let ghost t = self.selected_topic@;
        proof {
            lemma_topic_position(s, t);
        }
        let mut i: usize = 0;
        while i < self.subscribed_topics.len()
            invariant
                s == strings_view(self.subscribed_topics@),
                t == self.selected_topic@,
                t.len() > 0,
                i <= self.subscribed_topics@.len(),
                forall|k: int| 0 <= k < i ==> s[k] != t,
                self.subscribed_topics == old(self).subscribed_topics,
                self.available_topics == old(self).available_topics,
                self.selected_topic == old(self).selected_topic,
            decreases self.subscribed_topics@.len() - i,
        {
            if self.subscribed_topics[i] == self.selected_topic {
                proof {
                    lemma_topic_position_at(s, t, i as int);
                }
                let ghost before = self.subscribed_topics@;
                self.subscribed_topics.remove(i);
                assert(strings_view(self.subscribed_topics@) =~= s.remove(i as int));
                self.selected_topic = String::new();
                return;
            }
            i = i + 1;
        }
        proof {
            lemma_topic_position_none(s, t);
        }
        let topic = self.selected_topic.clone();
        self.subscribed_topics.push(topic);
        assert(strings_view(self.subscribed_topics@) =~= s.push(t));
        self.selected_topic = String::new();
    }

    /// Checks the new broker's fields: URL and user must not be empty.
    pub fn check_new_server(&self) -> (c: ServerCheck)
        ensures
            c == match (self.new_server_url@.len() == 0, self.new_user@.len() == 0) {
                (true, true) => ServerCheck::BothEmpty,
                (true, false) => ServerCheck::ServerEmpty,
                (false, true) => ServerCheck::UserEmpty,
                (false, false) => ServerCheck::Valid,
            },
    {
        let no_url = self.new_server_url.as_str().is_empty();
        let no_user = self.new_user.as_str().is_empty();
        if no_url && no_user {
            ServerCheck::BothEmpty
        } else if no_url {
            ServerCheck::ServerEmpty
        } else if no_user {
            ServerCheck::UserEmpty
        } else {
            ServerCheck::Valid
        }
    }

    /// The "Save" button of the new-broker dialog: when URL and user are given, the
    /// broker (not connected) joins the known ones and the dialog closes; otherwise
    /// the dialog stays open and the check says what is missing.
    pub fn save_new_server(&mut self) -> (c: ServerCheck)
        ensures
            c == old(self).check_new_server_spec(),
            c == ServerCheck::Valid ==> servers_view(final(self).saved_servers@) == servers_view(old(self).saved_servers@).push(ServerView {
                url: old(self).new_server_url@,
                user: old(self).new_user@,
                pw: old(self).new_pw@,
                connected: false,
            }) && !final(self).adding_server && !final(self).response_trigger,
            c != ServerCheck::Valid ==> servers_view(final(self).saved_servers@) == servers_view(old(self).saved_servers@)
                && final(self).response_trigger && final(self).adding_server == old(self).adding_server,
    {
        self.response_trigger = true;
        let c = self.check_new_server();
        if c == ServerCheck::Valid {
            let server = MQTTServer {
                url: self.new_server_url.clone(),
                user: self.new_user.clone(),
                pw: self.new_pw.clone(),
                connected: false,
            };
            let ghost before = self.saved_servers@;
            self.saved_servers.push(server);
            assert(servers_view(self.saved_servers@) =~= servers_view(before).push(server@));
            self.response_trigger = false;
            self.adding_server = false;
        }
        c
    }

    /// The outcome `check_new_server` gives.
    pub open spec fn check_new_server_spec(&self) -> ServerCheck {
        match (self.new_server_url@.len() == 0, self.new_user@.len() == 0) {
            (true, true) => ServerCheck::BothEmpty,
            (true, false) => ServerCheck::ServerEmpty,
            (false, true) => ServerCheck::UserEmpty,
            (false, false) => ServerCheck::Valid,
        }
    }

    /// The "Save" button of the new-topic dialog: a non-empty topic joins the known
    /// topics. Gives back whether it did.
    pub fn add_topic(&mut self) -> (saved: bool)
        ensures
            saved == (old(self).new_topic@.len() > 0),
            saved ==> strings_view(final(self).available_topics@) == strings_view(old(self).available_topics@).push(old(self).new_topic@),
            !saved ==> strings_view(final(self).available_topics@) == strings_view(old(self).available_topics@),
            final(self).response_trigger,
    {
        self.response_trigger = true;
        if self.new_topic.as_str().is_empty() {
            false
        } else {
            let ghost before = self.available_topics@;
            let topic = self.new_topic.clone();
            self.available_topics.push(topic);
            assert(strings_view(self.available_topics@) =~= strings_view(before).push(self.new_topic@));
            true
        }
    }

    /// Message of the new-topic dialog: "No Topic" without a topic, "Saved" otherwise.
    pub fn topic_dialog_message(&self) -> (s: &'static str)
        ensures
            self.new_topic@.len() == 0 ==> s@ == "No Topic"@,
            self.new_topic@.len() > 0 ==> s@ == "Saved"@,
    {
        if self.new_topic.as_str().is_empty() { "No Topic" } else { "Saved" }
    }

    /// Choosing a saved message: it becomes the active one and its content the
    /// message being edited.
    pub fn select_history(&mut self, index: usize)
        requires
            index < old(self).message_history@.len(),
        ensures
            message_view(final(self).active_message) == message_view(old(self).message_history@[index as int]),
            final(self).current_message@ == old(self).message_history@[index as int].content@,
            messages_view(final(self).message_history@) == messages_view(old(self).message_history@),
    {
        self.active_message = self.message_history[index].duplicate();
        self.current_message = self.active_message.content.clone();
    }

    /// The message being edited, on topic "OpenController", dated now.
    pub fn draft_message(&self) -> (m: MQTTMessage)
        ensures
            m.topic@ == "OpenController"@,
            m.content@ == self.current_message@,
    {
        MQTTMessage::from_topic(String::from_str("OpenController"), self.current_message.clone())
    }

    /// Saves a message: it joins the saved messages, and the whole list is given
    /// back for storing.
    pub fn save_msg(&mut self, msg: MQTTMessage) -> (to_store: Vec<MQTTMessage>)
        ensures
            messages_view(final(self).message_history@) == messages_view(old(self).message_history@).push(message_view(msg)),
            messages_view(to_store@) == messages_view(final(self).message_history@),
    {
        let ghost before = self.message_history@;
        self.message_history.push(msg);
        assert(messages_view(self.message_history@) =~= messages_view(before).push(message_view(msg)));
        copy_messages(&self.message_history)
    }

    /// A message received: it joins the log.
    pub fn receive(&mut self, msg: MQTTMessage)
        ensures
            messages_view(final(self).received_messages@) == messages_view(old(self).received_messages@).push(message_view(msg)),
    {
        let ghost before = self.received_messages@;
        self.received_messages.push(msg);
        assert(messages_view(self.received_messages@) =~= messages_view(before).push(message_view(msg)));
    }

    /// Colour of the connection indicator.
    pub fn status_color(&self) -> (c: (u8, u8, u8))
        ensures
            self.active_server.connected ==> c == (50u8, 200u8, 20u8),
            !self.active_server.connected ==> c == (200u8, 50u8, 20u8),
    {
        UiColors::status(self.active_server.connected)
    }
}

} // verus!
