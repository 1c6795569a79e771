//! MQTT messages: topic, content and the local date and time they were made, and
//! how they are shown.

use vstd::prelude::*;
use vstd::string::*;

verus! {

/// Text of a local date and time given as nanoseconds since 1970-01-01 00:00:00
/// (read as if it were UTC), in the form `YYYY-MM-DD HH:MM:SS` with the fraction
/// of a second where there is one.
pub uninterp spec fn naive_datetime_text(nanos: i64) -> Seq<char>;

/// `chrono`'s `DateTime::from_timestamp_nanos(nanos).naive_utc()` shown with
/// `Display` (via `to_string`): the date and time `nanos` nanoseconds after
/// 1970-01-01 00:00:00. The contract only names the text; its form is chrono's.
#[verifier::external_body]
fn timestamp_text(nanos: i64) -> (s: String)
    ensures
        s@ == naive_datetime_text(nanos),
{
    chrono::DateTime::from_timestamp_nanos(nanos).naive_utc().to_string()
}


/// An MQTT message.
#[derive(Debug)]
pub struct MQTTMessage {
    pub topic: String,
    pub content: String,
    /// Local date and time the message was made, as nanoseconds since
    /// 1970-01-01 00:00:00.
    pub timestamp: i64,
}

/// How a message is shown in full: date and time, topic, then the content on a
/// line of its own.
pub open spec fn message_render(m: MQTTMessage) -> Seq<char> {
    naive_datetime_text(m.timestamp) + ": "@ + m.topic@ + "\n"@ + m.content@
}

/// The start of a content for a short label: the whole content up to 10
/// characters, otherwise its first 11 characters.
pub open spec fn content_preview(content: Seq<char>) -> Seq<char> {
    if content.len() <= 10 {
        content
    } else {
        content.take(11)
    }
}

/// How a message is shown in a list: date and time, ` - `, the start of the content.
pub open spec fn message_label(m: MQTTMessage) -> Seq<char> {
    naive_datetime_text(m.timestamp) + " - "@ + content_preview(m.content@)
}

impl MQTTMessage {
    /// An empty message dated 1970-01-01 00:00:00.
    pub fn empty() -> (m: MQTTMessage)
        ensures
            m.topic@ == Seq::<char>::empty(),
            m.content@ == Seq::<char>::empty(),
            m.timestamp == 0,
    {
        MQTTMessage { topic: String::new(), content: String::new(), timestamp: 0 }
    }

    /// A message on `topic` with `content`, dated now; where the date cannot be
    /// given in nanoseconds, it is dated 1970-01-01 00:00:00.
    pub fn from_topic(topic: String, content: String) -> (m: MQTTMessage)
        ensures
            m.topic == topic,
            m.content == content,
    {
        let timestamp = match crate::clock::local_now() {
            Some((utc, offset)) => match crate::clock::local_wall_nanos(utc, offset) {
                Some(n) => n,
                None => 0,
            },
            None => 0,
        };
        MQTTMessage { topic, content, timestamp }
    }

    /// The message in full: date and time, topic, then the content on its own line.
    pub fn render(&self) -> (s: String)
        ensures
            s@ == message_render(*self),
    {
        let date = timestamp_text(self.timestamp);
        self.render_dated(date.as_str())
    }

    /// The message in full with its date and time already written out: the date,
    /// `: `, the topic, a line break, the content.
    pub fn render_dated(&self, date: &str) -> (s: String)
        ensures
            s@ == date@ + ": "@ + self.topic@ + "\n"@ + self.content@,
    {
        let mut s = String::from_str(date);
        s.append(": ");
        s.append(self.topic.as_str());
        s.append("\n");
        s.append(self.content.as_str());
        s
    }

    /// The message in a list: date and time, ` - `, then the content, cut to its
    /// first 11 characters when longer than 10 characters.
    pub fn label(&self) -> (s: String)
        ensures
            s@ == message_label(*self),
    {
        let date = timestamp_text(self.timestamp);
        self.label_dated(date.as_str())
    }

    /// The message in a list with its date and time already written out: the date,
    /// ` - `, then the start of the content.
    pub fn label_dated(&self, date: &str) -> (s: String)
        ensures
            s@ == date@ + " - "@ + content_preview(self.content@),
    {
        let mut s = String::from_str(date);
        s.append(" - ");
        let content = self.content.as_str();
        let n = content.unicode_len();
        if n > 10 {
            let head = content.substring_char(0, 11);
            assert(head@ =~= self.content@.take(11));
            s.append(head);
        } else {
            s.append(content);
        }
        s
    }

    /// A copy of this message.
    pub fn duplicate(&self) -> (m: MQTTMessage)
        ensures
            m.topic@ == self.topic@,
            m.content@ == self.content@,
            m.timestamp == self.timestamp,
    {
        MQTTMessage { topic: self.topic.clone(), content: self.content.clone(), timestamp: self.timestamp }
    }
}

/// A message as plain values: topic, content, date and time.
pub open spec fn message_view(m: MQTTMessage) -> (Seq<char>, Seq<char>, i64) {
    (m.topic@, m.content@, m.timestamp)
}

/// Messages as plain values.
pub open spec fn messages_view(s: Seq<MQTTMessage>) -> Seq<(Seq<char>, Seq<char>, i64)> {
    s.map_values(|m: MQTTMessage| message_view(m))
}

/// A copy of a list of messages.
pub fn copy_messages(v: &Vec<MQTTMessage>) -> (r: Vec<MQTTMessage>)
    ensures
        messages_view(r@) == messages_view(v@),
{
    let mut r: Vec<MQTTMessage> = Vec::new();
    for i in 0..v.len()
        invariant
            i <= v@.len(),
            messages_view(r@) == messages_view(v@.take(i as int)),
    {
        let ghost before = r@;
        r.push(v[i].duplicate());
        proof {
            assert(messages_view(r@) =~= messages_view(before).push(message_view(v@[i as int])));
            assert(v@.take(i + 1) =~= v@.take(i as int).push(v@[i as int]));
            assert(messages_view(v@.take(i + 1)) =~= messages_view(v@.take(i as int)).push(message_view(v@[i as int])));
        }
    }
    assert(v@.take(v@.len() as int) =~= v@);
    r
}

} // verus!
