//! Decisions of the MQTT connection: the broker address and port read from the
//! server URL, which subscriptions change when the settings change, how long a
//! processing cycle lasts, what the connection counts, and which received
//! payloads become messages.

use vstd::prelude::*;
use vstd::string::*;
use vstd::utf8::*;

use super::config::{contains_string, copy_strings, default_mqtt_view, strings_view, MqttConfig, MqttConfigView};
use super::message_manager::MQTTMessage;

verus! {

/// States of the connection's processing cycle.
#[derive(Clone, Copy, Debug, PartialEq, Eq, Structural)]
pub enum MQTTState {
    Initializing,
    Configured,
    Processing,
}

/// Where the connection's processing cycle stands.
pub struct MqttCycle {
    state: MQTTState,
}

impl MqttCycle {
    /// Stage of the cycle.
    pub closed spec fn spec_state(&self) -> MQTTState {
        self.state
    }

    /// A connection being set up.
    pub fn new() -> (c: MqttCycle)
        ensures
            c.spec_state() == MQTTState::Initializing,
    {
        MqttCycle { state: MQTTState::Initializing }
    }

    /// Stage of the cycle.
    pub fn state(&self) -> (s: MQTTState)
        ensures
            s == self.spec_state(),
    {
        self.state
    }

    /// The stored topics were subscribed to.
    pub fn configured(&mut self)
        requires
            old(self).spec_state() == MQTTState::Initializing,
        ensures
            final(self).spec_state() == MQTTState::Configured,
    {
        self.state = MQTTState::Configured;
    }

    /// Changed settings were taken over; messages are processed.
    pub fn activated(&mut self)
        requires
            old(self).spec_state() == MQTTState::Configured,
        ensures
            final(self).spec_state() == MQTTState::Processing,
    {
        self.state = MQTTState::Processing;
    }

    /// A processing cycle ended; the settings are looked at again next.
    pub fn cycle_done(&mut self)
        requires
            old(self).spec_state() == MQTTState::Processing,
        ensures
            final(self).spec_state() == MQTTState::Configured,
    {
        self.state = MQTTState::Configured;
    }
}

/// State of the link to the broker.
#[derive(Clone, Copy, Debug, PartialEq, Eq, Structural)]
pub enum ConnectionState {
    Disconnected,
    Connecting,
    Connected,
    Failed,
    Reconnecting,
}

impl Default for ConnectionState {
    fn default() -> (s: Self)
        ensures
            s == ConnectionState::Disconnected,
    {
        ConnectionState::Disconnected
    }
}

/// Port used when the URL names none, or names one that does not parse.
pub const DEFAULT_MQTT_PORT: u16 = 1883;

/// Value of a sequence of decimal digits.
pub open spec fn digits_value(s: Seq<char>) -> int
    decreases s.len(),
{
    if s.len() == 0 {
        0
    } else {
        digits_value(s.drop_last()) * 10 + (s.last() as int - '0' as int)
    }
}

/// Every character is a decimal digit.
pub open spec fn all_digits(s: Seq<char>) -> bool {
    forall|i: int| 0 <= i < s.len() ==> '0' <= #[trigger] s[i] <= '9'
}

/// A port number written in decimal: an optional `+`, then at least one digit,
/// with a value that fits in 16 bits.
pub open spec fn spec_parse_port(s: Seq<char>) -> Option<u16> {
    let d = if s.len() > 0 && s[0] == '+' { s.drop_first() } else { s };
    if d.len() > 0 && all_digits(d) && digits_value(d) <= u16::MAX {
        Some(digits_value(d) as u16)
    } else {
        None
    }
}

proof fn lemma_digits_value_nonneg(s: Seq<char>)
    requires
        all_digits(s),
    ensures
        digits_value(s) >= 0,
    decreases s.len(),
{
    if s.len() > 0 {
        lemma_digits_value_nonneg(s.drop_last());
    }
}

/// Reads a port number written in decimal, with an optional `+`.
pub fn parse_port(s: &str) -> (r: Option<u16>)
    ensures
        r == spec_parse_port(s@),
{
    let n = s.unicode_len();
    let mut start: usize = 0;
    if n > 0 && s.get_char(0) == '+' {
        start = 1;
    }
    let ghost d = if s@.len() > 0 && s@[0] == '+' { s@.drop_first() } else { s@ };
    assert(d =~= s@.subrange(start as int, n as int));
    if start >= n {
        return None;
    }
    let mut value: u32 = 0;
    let mut i: usize = start;
    while i < n
        invariant
            start <= i <= n,
            n == s@.len(),
            d == s@.subrange(start as int, n as int),
            d == (if s@.len() > 0 && s@[0] == '+' { s@.drop_first() } else { s@ }),
            all_digits(s@.subrange(start as int, i as int)),
            value as int == digits_value(s@.subrange(start as int, i as int)),
            value <= u16::MAX,
        decreases n - i,
    {
        let c = s.get_char(i);
        proof {
            assert(s@.subrange(start as int, i + 1).drop_last() =~= s@.subrange(start as int, i as int));
            assert(s@.subrange(start as int, i + 1).last() == c);
        }
        if c < '0' || c > '9' {
            proof {
                assert(d[i - start] == c);
            }
            return None;
        }
        let digit = (c as u32) - ('0' as u32);
        let next = value * 10 + digit;
        proof {
            assert forall|k: int| 0 <= k < s@.subrange(start as int, i + 1).len() implies '0' <= #[trigger] s@.subrange(start as int, i + 1)[k] <= '9' by {
                if k < i - start {
                    assert(s@.subrange(start as int, i + 1)[k] == s@.subrange(start as int, i as int)[k]);
                }
            }
        }
        proof {
            assert(next as int == digits_value(s@.subrange(start as int, i + 1)));
            assert(d.take((i + 1 - start) as int) =~= s@.subrange(start as int, i + 1));
        }
        if next > 65535 {
            proof {
                lemma_digits_prefix_bound(d, (i + 1 - start) as int);
            }
            return None;
        }
        value = next;
        i = i + 1;
    }
    assert(s@.subrange(start as int, n as int) == d);
    Some(value as u16)
}

/// A digit sequence is worth at least as much as any of its prefixes.
proof fn lemma_digits_prefix_bound(d: Seq<char>, k: int)
    requires
        0 <= k <= d.len(),
        all_digits(d.take(k)),
    ensures
        all_digits(d) ==> digits_value(d) >= digits_value(d.take(k)),
    decreases d.len() - k,
{
    if k < d.len() && all_digits(d) {
        assert(d.take(k + 1).drop_last() =~= d.take(k));
        assert forall|i: int| 0 <= i < d.take(k + 1).len() implies '0' <= #[trigger] d.take(k + 1)[i] <= '9' by {
            assert(d.take(k + 1)[i] == d[i]);
        }
        lemma_digits_value_nonneg(d.take(k));
        lemma_digits_prefix_bound(d, k + 1);
    } else if k == d.len() {
        assert(d.take(k) =~= d);
    }
}

/// Position of the first `:` in a text, if any.
pub open spec fn first_colon(s: Seq<char>) -> Option<int>
    decreases s.len(),
{
    if s.len() == 0 {
        None
    } else if s[0] == ':' {
        Some(0)
    } else {
        match first_colon(s.drop_first()) {
            Some(i) => Some(i + 1),
            None => None,
        }
    }
}

/// The host of a server URL: the text before the first `:`, or all of it.
pub open spec fn url_host(url: Seq<char>) -> Seq<char> {
    match first_colon(url) {
        Some(i) => url.take(i),
        None => url,
    }
}

/// The port of a server URL: the text between the first and the second `:` (or
/// the end) read as a port number; 1883 when there is no `:` or it does not parse.
pub open spec fn url_port(url: Seq<char>) -> u16 {
    match first_colon(url) {
        Some(i) => {
            let rest = url.skip(i + 1);
            let text = match first_colon(rest) {
                Some(j) => rest.take(j),
                None => rest,
            };
            match spec_parse_port(text) {
                Some(p) => p,
                None => 1883u16,
            }
        },
        None => 1883u16,
    }
}

proof fn lemma_first_colon_bounds(s: Seq<char>)
    ensures
        match first_colon(s) {
            Some(i) => 0 <= i < s.len() && s[i] == ':' && forall|k: int| 0 <= k < i ==> s[k] != ':',
            None => forall|k: int| 0 <= k < s.len() ==> s[k] != ':',
        },
    decreases s.len(),
{
    if s.len() > 0 && s[0] != ':' {
        lemma_first_colon_bounds(s.drop_first());
        match first_colon(s.drop_first()) {
            Some(i) => {
                assert forall|k: int| 0 <= k < i + 1 implies s[k] != ':' by {
                    if k > 0 { assert(s[k] == s.drop_first()[k - 1]); }
                }
            },
            None => {
                assert forall|k: int| 0 <= k < s.len() implies s[k] != ':' by {
                    if k > 0 { assert(s[k] == s.drop_first()[k - 1]); }
                }
            },
        }
    }
}

proof fn lemma_first_colon_at(s: Seq<char>, i: int)
    requires
        0 <= i < s.len(),
        s[i] == ':',
        forall|k: int| 0 <= k < i ==> s[k] != ':',
    ensures
        first_colon(s) == Some(i),
    decreases i,
{
    if i > 0 {
        lemma_first_colon_at(s.drop_first(), i - 1);
    }
}

proof fn lemma_first_colon_none(s: Seq<char>)
    requires
        forall|k: int| 0 <= k < s.len() ==> s[k] != ':',
    ensures
        first_colon(s) is None,
    decreases s.len(),
{
    if s.len() > 0 {
        lemma_first_colon_none(s.drop_first());
    }
}

/// Position of the first `:` at or after `from`, or the length.
fn find_colon(s: &str, from: usize) -> (i: usize)
    requires
        from <= s@.len(),
    ensures
        from <= i <= s@.len(),
        i < s@.len() ==> s@[i as int] == ':',
        forall|k: int| from <= k < i ==> s@[k] != ':',
{
    let n = s.unicode_len();
    let mut i = from;
    while i < n
        invariant
            from <= i <= n,
            n == s@.len(),
            forall|k: int| from <= k < i ==> s@[k] != ':',
        decreases n - i,
    {
        if s.get_char(i) == ':' {
            return i;
        }
        i = i + 1;
    }
    i
}

/// Host and port of a server URL: the host is the text before the first `:`, the
/// port the text after it up to the next `:`, read as a number; 1883 when there is
/// no port or it does not parse.
pub fn broker_address(url: &str) -> (r: (String, u16))
    ensures
        r.0@ == url_host(url@),
        r.1 == url_port(url@),
{
    let n = url.unicode_len();
    let c1 = find_colon(url, 0);
    proof {
        if c1 < n {
            lemma_first_colon_at(url@, c1 as int);
        } else {
            lemma_first_colon_none(url@);
        }
    }
    let host = url.substring_char(0, c1);
    let host_text = String::from_str(host);
    if c1 >= n {
        assert(url@.subrange(0, n as int) =~= url@);
        return (host_text, DEFAULT_MQTT_PORT);
    }
    assert(url@.take(c1 as int) =~= url@.subrange(0, c1 as int));
    let c2 = find_colon(url, c1 + 1);
    let port_text = url.substring_char(c1 + 1, c2);
    let ghost rest = url@.skip(c1 + 1);
    proof {
        if c2 < n {
            assert(rest[c2 - c1 - 1] == ':');
            assert forall|k: int| 0 <= k < c2 - c1 - 1 implies rest[k] != ':' by {
                assert(rest[k] == url@[k + c1 + 1]);
            }
            lemma_first_colon_at(rest, c2 - c1 - 1);
            assert(rest.take(c2 - c1 - 1) =~= url@.subrange(c1 + 1, c2 as int));
        } else {
            assert forall|k: int| 0 <= k < rest.len() implies rest[k] != ':' by {
                assert(rest[k] == url@[k + c1 + 1]);
            }
            lemma_first_colon_none(rest);
            assert(rest =~= url@.subrange(c1 + 1, c2 as int));
        }
    }
    let port = match parse_port(port_text) {
        Some(p) => p,
        None => DEFAULT_MQTT_PORT,
    };
    (host_text, port)
}

/// Topics of `new` that `old` does not hold, in the order of `new`.
pub open spec fn topics_added(old: Seq<Seq<char>>, new: Seq<Seq<char>>) -> Seq<Seq<char>> {
    new.filter(|t: Seq<char>| !old.contains(t))
}

/// The topics of `items` that `other` does not hold, in order.
fn topics_missing_from(items: &Vec<String>, other: &Vec<String>) -> (r: Vec<String>)
    ensures
        strings_view(r@) == topics_added(strings_view(other@), strings_view(items@)),
{
    let ghost pred = |t: Seq<char>| !strings_view(other@).contains(t);
    let mut r: Vec<String> = Vec::new();
    assert(strings_view(items@).take(0) =~= Seq::<Seq<char>>::empty());
    for i in 0..items.len()
        invariant
            pred == (|t: Seq<char>| !strings_view(other@).contains(t)),
            strings_view(r@) == strings_view(items@).take(i as int).filter(pred),
    {
        proof {
            assert(strings_view(items@).take(i + 1) =~= strings_view(items@).take(i as int).push(items@[i as int]@));
            strings_view(items@).take(i as int).lemma_filter_push(items@[i as int]@, pred);
        }
        if !contains_string(other, &items[i]) {
            let ghost before = r@;
            r.push(items[i].clone());
            assert(strings_view(r@) =~= strings_view(before).push(items@[i as int]@));
        }
    }
    assert(strings_view(items@).take(items@.len() as int) =~= strings_view(items@));
    r
}

/// What a connection does when it resumes processing with the settings read from
/// the configuration store.
pub struct ActivationPlan {
    /// Whether the broker changed, so that a new client is made for it.
    pub reconnect: bool,
    /// Topics to subscribe to.
    pub subscribe: Vec<String>,
    /// Topics to unsubscribe from.
    pub unsubscribe: Vec<String>,
    /// Settings the connection adopts, if any.
    pub adopt: Option<MqttConfig>,
}

/// Plans a resumption: the stored settings (the defaults when none could be read)
/// are ignored when they equal the defaults; otherwise they are adopted. When the
/// broker changed, the connection reconnects with a new client, which subscribes
/// to every topic of the new settings and has nothing to unsubscribe from; on the
/// same broker it subscribes to the topics that are new and unsubscribes from
/// those that are gone.
pub fn plan_activation(current: &MqttConfig, stored: Option<MqttConfig>) -> (p: ActivationPlan)
    ensures
        ({
            let target: MqttConfigView = match stored {
                Some(c) => c@,
                None => default_mqtt_view(),
            };
            &&& target == default_mqtt_view() ==> !p.reconnect && p.subscribe@.len() == 0
                && p.unsubscribe@.len() == 0 && p.adopt is None
            &&& target != default_mqtt_view() ==> p.reconnect == (current@.server != target.server)
                && (p.adopt matches Some(a) && a@ == target)
            &&& target != default_mqtt_view() && p.reconnect ==> strings_view(p.subscribe@) == target.subbed_topics
                && p.unsubscribe@.len() == 0
            &&& target != default_mqtt_view() && !p.reconnect ==> strings_view(p.subscribe@) == topics_added(
                current@.subbed_topics,
                target.subbed_topics,
            ) && strings_view(p.unsubscribe@) == topics_added(target.subbed_topics, current@.subbed_topics)
        }),
{
    let config = match stored {
        Some(c) => c,
        None => MqttConfig::default(),
    };
    if config.is_default() {
        return ActivationPlan { reconnect: false, subscribe: Vec::new(), unsubscribe: Vec::new(), adopt: None };
    }
    let reconnect = !current.server.same_as(&config.server);
    if reconnect {
        let subscribe = copy_strings(&config.subbed_topics);
        return ActivationPlan { reconnect, subscribe, unsubscribe: Vec::new(), adopt: Some(config) };
    }
    let subscribe = topics_missing_from(&config.subbed_topics, &current.subbed_topics);
    let unsubscribe = topics_missing_from(&current.subbed_topics, &config.subbed_topics);
    ActivationPlan { reconnect, subscribe, unsubscribe, adopt: Some(config) }
}

/// After a resumption, the topics subscribed to are exactly those of the new
/// settings: a topic stays subscribed when it was and is not unsubscribed, or when
/// it is newly subscribed.
pub proof fn law_subscriptions_follow_settings(old: Seq<Seq<char>>, new: Seq<Seq<char>>, t: Seq<char>)
    ensures
        ((old.contains(t) && !topics_added(new, old).contains(t)) || topics_added(old, new).contains(t))
            <==> new.contains(t),
{
    broadcast use vstd::seq_lib::group_filter_ensures;
    let keep_new = |x: Seq<char>| !old.contains(x);
    let keep_old = |x: Seq<char>| !new.contains(x);
    if new.contains(t) {
        if !old.contains(t) {
            let i = choose|i: int| 0 <= i < new.len() && new[i] == t;
            new.lemma_filter_contains(keep_new, i);
        } else {
            if topics_added(new, old).contains(t) {
                old.lemma_filter_contains_rev(keep_old, t);
                let j = choose|j: int| 0 <= j < old.filter(keep_old).len() && old.filter(keep_old)[j] == t;
                old.lemma_filter_pred(keep_old, j);
            }
        }
    } else {
        if topics_added(old, new).contains(t) {
            new.lemma_filter_contains_rev(keep_new, t);
        }
        if old.contains(t) {
            let i = choose|i: int| 0 <= i < old.len() && old[i] == t;
            old.lemma_filter_contains(keep_old, i);
        }
    }
}

/// Length in milliseconds of a processing cycle: 1000 divided by the number of
/// looks per second.
pub fn poll_interval_ms(poll_frequency: usize) -> (ms: u64)
    requires
        poll_frequency > 0,
    ensures
        ms == 1000int / (poll_frequency as int),
{
    if poll_frequency > 1000 {
        assert(1000int / (poll_frequency as int) == 0) by (nonlinear_arith)
            requires
                poll_frequency > 1000,
        ;
        0
    } else {
        1000 / (poll_frequency as u64)
    }
}

/// `std::str::from_utf8`: the text a byte string encodes when it is valid UTF-8.
#[verifier::external_body]
fn utf8_text(bytes: &[u8]) -> (r: Option<String>)
    ensures
        r is Some <==> valid_utf8(bytes@),
        r matches Some(s) ==> s@ == decode_utf8(bytes@),
{
    match std::str::from_utf8(bytes) {
        Ok(s) => Some(s.to_string()),
        Err(_) => None,
    }
}

/// The message for a payload received on a topic: a message dated now when the
/// payload is valid UTF-8, nothing otherwise.
pub fn incoming_message(topic: String, payload: &[u8]) -> (m: Option<MQTTMessage>)
    ensures
        m is Some <==> valid_utf8(payload@),
        m matches Some(msg) ==> msg.topic == topic && msg.content@ == decode_utf8(payload@),
{
    match utf8_text(payload) {
        Some(text) => Some(MQTTMessage::from_topic(topic, text)),
        None => None,
    }
}

/// What the connection counts: link state, errors, messages in and out, and the
/// local time of the last activity (nanoseconds since 1970-01-01 00:00:00).
pub struct MQTTStatus {
    pub connection_state: ConnectionState,
    pub error_messages: Vec<String>,
    pub messages_received: usize,
    pub messages_sent: usize,
    pub last_activity: Option<i64>,
}

impl MQTTStatus {
    /// Disconnected, with nothing counted.
    pub fn new() -> (s: MQTTStatus)
        ensures
            s.connection_state == ConnectionState::Disconnected,
            s.error_messages@.len() == 0,
            s.messages_received == 0,
            s.messages_sent == 0,
            s.last_activity is None,
    {
        MQTTStatus {
            connection_state: ConnectionState::Disconnected,
            error_messages: Vec::new(),
            messages_received: 0,
            messages_sent: 0,
            last_activity: None,
        }
    }

    /// Counts a message published, dated `at`.
    pub fn record_sent(&mut self, at: i64)
        requires
            old(self).messages_sent < usize::MAX,
        ensures
            final(self).messages_sent == old(self).messages_sent + 1,
            final(self).messages_received == old(self).messages_received,
            final(self).last_activity == Some(at),
            final(self).error_messages@ == old(self).error_messages@,
            final(self).connection_state == old(self).connection_state,
    {
        self.messages_sent = self.messages_sent + 1;
        self.last_activity = Some(at);
    }

    /// Counts a message received and passed on, dated `at`.
    pub fn record_received(&mut self, at: i64)
        requires
            old(self).messages_received < usize::MAX,
        ensures
            final(self).messages_received == old(self).messages_received + 1,
            final(self).messages_sent == old(self).messages_sent,
            final(self).last_activity == Some(at),
            final(self).error_messages@ == old(self).error_messages@,
            final(self).connection_state == old(self).connection_state,
    {
        self.messages_received = self.messages_received + 1;
        self.last_activity = Some(at);
    }

    /// Records an error: its kind (such as `Publish error`), `: `, and its detail.
    pub fn record_error(&mut self, kind: &str, detail: &str)
        ensures
            final(self).error_messages@.len() == old(self).error_messages@.len() + 1,
            forall|i: int| 0 <= i < old(self).error_messages@.len() ==> #[trigger] final(self).error_messages@[i] == old(self).error_messages@[i],
            final(self).error_messages@.last()@ == kind@ + ": "@ + detail@,
            final(self).messages_sent == old(self).messages_sent,
            final(self).messages_received == old(self).messages_received,
            final(self).last_activity == old(self).last_activity,
            final(self).connection_state == old(self).connection_state,
    {
        let mut text = String::from_str(kind);
        text.append(": ");
        text.append(detail);
        self.error_messages.push(text);
    }
}

/// What the connection does next.
#[derive(Clone, Copy, Debug, PartialEq, Eq, Structural)]
pub enum HandleStep {
    /// Resume with the stored settings, then run one processing cycle.
    RunCycle,
    /// Wait a second before looking at the switch again.
    Sleep,
}

/// The connection's on/off switch.
pub struct MQTTHandle {
    pub active: bool,
}

impl MQTTHandle {
    /// Reads the switch: when on, a processing cycle runs; when off, the
    /// connection waits.
    pub fn next_step(&mut self, switch_on: bool) -> (s: HandleStep)
        ensures
            final(self).active == switch_on,
            switch_on ==> s == HandleStep::RunCycle,
            !switch_on ==> s == HandleStep::Sleep,
    {
        self.active = switch_on;
        if self.active { HandleStep::RunCycle } else { HandleStep::Sleep }
    }
}

/// The topics an outgoing message is published to: it is broadcast to every
/// available topic.
pub fn publish_targets(config: &MqttConfig) -> (t: Vec<String>)
    ensures
        strings_view(t@) == config@.available_topics,
{
    copy_strings(&config.available_topics)
}

} // verus!
