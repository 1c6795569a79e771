//! MQTT settings: the broker in use, the brokers and topics known, the topics
//! subscribed to, and how often the connection looks for new settings.

use vstd::prelude::*;
use vstd::string::*;

use crate::ui::common::{copy_servers, servers_equal, servers_view, MQTTServer, ServerView};

verus! {

/// Strings as plain values.
pub open spec fn strings_view(s: Seq<String>) -> Seq<Seq<char>> {
    s.map_values(|x: String| x@)
}

/// A copy of a list of strings.
pub fn copy_strings(v: &Vec<String>) -> (r: Vec<String>)
    ensures
        strings_view(r@) == strings_view(v@),
{
    let mut r: Vec<String> = Vec::new();
    for i in 0..v.len()
        invariant
            i <= v@.len(),
            strings_view(r@) == strings_view(v@.take(i as int)),
    {
        let ghost before = r@;
        r.push(v[i].clone());
        proof {
            assert(strings_view(r@) =~= strings_view(before).push(v@[i as int]@));
            assert(v@.take(i + 1) =~= v@.take(i as int).push(v@[i as int]));
            assert(strings_view(v@.take(i + 1)) =~= strings_view(v@.take(i as int)).push(v@[i as int]@));
        }
    }
    assert(v@.take(v@.len() as int) =~= v@);
    r
}

/// Whether a list of strings holds `s`.
pub fn contains_string(v: &Vec<String>, s: &String) -> (b: bool)
    ensures
        b == strings_view(v@).contains(s@),
{
    for i in 0..v.len()
        invariant
            forall|k: int| 0 <= k < i ==> (#[trigger] v@[k])@ != s@,
    {
        if v[i] == *s {
            assert(strings_view(v@)[i as int] == s@);
            return true;
        }
    }
    proof {
        if strings_view(v@).contains(s@) {
            let k = choose|k: int| 0 <= k < strings_view(v@).len() && strings_view(v@)[k] == s@;
            assert(v@[k]@ == s@);
        }
    }
    false
}

/// Whether two lists of strings are the same, string by string.
pub fn strings_equal(a: &Vec<String>, b: &Vec<String>) -> (eq: bool)
    ensures
        eq == (strings_view(a@) == strings_view(b@)),
{
    if a.len() != b.len() {
        proof {
            if strings_view(a@) == strings_view(b@) {
                assert(strings_view(a@).len() == a@.len());
            }
        }
        return false;
    }
    for i in 0..a.len()
        invariant
            a@.len() == b@.len(),
            forall|k: int| 0 <= k < i ==> (#[trigger] a@[k])@ == b@[k]@,
    {
        if a[i] != b[i] {
            proof {
                assert(strings_view(a@)[i as int] != strings_view(b@)[i as int]);
            }
            return false;
        }
    }
    assert(strings_view(a@) =~= strings_view(b@));
    true
}

/// MQTT settings as plain values.
pub struct MqttConfigView {
    pub available_topics: Seq<Seq<char>>,
    pub subbed_topics: Seq<Seq<char>>,
    pub server: ServerView,
    pub available_servers: Seq<ServerView>,
    pub poll_frequency: usize,
}

/// MQTT settings.
#[derive(Debug)]
pub struct MqttConfig {
    /// Topics the user knows of.
    pub available_topics: Vec<String>,
    /// Topics subscribed to.
    pub subbed_topics: Vec<String>,
    /// The broker in use.
    pub server: MQTTServer,
    /// Brokers the user knows of.
    pub available_servers: Vec<MQTTServer>,
    /// How many times per second the connection looks for new settings.
    pub poll_frequency: usize,
}

impl View for MqttConfig {
    type V = MqttConfigView;

    open spec fn view(&self) -> MqttConfigView {
        MqttConfigView {
            available_topics: strings_view(self.available_topics@),
            subbed_topics: strings_view(self.subbed_topics@),
            server: self.server@,
            available_servers: servers_view(self.available_servers@),
            poll_frequency: self.poll_frequency,
        }
    }
}

/// The default settings: no topics, no known brokers, an empty broker, ten looks
/// per second.
pub open spec fn default_mqtt_view() -> MqttConfigView {
    MqttConfigView {
        available_topics: Seq::empty(),
        subbed_topics: Seq::empty(),
        server: ServerView { url: Seq::empty(), user: Seq::empty(), pw: Seq::empty(), connected: false },
        available_servers: Seq::empty(),
        poll_frequency: 10,
    }
}

impl MqttConfig {
    /// Whether two settings are the same in every field.
    pub fn same_as(&self, other: &MqttConfig) -> (b: bool)
        ensures
            b == (self@ == other@),
    {
        strings_equal(&self.available_topics, &other.available_topics)
            && strings_equal(&self.subbed_topics, &other.subbed_topics)
            && self.server.same_as(&other.server)
            && servers_equal(&self.available_servers, &other.available_servers)
            && self.poll_frequency == other.poll_frequency
    }

    /// Whether these are the default settings.
    pub fn is_default(&self) -> (b: bool)
        ensures
            b == (self@ == default_mqtt_view()),
    {
        let d = MqttConfig::default();
        let b = self.same_as(&d);
        assert(strings_view(d.available_topics@) =~= Seq::<Seq<char>>::empty());
        assert(strings_view(d.subbed_topics@) =~= Seq::<Seq<char>>::empty());
        assert(servers_view(d.available_servers@) =~= Seq::<ServerView>::empty());
        b
    }

    /// A copy of these settings.
    pub fn duplicate(&self) -> (c: MqttConfig)
        ensures
            c@ == self@,
    {
        MqttConfig {
            available_topics: copy_strings(&self.available_topics),
            subbed_topics: copy_strings(&self.subbed_topics),
            server: self.server.duplicate(),
            available_servers: copy_servers(&self.available_servers),
            poll_frequency: self.poll_frequency,
        }
    }
}

impl Default for MqttConfig {
    fn default() -> (c: Self)
        ensures
            c@ == default_mqtt_view(),
    {
        let c = MqttConfig {
            poll_frequency: 10,
            available_topics: Vec::new(),
            subbed_topics: Vec::new(),
            server: MQTTServer::empty(),
            available_servers: Vec::new(),
        };
        assert(c@.available_topics =~= Seq::<Seq<char>>::empty());
        assert(c@.subbed_topics =~= Seq::<Seq<char>>::empty());
        assert(c@.available_servers =~= Seq::<ServerView>::empty());
        c
    }
}

} // verus!
