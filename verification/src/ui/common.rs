//! Types shared by the menus: the menu being shown, MQTT servers, WiFi networks and
//! the colour palette.

use vstd::prelude::*;
use vstd::string::*;

verus! {

/// The menu being shown.
#[derive(Clone, Copy, Debug, PartialEq, Eq, Structural)]
pub enum MenuState {
    Main,
    MQTT,
    ELRS,
    Settings,
}

/// An MQTT server as plain values.
pub struct ServerView {
    pub url: Seq<char>,
    pub user: Seq<char>,
    pub pw: Seq<char>,
    pub connected: bool,
}

/// An MQTT broker the user can connect to.
#[derive(Debug)]
pub struct MQTTServer {
    pub url: String,
    pub user: String,
    pub pw: String,
    pub connected: bool,
}

impl View for MQTTServer {
    type V = ServerView;

    open spec fn view(&self) -> ServerView {
        ServerView { url: self.url@, user: self.user@, pw: self.pw@, connected: self.connected }
    }
}

/// How a server is shown: user, `@`, URL.
pub open spec fn server_label(s: ServerView) -> Seq<char> {
    s.user + "@"@ + s.url
}

impl MQTTServer {
    /// A server with empty address and credentials, not connected.
    pub fn empty() -> (s: MQTTServer)
        ensures
            s@ == (ServerView { url: Seq::empty(), user: Seq::empty(), pw: Seq::empty(), connected: false }),
    {
        MQTTServer { url: String::new(), user: String::new(), pw: String::new(), connected: false }
    }

    /// How the server is shown: user, `@`, URL.
    pub fn label(&self) -> (s: String)
        ensures
            s@ == server_label(self@),
    {
        let mut s = self.user.clone();
        s.append("@");
        s.append(self.url.as_str());
        s
    }

    /// A copy of this server.
    pub fn duplicate(&self) -> (s: MQTTServer)
        ensures
            s@ == self@,
    {
        MQTTServer { url: self.url.clone(), user: self.user.clone(), pw: self.pw.clone(), connected: self.connected }
    }

    /// Whether two servers are the same in every field.
    pub fn same_as(&self, other: &MQTTServer) -> (b: bool)
        ensures
            b == (self@ == other@),
    {
        self.url == other.url && self.user == other.user && self.pw == other.pw && self.connected == other.connected
    }
}

/// Servers as plain values.
pub open spec fn servers_view(s: Seq<MQTTServer>) -> Seq<ServerView> {
    s.map_values(|x: MQTTServer| x@)
}

/// A copy of a list of servers.
pub fn copy_servers(v: &Vec<MQTTServer>) -> (r: Vec<MQTTServer>)
    ensures
        servers_view(r@) == servers_view(v@),
{
    let mut r: Vec<MQTTServer> = Vec::new();
    for i in 0..v.len()
        invariant
            i <= v@.len(),
            servers_view(r@) == servers_view(v@.take(i as int)),
    {
        let ghost before = r@;
        r.push(v[i].duplicate());
        proof {
            assert(servers_view(r@) =~= servers_view(before).push(v@[i as int]@));
            assert(v@.take(i + 1) =~= v@.take(i as int).push(v@[i as int]));
            assert(servers_view(v@.take(i + 1)) =~= servers_view(v@.take(i as int)).push(v@[i as int]@));
        }
    }
    assert(v@.take(v@.len() as int) =~= v@);
    r
}

/// Whether two lists of servers are the same, server by server.
pub fn servers_equal(a: &Vec<MQTTServer>, b: &Vec<MQTTServer>) -> (eq: bool)
    ensures
        eq == (servers_view(a@) == servers_view(b@)),
{
    if a.len() != b.len() {
        proof {
            if servers_view(a@) == servers_view(b@) {
                assert(servers_view(a@).len() == a@.len());
            }
        }
        return false;
    }
    for i in 0..a.len()
        invariant
            a@.len() == b@.len(),
            forall|k: int| 0 <= k < i ==> (#[trigger] a@[k])@ == b@[k]@,
    {
        if !a[i].same_as(&b[i]) {
            proof {
                assert(servers_view(a@)[i as int] != servers_view(b@)[i as int]);
            }
            return false;
        }
    }
    assert(servers_view(a@) =~= servers_view(b@));
    true
}

/// A WiFi network and its password.
#[derive(Debug)]
pub struct WiFiNetwork {
    pub ssid: String,
    pub pw: String,
}

impl WiFiNetwork {
    /// A network with the given name and password.
    pub fn new(ssid: String, pw: String) -> (n: WiFiNetwork)
        ensures
            n.ssid == ssid,
            n.pw == pw,
    {
        WiFiNetwork { ssid, pw }
    }

    /// How the network is shown: its name.
    pub fn label(&self) -> (s: String)
        ensures
            s@ == self.ssid@,
    {
        self.ssid.clone()
    }

    /// A copy of this network.
    pub fn duplicate(&self) -> (n: WiFiNetwork)
        ensures
            n.ssid@ == self.ssid@,
            n.pw@ == self.pw@,
    {
        WiFiNetwork { ssid: self.ssid.clone(), pw: self.pw.clone() }
    }
}

/// An MQTT topic.
#[derive(Debug)]
pub struct MQTTTopic {
    pub name: String,
}

impl MQTTTopic {
    /// The topic with the given name.
    pub fn from_string(name: String) -> (t: MQTTTopic)
        ensures
            t.name == name,
    {
        MQTTTopic { name }
    }

    /// How the topic is shown: its name.
    pub fn label(&self) -> (s: String)
        ensures
            s@ == self.name@,
    {
        self.name.clone()
    }
}

/// Where the last session was loaded from.
pub struct SessionData {
    pub last_session_path: String,
}

/// The colour palette of the UI, as RGB triples.
pub struct UiColors;

impl UiColors {
    /// Main background.
    pub fn main_bg() -> (c: (u8, u8, u8))
        ensures
            c == (30u8, 30u8, 30u8),
    {
        (30, 30, 30)
    }

    /// Background of inner panels.
    pub fn inner_bg() -> (c: (u8, u8, u8))
        ensures
            c == (25u8, 25u8, 25u8),
    {
        (25, 25, 25)
    }

    /// Darkest background.
    pub fn extreme_bg() -> (c: (u8, u8, u8))
        ensures
            c == (20u8, 20u8, 20u8),
    {
        (20, 20, 20)
    }

    /// Borders.
    pub fn border() -> (c: (u8, u8, u8))
        ensures
            c == (60u8, 60u8, 60u8),
    {
        (60, 60, 60)
    }

    /// Something active or connected.
    pub fn active() -> (c: (u8, u8, u8))
        ensures
            c == (50u8, 200u8, 20u8),
    {
        (50, 200, 20)
    }

    /// Something inactive or disconnected.
    pub fn inactive() -> (c: (u8, u8, u8))
        ensures
            c == (200u8, 50u8, 20u8),
    {
        (200, 50, 20)
    }

    /// Colour of a connection indicator: active when connected, inactive otherwise.
    pub fn status(connected: bool) -> (c: (u8, u8, u8))
        ensures
            connected ==> c == (50u8, 200u8, 20u8),
            !connected ==> c == (200u8, 50u8, 20u8),
    {
        if connected { UiColors::active() } else { UiColors::inactive() }
    }
}

} // verus!
