//! State of the ELRS menu: the transmitter, the connection chosen among those
//! found, and whether the live link is on.

use vstd::prelude::*;
use vstd::string::*;

use crate::mqtt::config::{copy_strings, strings_view};

verus! {

/// What the ELRS menu shows and lets the user choose.
pub struct ELRSMenuData {
    pub transmitter_port: String,
    pub transmitter_connection: bool,
    pub connection: String,
    pub available_connections: Vec<String>,
    pub live_connect: bool,
}

impl ELRSMenuData {
    /// Placeholder data: transmitter on "Port Test 1", connected; connection
    /// "TestCon" chosen among "Test1" and "Test2"; live link off.
    pub fn mock_data() -> (d: ELRSMenuData)
        ensures
            d.transmitter_port@ == "Port Test 1"@,
            d.transmitter_connection,
            d.connection@ == "TestCon"@,
            strings_view(d.available_connections@) == seq!["Test1"@, "Test2"@],
            !d.live_connect,
    {
        let d = ELRSMenuData {
            transmitter_port: String::from_str("Port Test 1"),
            transmitter_connection: true,
            connection: String::from_str("TestCon"),
            available_connections: vec![String::from_str("Test1"), String::from_str("Test2")],
            live_connect: false,
        };
        assert(strings_view(d.available_connections@) =~= seq!["Test1"@, "Test2"@]);
        d
    }

    /// Nothing known: no transmitter, no connections, live link off.
    pub fn empty() -> (d: ELRSMenuData)
        ensures
            d.transmitter_port@ == Seq::<char>::empty(),
            !d.transmitter_connection,
            d.connection@ == Seq::<char>::empty(),
            d.available_connections@.len() == 0,
            !d.live_connect,
    {
        ELRSMenuData {
            transmitter_port: String::new(),
            transmitter_connection: false,
            connection: String::new(),
            available_connections: Vec::new(),
            live_connect: false,
        }
    }

    /// The "Live Connect" button: switches the live link.
    pub fn toggle_live(&mut self)
        ensures
            final(self).live_connect == !old(self).live_connect,
            final(self).connection == old(self).connection,
            final(self).transmitter_connection == old(self).transmitter_connection,
    {
        self.live_connect = !self.live_connect;
    }

    /// Label of the live link: "Live On" or "Live Off".
    pub fn live_status(&self) -> (s: &'static str)
        ensures
            self.live_connect ==> s@ == "Live On"@,
            !self.live_connect ==> s@ == "Live Off"@,
    {
        if self.live_connect { "Live On" } else { "Live Off" }
    }

    /// Header text about the transmitter.
    pub fn transmitter_status(&self) -> (s: &'static str)
        ensures
            self.transmitter_connection ==> s@ == "Transmitter Connected"@,
            !self.transmitter_connection ==> s@ == "No Transmitter found"@,
    {
        if self.transmitter_connection { "Transmitter Connected" } else { "No Transmitter found" }
    }

    /// Chooses the connection at a position of the list.
    pub fn select_connection(&mut self, index: usize)
        requires
            index < old(self).available_connections@.len(),
        ensures
            final(self).connection@ == old(self).available_connections@[index as int]@,
            strings_view(final(self).available_connections@) == strings_view(old(self).available_connections@),
            final(self).live_connect == old(self).live_connect,
    {
        self.connection = self.available_connections[index].clone();
    }

    /// The connections found, for display.
    pub fn connections(&self) -> (v: Vec<String>)
        ensures
            strings_view(v@) == strings_view(self.available_connections@),
    {
        copy_strings(&self.available_connections)
    }
}

} // verus!
