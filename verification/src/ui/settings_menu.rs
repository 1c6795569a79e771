//! State of the settings menu: the WiFi network in use, the one selected, the
//! networks found, and the screensaver delay.

use vstd::prelude::*;
use vstd::string::*;

use super::common::WiFiNetwork;

verus! {

/// What the settings menu shows and lets the user change.
pub struct SettingsMenuData {
    pub current_network: WiFiNetwork,
    pub selected_network: WiFiNetwork,
    pub available_networks: Vec<WiFiNetwork>,
    pub network_pw: String,
    pub connected: bool,
    /// Seconds before the screensaver starts, at most 3600.
    pub screensave: usize,
}

impl SettingsMenuData {
    /// Placeholder data: network "NetActive" (password "ddd") in use and selected,
    /// networks "Test1" ("123") and "Test2" ("321") found, not connected,
    /// screensaver after 300 seconds.
    pub fn mock_data() -> (d: SettingsMenuData)
        ensures
            d.current_network.ssid@ == "NetActive"@,
            d.current_network.pw@ == "ddd"@,
            d.selected_network.ssid@ == "NetActive"@,
            d.selected_network.pw@ == "ddd"@,
            d.available_networks@.len() == 2,
            d.available_networks@[0].ssid@ == "Test1"@ && d.available_networks@[0].pw@ == "123"@,
            d.available_networks@[1].ssid@ == "Test2"@ && d.available_networks@[1].pw@ == "321"@,
            d.network_pw@ == Seq::<char>::empty(),
            !d.connected,
            d.screensave == 300,
    {
        let active_net = WiFiNetwork::new(String::from_str("NetActive"), String::from_str("ddd"));
        let networks = vec![
            WiFiNetwork::new(String::from_str("Test1"), String::from_str("123")),
            WiFiNetwork::new(String::from_str("Test2"), String::from_str("321")),
        ];
        SettingsMenuData {
            current_network: active_net.duplicate(),
            selected_network: active_net,
            available_networks: networks,
            network_pw: String::new(),
            connected: false,
            screensave: 300,
        }
    }

    /// Whether a network is connected.
    pub fn is_connected(&self) -> (b: bool)
        ensures
            b == self.connected,
    {
        self.connected
    }

    /// Name of the network in use.
    pub fn get_network_name(&self) -> (s: String)
        ensures
            s@ == self.current_network.ssid@,
    {
        self.current_network.ssid.clone()
    }

    /// Selects the network at a position of the list.
    pub fn select_network(&mut self, index: usize)
        requires
            index < old(self).available_networks@.len(),
        ensures
            final(self).selected_network.ssid@ == old(self).available_networks@[index as int].ssid@,
            final(self).selected_network.pw@ == old(self).available_networks@[index as int].pw@,
            final(self).current_network == old(self).current_network,
            final(self).connected == old(self).connected,
    {
        self.selected_network = self.available_networks[index].duplicate();
    }

    /// The "Connect" button: the selected network becomes the one in use.
    pub fn connect(&mut self)
        ensures
            final(self).connected,
            final(self).current_network.ssid@ == old(self).selected_network.ssid@,
            final(self).current_network.pw@ == old(self).selected_network.pw@,
            final(self).selected_network == old(self).selected_network,
    {
        self.connected = true;
        self.current_network = self.selected_network.duplicate();
    }

    /// Sets the screensaver delay, kept within 0 to 3600 seconds.
    pub fn set_screensave(&mut self, seconds: usize)
        ensures
            final(self).screensave == if seconds > 3600 { 3600 } else { seconds },
            final(self).connected == old(self).connected,
    {
        self.screensave = if seconds > 3600 { 3600 } else { seconds };
    }

    /// Text of the network selector: the selected network's name, or a prompt
    /// when it has none.
    pub fn selector_text(&self) -> (s: String)
        ensures
            self.selected_network.ssid@.len() == 0 ==> s@ == "Available Networks"@,
            self.selected_network.ssid@.len() > 0 ==> s@ == self.selected_network.ssid@,
    {
        let name = self.selected_network.label();
        if name.as_str().is_empty() {
            String::from_str("Available Networks")
        } else {
            name
        }
    }
}

} // verus!
