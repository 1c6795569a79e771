//! The application frame around the menus: which menu is shown and the status line.

use vstd::prelude::*;
use vstd::string::*;

use super::common::MenuState;

verus! {

/// The frame's state: the menu shown and the battery levels (percent) of the
/// controller and the computer.
pub struct Navigation {
    pub menu_state: MenuState,
    pub bat_controller: usize,
    pub bat_pc: usize,
}

impl Navigation {
    /// The main menu is shown; battery levels are not known yet.
    pub fn new() -> (n: Navigation)
        ensures
            n.menu_state == MenuState::Main,
            n.bat_controller == 0,
            n.bat_pc == 0,
    {
        Navigation { menu_state: MenuState::Main, bat_controller: 0, bat_pc: 0 }
    }

    /// A button of the top bar: its menu is shown.
    pub fn select(&mut self, menu: MenuState)
        ensures
            final(self).menu_state == menu,
            final(self).bat_controller == old(self).bat_controller,
            final(self).bat_pc == old(self).bat_pc,
    {
        self.menu_state = menu;
    }
}

/// The network part of the status line: the network's name, a space, and a green
/// or red dot for connected or not.
pub open spec fn network_status_text(name: Seq<char>, connected: bool) -> Seq<char> {
    name + " "@ + if connected { "🟢"@ } else { "🔴"@ }
}

/// The network part of the status line.
pub fn network_status(name: &str, connected: bool) -> (s: String)
    ensures
        s@ == network_status_text(name@, connected),
{
    let mut s = String::from_str(name);
    s.append(" ");
    if connected {
        s.append("🟢");
    } else {
        s.append("🔴");
    }
    s
}

} // verus!
