//! State of the main menu: the current session, the name typed for a new one,
//! the session before it, the last error, and the sessions known.

use vstd::prelude::*;
use vstd::string::*;

use crate::mqtt::config::strings_view;
use crate::persistence::{copy_opt_text, opt_text, sessions_view, SessionConfig};

verus! {

/// What the main menu shows and asks for.
pub struct MainMenuData {
    pub current_session_name: String,
    pub new_session_name: String,
    pub previous_session: Option<String>,
    pub session_load_error: Option<String>,
    pub available_sessions: Vec<String>,
}

/// The names of the known sessions, in order.
pub open spec fn session_names(s: Seq<(Seq<char>, Seq<char>)>) -> Seq<Seq<char>> {
    s.map_values(|p: (Seq<char>, Seq<char>)| p.0)
}

/// Names of known sessions.
fn names_of(sessions: &Vec<(String, String)>) -> (names: Vec<String>)
    ensures
        strings_view(names@) == session_names(sessions_view(sessions@)),
{
    let mut names: Vec<String> = Vec::new();
    for i in 0..sessions.len()
        invariant
            i <= sessions@.len(),
            strings_view(names@) == session_names(sessions_view(sessions@.take(i as int))),
    {
        let ghost before = names@;
        names.push(sessions[i].0.clone());
        proof {
            assert(strings_view(names@) =~= strings_view(before).push(sessions@[i as int].0@));
            assert(sessions@.take(i + 1) =~= sessions@.take(i as int).push(sessions@[i as int]));
            assert(session_names(sessions_view(sessions@.take(i + 1))) =~= session_names(sessions_view(sessions@.take(i as int))).push(sessions@[i as int].0@));
        }
    }
    assert(sessions@.take(sessions@.len() as int) =~= sessions@);
    names
}

/// How the session is shown in the list: `Session: ` and its name.
pub open spec fn session_label(name: Seq<char>) -> Seq<char> {
    "Session: "@ + name
}

impl MainMenuData {
    /// The menu for the session metadata in the store: its name, the session
    /// before it, and the names of the sessions known; nothing typed, no error.
    pub fn new(session: &SessionConfig) -> (d: MainMenuData)
        ensures
            d.current_session_name@ == session.session_name@,
            opt_text(d.previous_session) == opt_text(session.last_session),
            d.new_session_name@ == Seq::<char>::empty(),
            d.session_load_error is None,
            strings_view(d.available_sessions@) == session_names(sessions_view(session.available_sessions@)),
    {
        MainMenuData {
            current_session_name: session.session_name.clone(),
            previous_session: copy_opt_text(&session.last_session),
            new_session_name: String::new(),
            available_sessions: names_of(&session.available_sessions),
            session_load_error: None,
        }
    }

    /// The "Save" button: asks to create a session under the typed name; with no
    /// name typed, nothing is asked and the menu shows an error instead.
    pub fn create_session(&mut self) -> (request: Option<String>)
        ensures
            old(self).new_session_name@.len() == 0 ==> request is None
                && opt_text(final(self).session_load_error) == Some("Session name cannot be empty"@),
            old(self).new_session_name@.len() > 0 ==> (request matches Some(n) && n@ == old(self).new_session_name@)
                && opt_text(final(self).session_load_error) == opt_text(old(self).session_load_error),
            final(self).current_session_name == old(self).current_session_name,
    {
        let name = self.new_session_name.clone();
        if name.as_str().is_empty() {
            self.session_load_error = Some(String::from_str("Session name cannot be empty"));
            None
        } else {
            Some(name)
        }
    }

    /// Clicking a session: it becomes current and the current one becomes the one
    /// before it; the session is to be loaded.
    pub fn change_session(&mut self, name: String) -> (request: String)
        ensures
            opt_text(final(self).previous_session) == Some(old(self).current_session_name@),
            final(self).current_session_name@ == name@,
            request@ == name@,
    {
        self.previous_session = Some(self.current_session_name.clone());
        let request = name.clone();
        self.current_session_name = name;
        request
    }

    /// A fresh list of sessions: the names replace the ones shown.
    pub fn set_sessions(&mut self, names: Vec<String>)
        ensures
            final(self).available_sessions == names,
            final(self).current_session_name == old(self).current_session_name,
    {
        self.available_sessions = names;
    }

    /// How a session is shown in the list.
    pub fn label(name: &str) -> (s: String)
        ensures
            s@ == session_label(name@),
    {
        let mut s = String::from_str("Session: ");
        s.append(name);
        s
    }
}

} // verus!
