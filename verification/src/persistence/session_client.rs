//! Decisions of saving, loading and deleting sessions: where a session's files
//! lie, which session is current, which one takes over when the current one is
//! deleted, and how the list of known sessions changes.

use vstd::prelude::*;
use vstd::string::*;

use super::config_portal::{ConfigResult, ResultView};
use super::{copy_opt_text, opt_text, sessions_view};

verus! {

/// Directory of the sessions, below the home directory.
pub const CONFIG_DIR: &'static str = ".config/opencontroller/config";
/// File naming the current session, in the sessions directory.
pub const MAIN_CONFIG_FILE: &'static str = "main_config.toml";
/// UI settings file of a session.
pub const UI_CONFIG_FILE: &'static str = "ui_config.toml";
/// Connection settings file of a session.
pub const CONNECTION_CONFIG_FILE: &'static str = "connection_config.toml";
/// Controller mapping settings file of a session.
pub const CONTROLLER_CONFIG_FILE: &'static str = "controller_config.toml";
/// Saved messages file of a session.
pub const MESSAGES_FILE: &'static str = "saved_messages.toml";
/// Session metadata file of a session.
pub const SESSION_CONFIG_FILE: &'static str = "session.toml";

/// A path with one more component, as a Unix path buffer extends it: an absolute
/// component replaces the path; otherwise a `/` separates the two, unless the
/// path is empty or already ends with one.
pub open spec fn path_join(base: Seq<char>, part: Seq<char>) -> Seq<char> {
    if part.len() > 0 && part[0] == '/' {
        part
    } else if base.len() == 0 || base.last() == '/' {
        base + part
    } else {
        base + "/"@ + part
    }
}

/// Extends a path with one more component, as a Unix path buffer does.
pub fn join_path(base: &str, part: &str) -> (p: String)
    ensures
        p@ == path_join(base@, part@),
{
    let pn = part.unicode_len();
    if pn > 0 && part.get_char(0) == '/' {
        return String::from_str(part);
    }
    let bn = base.unicode_len();
    let mut p = String::from_str(base);
    if bn > 0 && base.get_char(bn - 1) != '/' {
        p.append("/");
    }
    p.append(part);
    p
}

/// `dirs::home_dir()`, as text (lossily where the path is not UTF-8). Which
/// directory comes back depends on the environment and is not stated. What is
/// stated: a directory that comes back is never empty text, as the crate's source
/// for Unix targets other than Redox (those this library is built for) hands out
/// `HOME` only when it is not empty and the password entry's directory only when
/// its bytes are not empty, and a lossy conversion keeps a path of at least one
/// byte at least one character long. The Redox and Windows branches of that source
/// do not themselves rule out an empty path.
#[verifier::external_body]
fn home_dir_text() -> (r: Option<String>)
    ensures
        r matches Some(d) ==> d@.len() > 0,
{
    dirs::home_dir().map(|p| p.to_string_lossy().into_owned())
}

/// The home directory, or `.` when it cannot be determined; never empty text.
pub fn get_home_dir() -> (h: String)
    ensures
        h@.len() > 0,
{
    let r = home_or_current(home_dir_text());
    proof {
        reveal_strlit(".");
    }
    r
}

/// The directory sessions live under: the home directory when it is known, the
/// current directory (`.`) otherwise.
pub fn home_or_current(home: Option<String>) -> (h: String)
    ensures
        match home {
            Some(d) => h@ == d@,
            None => h@ == "."@,
        },
{
    match home {
        Some(d) => d,
        None => String::from_str("."),
    }
}

/// Where a session's files lie, under a home directory.
pub struct SessionPaths {
    pub base: String,
    pub ui: String,
    pub session: String,
    pub connection: String,
    pub controller: String,
    pub messages: String,
    pub main_config: String,
}

/// Directory of a session: the sessions directory, then the session's name.
pub open spec fn session_dir(home: Seq<char>, name: Seq<char>) -> Seq<char> {
    path_join(path_join(home, CONFIG_DIR@), name)
}

/// Where the files of session `name` lie under `home`.
pub fn session_paths(home: &str, name: &str) -> (p: SessionPaths)
    ensures
        p.base@ == session_dir(home@, name@),
        p.ui@ == path_join(session_dir(home@, name@), UI_CONFIG_FILE@),
        p.session@ == path_join(session_dir(home@, name@), SESSION_CONFIG_FILE@),
        p.connection@ == path_join(session_dir(home@, name@), CONNECTION_CONFIG_FILE@),
        p.controller@ == path_join(session_dir(home@, name@), CONTROLLER_CONFIG_FILE@),
        p.messages@ == path_join(session_dir(home@, name@), MESSAGES_FILE@),
        p.main_config@ == path_join(path_join(home@, CONFIG_DIR@), MAIN_CONFIG_FILE@),
{
    let config_dir = join_path(home, CONFIG_DIR);
    let base = join_path(config_dir.as_str(), name);
    SessionPaths {
        ui: join_path(base.as_str(), UI_CONFIG_FILE),
        session: join_path(base.as_str(), SESSION_CONFIG_FILE),
        connection: join_path(base.as_str(), CONNECTION_CONFIG_FILE),
        controller: join_path(base.as_str(), CONTROLLER_CONFIG_FILE),
        messages: join_path(base.as_str(), MESSAGES_FILE),
        main_config: join_path(config_dir.as_str(), MAIN_CONFIG_FILE),
        base,
    }
}

/// No session name occurs twice.
pub open spec fn session_names_distinct(s: Seq<(Seq<char>, Seq<char>)>) -> bool {
    forall|i: int, j: int| 0 <= i < j < s.len() ==> (#[trigger] s[i]).0 != (#[trigger] s[j]).0
}

/// The directory recorded for a session name, if any.
pub open spec fn session_lookup(s: Seq<(Seq<char>, Seq<char>)>, name: Seq<char>) -> Option<Seq<char>> {
    if exists|i: int| 0 <= i < s.len() && (#[trigger] s[i]).0 == name {
        Some(s[choose|i: int| 0 <= i < s.len() && (#[trigger] s[i]).0 == name].1)
    } else {
        None
    }
}

/// The known sessions after recording `name` at `path`: an entry of that name
/// gets the new directory in place, otherwise the entry goes last.
pub open spec fn sessions_insert(s: Seq<(Seq<char>, Seq<char>)>, name: Seq<char>, path: Seq<char>) -> Seq<(Seq<char>, Seq<char>)> {
    if exists|i: int| 0 <= i < s.len() && (#[trigger] s[i]).0 == name {
        s.update(choose|i: int| 0 <= i < s.len() && (#[trigger] s[i]).0 == name, (name, path))
    } else {
        s.push((name, path))
    }
}

/// Records session `name` at `path` in the known sessions.
pub fn register_session(sessions: &mut Vec<(String, String)>, name: String, path: String)
    requires
        session_names_distinct(sessions_view(old(sessions)@)),
    ensures
        sessions_view(final(sessions)@) == sessions_insert(sessions_view(old(sessions)@), name@, path@),
        session_names_distinct(sessions_view(final(sessions)@)),
{
    let ghost s = sessions_view(sessions@);
    let mut i: usize = 0;
    while i < sessions.len()
        invariant
            s == sessions_view(sessions@),
            sessions@ == old(sessions)@,
            session_names_distinct(s),
            i <= sessions@.len(),
            forall|k: int| 0 <= k < i ==> (#[trigger] s[k]).0 != name@,
        decreases sessions@.len() - i,
    {
        if sessions[i].0 == name {
            proof {
                assert(s[i as int].0 == name@);
                let p = choose|k: int| 0 <= k < s.len() && (#[trigger] s[k]).0 == name@;
                assert(s[p].0 == name@);
                if p != i {
                    if p < i { assert(s[p].0 != s[i as int].0); } else { assert(s[i as int].0 != s[p].0); }
                }
            }
            sessions.set(i, (name, path));
            proof {
                let t = sessions_view(sessions@);
                assert(t =~= s.update(i as int, (name@, path@)));
                assert forall|a: int, b: int| 0 <= a < b < t.len() implies (#[trigger] t[a]).0 != (#[trigger] t[b]).0 by {
                    assert(t[a].0 == s[a].0 && t[b].0 == s[b].0);
                }
            }
            return;
        }
        i = i + 1;
    }
    sessions.push((name, path));
    proof {
        let t = sessions_view(sessions@);
        assert(t =~= s.push((name@, path@)));
        assert forall|a: int, b: int| 0 <= a < b < t.len() implies (#[trigger] t[a]).0 != (#[trigger] t[b]).0 by {
            if b == s.len() {
                assert(t[a] == s[a]);
            } else {
                assert(t[a] == s[a] && t[b] == s[b]);
            }
        }
    }
}

/// After recording a session, its name gives its new directory, and every other
/// name gives what it gave before.
pub proof fn law_session_registry_read_after_write(
    s: Seq<(Seq<char>, Seq<char>)>,
    name: Seq<char>,
    path: Seq<char>,
    other: Seq<char>,
)
    requires
        session_names_distinct(s),
        other != name,
    ensures
        session_lookup(sessions_insert(s, name, path), name) == Some(path),
        session_lookup(sessions_insert(s, name, path), other) == session_lookup(s, other),
{
    let t = sessions_insert(s, name, path);
    if exists|i: int| 0 <= i < s.len() && (#[trigger] s[i]).0 == name {
        let i = choose|i: int| 0 <= i < s.len() && (#[trigger] s[i]).0 == name;
        assert(t == s.update(i, (name, path)));
        assert(t[i].0 == name);
        let p = choose|k: int| 0 <= k < t.len() && (#[trigger] t[k]).0 == name;
        assert(t[p].0 == name);
        if p != i {
            assert(s[p].0 == name && s[i].0 == name);
            if p < i { assert(s[p].0 != s[i].0); } else { assert(s[i].0 != s[p].0); }
        }
        if exists|k: int| 0 <= k < s.len() && (#[trigger] s[k]).0 == other {
            let q = choose|k: int| 0 <= k < s.len() && (#[trigger] s[k]).0 == other;
            assert(q != i);
            assert(t[q] == s[q]);
            let q2 = choose|k: int| 0 <= k < t.len() && (#[trigger] t[k]).0 == other;
            assert(q2 != i);
            assert(t[q2] == s[q2]);
            if q2 != q {
                if q2 < q { assert(s[q2].0 != s[q].0); } else { assert(s[q].0 != s[q2].0); }
            }
        } else {
            assert forall|k: int| 0 <= k < t.len() implies (#[trigger] t[k]).0 != other by {
                if k != i { assert(t[k] == s[k]); }
            }
        }
    } else {
        assert(t == s.push((name, path)));
        assert(t[s.len() as int].0 == name);
        let p = choose|k: int| 0 <= k < t.len() && (#[trigger] t[k]).0 == name;
        if p < s.len() {
            assert(t[p] == s[p]);
        }
        if exists|k: int| 0 <= k < s.len() && (#[trigger] s[k]).0 == other {
            let q = choose|k: int| 0 <= k < s.len() && (#[trigger] s[k]).0 == other;
            assert(t[q] == s[q]);
            let q2 = choose|k: int| 0 <= k < t.len() && (#[trigger] t[k]).0 == other;
            assert(q2 < s.len());
            assert(t[q2] == s[q2]);
            if q2 != q {
                if q2 < q { assert(s[q2].0 != s[q].0); } else { assert(s[q].0 != s[q2].0); }
            }
        } else {
            assert forall|k: int| 0 <= k < t.len() implies (#[trigger] t[k]).0 != other by {
                if k < s.len() { assert(t[k] == s[k]); }
            }
        }
    }
}

/// The session in use and the one before it; the part of a session client that is
/// written to the main configuration file.
#[derive(Debug)]
pub struct SessionClient {
    pub current_session: String,
    pub last_session: Option<String>,
}

impl SessionClient {
    /// The fallback: session `default`, with no session before it.
    pub fn ensure_default() -> (c: SessionClient)
        ensures
            c.current_session@ == "default"@,
            c.last_session is None,
    {
        SessionClient { current_session: String::from_str("default"), last_session: None }
    }

    /// The client for a session just loaded: `name` is current, and the session
    /// before it is the one its metadata names.
    pub fn loaded(name: &str, recorded_last: &Option<String>) -> (c: SessionClient)
        ensures
            c.current_session@ == name@,
            opt_text(c.last_session) == opt_text(*recorded_last),
    {
        SessionClient { current_session: String::from_str(name), last_session: copy_opt_text(recorded_last) }
    }

    /// Which session takes over when `name` is deleted: when it is the current one,
    /// the session before it, or `default` when there is none; otherwise none.
    pub fn deletion_successor(&self, name: &str) -> (r: Option<String>)
        ensures
            name@ != self.current_session@ ==> r is None,
            name@ == self.current_session@ ==> (r matches Some(t) && t@ == match opt_text(self.last_session) {
                Some(l) => l,
                None => "default"@,
            }),
    {
        let name_text = String::from_str(name);
        if name_text == self.current_session {
            match &self.last_session {
                Some(l) => Some(l.clone()),
                None => Some(String::from_str("default")),
            }
        } else {
            None
        }
    }
}

/// What to do at start-up with the main configuration file's text.
pub enum StartupStep {
    /// Nothing was read: use the default session as it is.
    UseDefault,
    /// Load the named session.
    Load(String),
}

/// Decides the start-up session: with an empty or missing main configuration
/// file, the default one as it is; otherwise the session the file names, or,
/// when it does not parse, the session `default`, loaded from disk.
pub fn startup_step(file_empty: bool, parsed: Option<SessionClient>) -> (s: StartupStep)
    ensures
        file_empty ==> s is UseDefault,
        !file_empty ==> (s matches StartupStep::Load(n) && n@ == match parsed {
            Some(c) => c.current_session@,
            None => "default"@,
        }),
{
    if file_empty {
        StartupStep::UseDefault
    } else {
        match parsed {
            Some(c) => StartupStep::Load(c.current_session),
            None => StartupStep::Load(SessionClient::ensure_default().current_session),
        }
    }
}

/// Whether a session change went through: it did when recording the known
/// sessions in the new session's store succeeded; otherwise the client falls back
/// to the default session.
pub fn session_change_succeeded(write_result: &ConfigResult) -> (ok: bool)
    ensures
        ok == (write_result@ is Success),
{
    match write_result {
        ConfigResult::Success => true,
        _ => false,
    }
}

/// How a session change ends.
pub struct SessionChangeOutcome {
    /// The newly loaded client (the default one where the target could not be
    /// loaded) is kept and saved; otherwise the client falls back to the default.
    pub keep_new: bool,
    /// The change is reported as successful.
    pub ok: bool,
}

/// How a session change ends, from whether the target session could be loaded
/// and the result of recording the known sessions in the new store: the new
/// client is kept when recording succeeded; the change succeeds only when, in
/// addition, the target itself was loaded, as a fallback to the default session
/// is reported as an error.
pub fn session_change_outcome(target_loaded: bool, write_result: &ConfigResult) -> (o: SessionChangeOutcome)
    ensures
        o.keep_new == (write_result@ is Success),
        o.ok == (target_loaded && write_result@ is Success),
{
    let keep_new = session_change_succeeded(write_result);
    SessionChangeOutcome { keep_new, ok: target_loaded && keep_new }
}

} // verus!
