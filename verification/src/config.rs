//! The client's configuration: the one place where the live session is kept.

use crate::error::SwitchError;
use crate::ini_file::ini_entries;
use crate::ini_file::ini_get;
use crate::ini_file::ini_new;
use crate::ini_file::ini_set;
use crate::ini_file::ini_text;
use crate::ini_file::Entries;
use crate::ini_file::Slot;
use crate::keyvalue::parse_text;
use crate::keyvalue::read_entries;
use crate::keyvalue::confirm;
use crate::keyvalue::faithful;
use crate::keyvalue::write_checked;
use crate::session::Session;
use crate::session::SessionView;
use crate::text::optional_text;
use ini::Ini;
use vstd::prelude::*;

verus! {

/// The key under which the client keeps the server's address.
pub const ENDPOINT_KEY: &'static str = "CredentialEndpoint";

/// The key under which the client keeps the user's name.
pub const USERNAME_KEY: &'static str = "Username";

/// The key under which the client keeps the password.
pub const PASSWORD_KEY: &'static str = "Password";

/// Where the server's address stands: in the unnamed section.
pub open spec fn endpoint_slot() -> Slot {
    (None, ENDPOINT_KEY@)
}

/// Where the user's name stands.
pub open spec fn username_slot() -> Slot {
    (None, USERNAME_KEY@)
}

/// Where the password stands.
pub open spec fn password_slot() -> Slot {
    (None, PASSWORD_KEY@)
}

/// Whether a configuration holds all three keys of a session.
pub open spec fn has_session(entries: Entries) -> bool {
    &&& entries.contains_key(endpoint_slot())
    &&& entries.contains_key(username_slot())
    &&& entries.contains_key(password_slot())
}

/// The session that a configuration holds.
pub open spec fn session_of(entries: Entries) -> SessionView
    recommends
        has_session(entries),
{
    SessionView {
        endpoint: entries[endpoint_slot()],
        username: entries[username_slot()],
        password: entries[password_slot()],
    }
}

/// A configuration after a session was written into it: the three keys hold
/// the session, every other key holds what it held.
pub open spec fn with_session(entries: Entries, session: SessionView) -> Entries {
    entries.insert(endpoint_slot(), session.endpoint).insert(
        username_slot(),
        session.username,
    ).insert(password_slot(), session.password)
}

/// What reading the session from a configuration text gives. `None` stands
/// for a configuration that does not exist.
pub open spec fn session_read(text: Option<Seq<char>>) -> Result<SessionView, SwitchError> {
    match text {
        None => Err(SwitchError::MissingConfig),
        Some(t) => match read_entries(t) {
            None => Err(SwitchError::MalformedConfig),
            Some(entries) => if has_session(entries) {
                Ok(session_of(entries))
            } else {
                Err(SwitchError::MalformedConfig)
            },
        },
    }
}

/// The three keys are three different texts.
pub proof fn lemma_keys_differ()
    ensures
        endpoint_slot() != username_slot(),
        endpoint_slot() != password_slot(),
        username_slot() != password_slot(),
{
    reveal_strlit("CredentialEndpoint");
    reveal_strlit("Username");
    reveal_strlit("Password");
    assert(ENDPOINT_KEY@.len() == 18);
    assert(USERNAME_KEY@[0] == 'U');
    assert(PASSWORD_KEY@[0] == 'P');
}

/// The client's configuration, held as parsed key-value text.
pub struct LiveConfig {
    ini: Ini,
}

impl View for LiveConfig {
    type V = Entries;

    /// What a lookup finds under each section and key.
    closed spec fn view(&self) -> Entries {
        ini_entries(self.ini)
    }
}

impl LiveConfig {
    /// What the format's writer gives for this configuration: the text, or
    /// `None` where it gives none.
    pub closed spec fn written(&self) -> Option<Seq<char>> {
        ini_text(self.ini)
    }

    /// A configuration with no key at all.
    pub fn new() -> (config: LiveConfig)
        ensures
            config@ == Entries::empty(),
    {
        LiveConfig { ini: ini_new() }
    }

    /// Parses the text of the client's configuration; a byte order mark at
    /// its start is skipped. A text that cannot be parsed is malformed.
    pub fn parse(text: &str) -> (r: Result<LiveConfig, SwitchError>)
        ensures
            match r {
                Ok(config) => read_entries(text@) == Some(config@),
                Err(e) => read_entries(text@) is None && e == SwitchError::MalformedConfig,
            },
    {
        match parse_text(text) {
            Some(ini) => Ok(LiveConfig { ini }),
            None => Err(SwitchError::MalformedConfig),
        }
    }

    /// Reads the live session. It is there exactly when all three keys are;
    /// an empty address is the home server, not an error.
    pub fn read_session(&self) -> (r: Result<Session, SwitchError>)
        ensures
            match r {
                Ok(session) => has_session(self@) && session@ == session_of(self@),
                Err(e) => !has_session(self@) && e == SwitchError::MalformedConfig,
            },
    {
        let endpoint = ini_get(&self.ini, None, ENDPOINT_KEY);
        let username = ini_get(&self.ini, None, USERNAME_KEY);
        let password = ini_get(&self.ini, None, PASSWORD_KEY);
        match (endpoint, username, password) {
            (Some(server_endpoint), Some(username), Some(password)) => Ok(
                Session { server_endpoint, username, password },
            ),
            _ => Err(SwitchError::MalformedConfig),
        }
    }

    /// Overwrites the three keys of the session and nothing else.
    pub fn write_session(&mut self, session: &Session)
        ensures
            final(self)@ == with_session(old(self)@, session@),
    {
        ini_set(&mut self.ini, None, ENDPOINT_KEY, session.server_endpoint.as_str());
        ini_set(&mut self.ini, None, USERNAME_KEY, session.username.as_str());
        ini_set(&mut self.ini, None, PASSWORD_KEY, session.password.as_str());
    }

    /// The configuration as text, to be written back to the client's file:
    /// the text that the format's writer gives for it, if reading that text
    /// back gives exactly this configuration, and `None` if the writer gives
    /// no text or one that reads otherwise.
    pub fn to_text(&self) -> (r: Option<String>)
        ensures
            optional_text(r) == faithful(self.written(), self@),
            r matches Some(text) ==> read_entries(text@) == Some(self@),
    {
        write_checked(&self.ini)
    }

    /// Takes a text that is meant to hold this configuration and gives it
    /// back if reading it gives exactly this configuration: every key with
    /// its value, and no other key. Any other text is dropped.
    pub fn confirm_text(&self, written: Option<String>) -> (r: Option<String>)
        ensures
            optional_text(r) == faithful(optional_text(written), self@),
    {
        confirm(&self.ini, written)
    }
}

/// Reads the live session from the configuration's text, where `None` stands
/// for a configuration that does not exist.
pub fn read_session(text: Option<&str>) -> (r: Result<Session, SwitchError>)
    ensures
        match r {
            Ok(session) => session_read(text_view(text)) == Ok::<SessionView, SwitchError>(session@),
            Err(e) => session_read(text_view(text)) == Err::<SessionView, SwitchError>(e),
        },
{
    match text {
        None => Err(SwitchError::MissingConfig),
        Some(t) => match LiveConfig::parse(t) {
            Err(e) => Err(e),
            Ok(config) => config.read_session(),
        },
    }
}

/// The text of an optional string.
pub open spec fn text_view(text: Option<&str>) -> Option<Seq<char>> {
    match text {
        Some(t) => Some(t@),
        None => None,
    }
}

} // verus!
