//! The vault: the credentials archived for each server but the home server.

use crate::config::PASSWORD_KEY;
use crate::config::USERNAME_KEY;
use crate::error::SwitchError;
use crate::ini_file::ini_entries;
use crate::ini_file::ini_get;
use crate::ini_file::ini_new;
use crate::ini_file::ini_set;
use crate::ini_file::ini_text;
use crate::ini_file::Entries;
use crate::ini_file::Slot;
use crate::keyvalue::parse_text;
use crate::keyvalue::read_entries;
use crate::keyvalue::confirm;
use crate::keyvalue::faithful;
use crate::keyvalue::write_checked;
use crate::session::is_home;
use crate::text::optional_text;
use ini::Ini;
use vstd::prelude::*;

verus! {

/// A user's name and password, as the vault keeps them for one server.
pub struct Credentials {
    pub username: Seq<char>,
    pub password: Seq<char>,
}

/// What a [`Vault`] stands for in contracts: the credentials by server
/// address.
pub type VaultView = Map<Seq<char>, Credentials>;

/// What a [`VaultEntry`] stands for in contracts.
pub struct VaultEntryView {
    pub server_key: Seq<char>,
    pub username: Seq<char>,
    pub password: Seq<char>,
}

/// Where the vault keeps the user's name for a server: in the section named
/// by the server's address.
pub open spec fn stored_username_slot(server_key: Seq<char>) -> Slot {
    (Some(server_key), USERNAME_KEY@)
}

/// Where the vault keeps the password for a server.
pub open spec fn stored_password_slot(server_key: Seq<char>) -> Slot {
    (Some(server_key), PASSWORD_KEY@)
}

/// Whether a key-value text holds an entry for a server: the server is not
/// the home server, and its section has both a name and a password.
pub open spec fn has_entry(entries: Entries, server_key: Seq<char>) -> bool {
    &&& !is_home(server_key)
    &&& entries.contains_key(stored_username_slot(server_key))
    &&& entries.contains_key(stored_password_slot(server_key))
}

/// The vault that a key-value text holds.
pub open spec fn vault_of(entries: Entries) -> VaultView {
    Map::new(
        |server_key: Seq<char>| has_entry(entries, server_key),
        |server_key: Seq<char>|
            Credentials {
                username: entries[stored_username_slot(server_key)],
                password: entries[stored_password_slot(server_key)],
            },
    )
}

/// The vault after credentials were stored for a server: they take the
/// place of any that were stored for it. Nothing is stored for the home
/// server.
pub open spec fn stored(
    vault: VaultView,
    server_key: Seq<char>,
    username: Seq<char>,
    password: Seq<char>,
) -> VaultView {
    if is_home(server_key) {
        vault
    } else {
        vault.insert(server_key, Credentials { username, password })
    }
}

/// What a lookup of a server finds in a vault.
pub open spec fn found(vault: VaultView, server_key: Seq<char>) -> Option<VaultEntryView> {
    if vault.contains_key(server_key) {
        Some(
            VaultEntryView {
                server_key,
                username: vault[server_key].username,
                password: vault[server_key].password,
            },
        )
    } else {
        None
    }
}

/// The archived credentials of one server.
#[derive(Debug)]
pub struct VaultEntry {
    pub server_key: String,
    pub username: String,
    pub password: String,
}

impl View for VaultEntry {
    type V = VaultEntryView;

    open spec fn view(&self) -> VaultEntryView {
        VaultEntryView {
            server_key: self.server_key@,
            username: self.username@,
            password: self.password@,
        }
    }
}

/// The vault, held as parsed key-value text with one section per server.
pub struct Vault {
    ini: Ini,
}

impl View for Vault {
    type V = VaultView;

    open spec fn view(&self) -> VaultView {
        vault_of(self.entries())
    }
}

impl Vault {
    /// What a lookup finds under each section and key of the vault's text.
    pub closed spec fn entries(&self) -> Entries {
        ini_entries(self.ini)
    }

    /// What the format's writer gives for this vault: the text, or `None`
    /// where it gives none.
    pub closed spec fn written(&self) -> Option<Seq<char>> {
        ini_text(self.ini)
    }

    /// No vault ever holds an entry for the home server.
    pub proof fn lemma_never_home(&self)
        ensures
            forall|server_key: Seq<char>|
                is_home(server_key) ==> !#[trigger] self@.contains_key(server_key),
    {
    }

    /// A vault with no entry: what a client has before its first switch.
    pub fn new() -> (vault: Vault)
        ensures
            vault@ == VaultView::empty(),
    {
        let vault = Vault { ini: ini_new() };
        assert(vault@ =~= VaultView::empty());
        vault
    }

    /// Parses the text of a vault; a byte order mark at its start is
    /// skipped. A text that cannot be parsed is malformed.
    pub fn parse(text: &str) -> (r: Result<Vault, SwitchError>)
        ensures
            match r {
                Ok(vault) => read_entries(text@) matches Some(entries) && vault@ == vault_of(
                    entries,
                ),
                Err(e) => read_entries(text@) is None && e == SwitchError::MalformedConfig,
            },
    {
        match parse_text(text) {
            Some(ini) => Ok(Vault { ini }),
            None => Err(SwitchError::MalformedConfig),
        }
    }

    /// The entry stored for a server, if there is one. `None` is no error: it
    /// means that the server was never switched away from, or that it is the
    /// home server. The address is compared as it is written, letter for
    /// letter.
    pub fn lookup(&self, server_key: &str) -> (r: Option<VaultEntry>)
        ensures
            match r {
                Some(entry) => found(self@, server_key@) == Some(entry@),
                None => found(self@, server_key@) is None,
            },
    {
        if server_key.is_empty() {
            return None;
        }
        let username = ini_get(&self.ini, Some(server_key), USERNAME_KEY);
        let password = ini_get(&self.ini, Some(server_key), PASSWORD_KEY);
        match (username, password) {
            (Some(username), Some(password)) => Some(
                VaultEntry { server_key: server_key.to_owned(), username, password },
            ),
            _ => None,
        }
    }

    /// Stores credentials for a server, in place of any that were stored for
    /// it. The home server has no entry: for it nothing is stored and the
    /// result is `false`.
    pub fn store(&mut self, server_key: &str, username: &str, password: &str) -> (changed: bool)
        ensures
            changed == !is_home(server_key@),
            final(self)@ == stored(old(self)@, server_key@, username@, password@),
            !changed ==> *final(self) == *old(self),
    {
        if server_key.is_empty() {
            return false;
        }
        ini_set(&mut self.ini, Some(server_key), USERNAME_KEY, username);
        ini_set(&mut self.ini, Some(server_key), PASSWORD_KEY, password);
        proof {
            lemma_stored_slots_differ();
            assert(self@ =~= old(self)@.insert(
                server_key@,
                Credentials { username: username@, password: password@ },
            ));
        }
        true
    }

    /// The vault as text, to be written back to its file: the text that the
    /// format's writer gives for it, if reading that text back gives exactly
    /// what this vault holds, and `None` if the writer gives no text or one
    /// that reads otherwise.
    pub fn to_text(&self) -> (r: Option<String>)
        ensures
            optional_text(r) == faithful(self.written(), self.entries()),
            r matches Some(text) ==> read_entries(text@) matches Some(entries) && vault_of(entries)
                == self@,
    {
        write_checked(&self.ini)
    }

    /// Takes a text that is meant to hold this vault and gives it back if
    /// reading it gives exactly what this vault holds: every section and key
    /// with its value, and no other. Any other text is dropped.
    pub fn confirm_text(&self, written: Option<String>) -> (r: Option<String>)
        ensures
            optional_text(r) == faithful(optional_text(written), self.entries()),
    {
        confirm(&self.ini, written)
    }
}

/// A user's name and a password never stand in the same place, whatever the
/// servers.
proof fn lemma_stored_slots_differ()
    ensures
        USERNAME_KEY@ != PASSWORD_KEY@,
        forall|a: Seq<char>, b: Seq<char>|
            #![trigger stored_username_slot(a), stored_password_slot(b)]
            stored_username_slot(a) != stored_password_slot(b),
{
    crate::config::lemma_keys_differ();
    assert(crate::config::username_slot().1 != crate::config::password_slot().1);
}

} // verus!
