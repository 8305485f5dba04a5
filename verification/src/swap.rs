//! The swap itself: which credentials go live and which are archived.

use crate::config::has_session;
use crate::config::session_of;
use crate::config::with_session;
use crate::config::LiveConfig;
use crate::error::SwitchError;
use crate::session::blank_session;
use crate::session::is_home;
use crate::session::Session;
use crate::session::SessionView;
use crate::text::same_text;
use crate::vault::found;
use crate::vault::stored;
use crate::vault::Vault;
use crate::vault::VaultView;
use vstd::prelude::*;

verus! {

/// Everything a switch works on: the live session and the vault.
pub struct Accounts {
    pub session: SessionView,
    pub vault: VaultView,
}

/// The session that goes live for `target`: the stored credentials if the
/// vault has an entry for it, else blank ones. Credentials of another server
/// are never reused.
pub open spec fn restored(vault: VaultView, target: Seq<char>) -> SessionView {
    match found(vault, target) {
        Some(entry) => SessionView {
            endpoint: entry.server_key,
            username: entry.username,
            password: entry.password,
        },
        None => blank_session(target),
    }
}

/// The vault after the outgoing session was archived under its own address.
/// A session on the home server is not archived.
pub open spec fn archived(vault: VaultView, outgoing: SessionView) -> VaultView {
    stored(vault, outgoing.endpoint, outgoing.username, outgoing.password)
}

/// The accounts after a switch to `target`. Switching to the server that is
/// already live changes nothing.
pub open spec fn switched(accounts: Accounts, target: Seq<char>) -> Accounts {
    if accounts.session.endpoint == target {
        accounts
    } else {
        Accounts {
            session: restored(accounts.vault, target),
            vault: archived(accounts.vault, accounts.session),
        }
    }
}

/// The accounts after one switch for each of `targets`, in their order.
pub open spec fn switched_along(accounts: Accounts, targets: Seq<Seq<char>>) -> Accounts
    decreases targets.len(),
{
    if targets.len() == 0 {
        accounts
    } else {
        switched(switched_along(accounts, targets.drop_last()), targets.last())
    }
}

/// What a swap did.
#[derive(Debug)]
pub enum SwapOutcome {
    /// The target is the live server already, with `session` on it: nothing
    /// was touched.
    SameServer { session: Session },
    /// The configuration now holds `session`. `vault_changed` says whether
    /// the outgoing session was archived.
    Swapped { session: Session, vault_changed: bool },
}

/// Switches the configuration to `target`: looks the target up in the vault,
/// archives the outgoing session, and writes the new session into the
/// configuration. A configuration without a session is left alone and
/// reported as malformed.
pub fn swap(config: &mut LiveConfig, vault: &mut Vault, target: &str) -> (r: Result<
    SwapOutcome,
    SwitchError,
>)
    ensures
        r is Ok <==> has_session(old(config)@),
        r matches Err(e) ==> e == SwitchError::MalformedConfig && *final(config) == *old(config)
            && *final(vault) == *old(vault),
        r matches Ok(SwapOutcome::SameServer { session }) ==> session@ == session_of(old(config)@)
            && session@.endpoint == target@ && *final(config) == *old(config) && *final(vault)
            == *old(vault),
        r matches Ok(SwapOutcome::Swapped { session, vault_changed }) ==> {
            let before = Accounts { session: session_of(old(config)@), vault: old(vault)@ };
            &&& before.session.endpoint != target@
            &&& session@ == switched(before, target@).session
            &&& final(vault)@ == switched(before, target@).vault
            &&& final(config)@ == with_session(old(config)@, session@)
            &&& vault_changed == !is_home(before.session.endpoint)
            &&& !vault_changed ==> *final(vault) == *old(vault)
        },
{
    let outgoing = match config.read_session() {
        Ok(session) => session,
        Err(e) => {
            return Err(e);
        },
    };
    if same_text(outgoing.server_endpoint.as_str(), target) {
        return Ok(SwapOutcome::SameServer { session: outgoing });
    }
    let session = match vault.lookup(target) {
        Some(entry) => Session {
            server_endpoint: entry.server_key,
            username: entry.username,
            password: entry.password,
        },
        None => Session::blank(target),
    };
    let vault_changed = vault.store(
        outgoing.server_endpoint.as_str(),
        outgoing.username.as_str(),
        outgoing.password.as_str(),
    );
    config.write_session(&session);
    Ok(SwapOutcome::Swapped { session, vault_changed })
}

} // verus!
