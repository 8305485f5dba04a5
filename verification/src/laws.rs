//! What holds of every switch, whatever the accounts and the target.

use crate::config::has_session;
use crate::config::lemma_keys_differ;
use crate::config::session_of;
use crate::engine::load;
use crate::engine::Files;
use crate::engine::step;
use crate::engine::Action;
use crate::engine::EngineView;
use crate::engine::EventView;
use crate::engine::Phase;
use crate::error::SwitchError;
use crate::session::blank_session;
use crate::keyvalue::read_entries;
use crate::session::is_home;
use crate::swap::switched;
use crate::swap::switched_along;
use crate::swap::Accounts;
use crate::vault::found;
use crate::vault::stored;
use crate::vault::vault_of;
use crate::vault::Credentials;
use crate::vault::VaultEntryView;
use crate::vault::VaultView;
use vstd::prelude::*;

verus! {

/// Switching to the server that is already live changes neither the session
/// nor the vault, and after any switch the target is the live server: so a
/// second switch to the same target changes nothing.
pub proof fn law_switch_is_idempotent(accounts: Accounts, target: Seq<char>)
    ensures
        accounts.session.endpoint == target ==> switched(accounts, target) == accounts,
        switched(accounts, target).session.endpoint == target,
        switched(switched(accounts, target), target) == switched(accounts, target),
{
}

/// A lookup right after a store finds exactly what was stored. The home
/// server has no entry, so this speaks of every other server.
pub proof fn law_store_then_lookup(
    vault: VaultView,
    server_key: Seq<char>,
    username: Seq<char>,
    password: Seq<char>,
)
    requires
        !is_home(server_key),
    ensures
        found(stored(vault, server_key, username, password), server_key) == Some(
            VaultEntryView { server_key, username, password },
        ),
{
}

/// A store for one server leaves the entry of every other server as it was.
pub proof fn law_store_keeps_other_servers(
    vault: VaultView,
    server_key: Seq<char>,
    username: Seq<char>,
    password: Seq<char>,
    other: Seq<char>,
)
    requires
        other != server_key,
    ensures
        found(stored(vault, server_key, username, password), other) == found(vault, other),
{
}

/// Switching away from a server other than the home server, and then
/// straight back to it, restores the session that was live on it before the
/// first switch.
pub proof fn law_switch_back_restores(accounts: Accounts, elsewhere: Seq<char>)
    requires
        !is_home(accounts.session.endpoint),
    ensures
        switched(switched(accounts, elsewhere), accounts.session.endpoint).session
            == accounts.session,
{
}

/// While the switches go to other servers, the vault keeps what was archived
/// for the server that was left first.
proof fn lemma_detour_keeps_entry(accounts: Accounts, detour: Seq<Seq<char>>)
    requires
        !is_home(accounts.session.endpoint),
        detour.len() > 0,
        forall|i: int| 0 <= i < detour.len() ==> detour[i] != accounts.session.endpoint,
    ensures
        switched_along(accounts, detour).session.endpoint != accounts.session.endpoint,
        switched_along(accounts, detour).vault.contains_key(accounts.session.endpoint),
        switched_along(accounts, detour).vault[accounts.session.endpoint] == (Credentials {
            username: accounts.session.username,
            password: accounts.session.password,
        }),
    decreases detour.len(),
{
    if detour.len() == 1 {
        assert(detour.drop_last().len() == 0);
        assert(switched_along(accounts, detour.drop_last()) == accounts);
    } else {
        lemma_detour_keeps_entry(accounts, detour.drop_last());
    }
}

/// However many other servers are visited after a server other than the
/// home server was left, the first switch back to it restores the session
/// that was live on it when it was left.
pub proof fn law_detour_and_back_restores(accounts: Accounts, detour: Seq<Seq<char>>)
    requires
        !is_home(accounts.session.endpoint),
        forall|i: int| 0 <= i < detour.len() ==> detour[i] != accounts.session.endpoint,
    ensures
        switched(switched_along(accounts, detour), accounts.session.endpoint).session
            == accounts.session,
{
    if detour.len() > 0 {
        lemma_detour_keeps_entry(accounts, detour);
    }
}

/// However many switches are made, and whatever their targets, the home
/// server never gets an entry in the vault.
pub proof fn law_home_is_never_archived_along(
    accounts: Accounts,
    targets: Seq<Seq<char>>,
    home: Seq<char>,
)
    requires
        is_home(home),
        !accounts.vault.contains_key(home),
    ensures
        !switched_along(accounts, targets).vault.contains_key(home),
    decreases targets.len(),
{
    if targets.len() > 0 {
        law_home_is_never_archived_along(accounts, targets.drop_last(), home);
    }
}

/// A switch never gives the home server an entry in the vault: a vault
/// without one stays without one.
pub proof fn law_home_is_never_archived(accounts: Accounts, target: Seq<char>, home: Seq<char>)
    requires
        is_home(home),
        !accounts.vault.contains_key(home),
    ensures
        !switched(accounts, target).vault.contains_key(home),
{
}

/// Switching away from the home server leaves the vault exactly as it was:
/// the outgoing credentials are dropped.
pub proof fn law_leaving_home_keeps_vault(accounts: Accounts, target: Seq<char>)
    requires
        is_home(accounts.session.endpoint),
    ensures
        switched(accounts, target).vault == accounts.vault,
{
}

/// Switching to a server that is not live and has no entry in the vault
/// gives a session on that server with an empty name and an empty password.
pub proof fn law_first_use_is_blank(accounts: Accounts, target: Seq<char>)
    requires
        accounts.session.endpoint != target,
        !accounts.vault.contains_key(target),
    ensures
        switched(accounts, target).session == blank_session(target),
        switched(accounts, target).session.username.len() == 0,
        switched(accounts, target).session.password.len() == 0,
{
}

/// How many steps a phase is away from the end of the switch, at most.
pub open spec fn steps_left(phase: Phase) -> nat {
    match phase {
        Phase::Idle => 4,
        Phase::Archiving => 3,
        Phase::Persisting => 2,
        Phase::Patching => 1,
        Phase::Handoff => 0,
    }
}

/// Asked to switch to the server that is already live, the engine asks for
/// no write: it goes straight to the launch, holds the configuration and the
/// vault as they were read, and has nothing to report.
pub proof fn law_same_server_writes_nothing(
    pre: EngineView,
    config: Option<Seq<char>>,
    state_store_present: bool,
    vault: Option<Seq<char>>,
)
    requires
        pre.phase is Idle,
        load(config, state_store_present, vault) matches Ok(files) && session_of(
            files.config,
        ).endpoint == pre.target,
    ensures
        ({
            let files = load(config, state_store_present, vault)->Ok_0;
            let (post, action) = step(
                pre,
                EventView::Loaded { config, state_store_present, vault },
            );
            &&& action == (Action::Launch { notice: None })
            &&& post.phase is Handoff
            &&& post.config == files.config
            &&& post.vault == files.vault
            &&& post.session == session_of(files.config)
        }),
{
}

/// Every path leads to the launch: each step brings the engine nearer to
/// its last phase, whatever the event, and the launch is asked for exactly
/// when that phase is entered, once.
pub proof fn law_every_path_launches(pre: EngineView, event: EventView)
    ensures
        ({
            let (post, action) = step(pre, event);
            &&& !(pre.phase is Handoff) ==> steps_left(post.phase) < steps_left(pre.phase)
            &&& action is Launch <==> !(pre.phase is Handoff) && post.phase is Handoff
            &&& action is Done <==> pre.phase is Handoff
            &&& post.target == pre.target
        }),
{
}

/// A swap away from a server other than the home server goes to disk in a
/// fixed order when nothing fails: the vault with the archived session
/// first, then the configuration with the new session, then the player
/// name, which is the new session's user, and last the launch.
pub proof fn law_swap_goes_to_disk_in_order(
    pre: EngineView,
    config: Option<Seq<char>>,
    vault: Option<Seq<char>>,
)
    requires
        pre.phase is Idle,
        load(config, true, vault) matches Ok(files) && session_of(files.config).endpoint
            != pre.target && !is_home(session_of(files.config).endpoint),
    ensures
        ({
            let files = load(config, true, vault)->Ok_0;
            let before = Accounts { session: session_of(files.config), vault: files.vault };
            let (archiving, first) = step(
                pre,
                EventView::Loaded { config, state_store_present: true, vault },
            );
            let (persisting, second) = step(archiving, EventView::Written { ok: true });
            let (patching, third) = step(persisting, EventView::Written { ok: true });
            let (handoff, fourth) = step(patching, EventView::Patched { failure: None });
            &&& first is WriteVault && archiving.phase is Archiving
            &&& second is WriteConfig && persisting.phase is Persisting
            &&& third is PatchIdentity && patching.phase is Patching
            &&& fourth == (Action::Launch { notice: None }) && handoff.phase is Handoff
            &&& archiving.vault == switched(before, pre.target).vault
            &&& archiving.session == switched(before, pre.target).session
            &&& session_of(archiving.config) == archiving.session
            &&& patching.session == archiving.session && patching.config == archiving.config
                && patching.vault == archiving.vault
        }),
{
    lemma_keys_differ();
}

/// A failure ends the switch where it stands: after a failed write or a
/// failed patch the engine asks for the launch and reports the failure.
pub proof fn law_failure_still_launches(pre: EngineView, failure: SwitchError)
    ensures
        pre.phase is Archiving || pre.phase is Persisting ==> step(
            pre,
            EventView::Written { ok: false },
        ).1 == (Action::Launch { notice: Some(SwitchError::IoFailure) }),
        pre.phase is Patching ==> step(pre, EventView::Patched { failure: Some(failure) }).1 == (
            Action::Launch { notice: Some(failure) }
        ),
{
}

/// Whether the client's files hold what an engine holds: the configuration's
/// text reads as the engine's configuration, and the vault's text as the
/// engine's vault, where a vault that does not exist is an empty one. The
/// texts that [`crate::engine::Engine::config_text`] and
/// [`crate::engine::Engine::vault_text`] give are such texts.
pub open spec fn on_disk(config: Seq<char>, vault: Option<Seq<char>>, engine: EngineView) -> bool {
    &&& read_entries(config) == Some(engine.config)
    &&& match vault {
        Some(text) => read_entries(text) matches Some(entries) && vault_of(entries)
            == engine.vault,
        None => engine.vault == VaultView::empty(),
    }
}

/// What one switch leaves on disk is what the next one starts from: the
/// files are read as the configuration and the vault that the engine held.
pub proof fn law_files_carry_the_accounts(
    engine: EngineView,
    config: Seq<char>,
    vault: Option<Seq<char>>,
)
    requires
        on_disk(config, vault, engine),
        has_session(engine.config),
    ensures
        load(Some(config), true, vault) == Ok::<Files, SwitchError>(
            Files { config: engine.config, vault: engine.vault },
        ),
{
}

/// Conservation over two runs of the program: a first run switches away from
/// a server other than the home server, its files are written, and a second
/// run switches back. The second run then holds the session that was live
/// before the first.
pub proof fn law_switch_back_restores_from_disk(
    first: EngineView,
    config_before: Option<Seq<char>>,
    vault_before: Option<Seq<char>>,
    config_between: Seq<char>,
    vault_between: Option<Seq<char>>,
    second: EngineView,
)
    requires
        first.phase is Idle,
        second.phase is Idle,
        load(config_before, true, vault_before) matches Ok(files) && !is_home(
            session_of(files.config).endpoint,
        ) && second.target == session_of(files.config).endpoint,
        first.target != second.target,
        on_disk(
            config_between,
            vault_between,
            step(
                first,
                EventView::Loaded {
                    config: config_before,
                    state_store_present: true,
                    vault: vault_before,
                },
            ).0,
        ),
    ensures
        step(
            second,
            EventView::Loaded {
                config: Some(config_between),
                state_store_present: true,
                vault: vault_between,
            },
        ).0.session == session_of(load(config_before, true, vault_before)->Ok_0.config),
{
    lemma_keys_differ();
}

/// Idempotence over two runs of the program: once a run has switched to a
/// server and its files are written, a second run for the same server asks
/// for no write and has nothing to report.
pub proof fn law_second_run_writes_nothing(
    first: EngineView,
    config_before: Option<Seq<char>>,
    vault_before: Option<Seq<char>>,
    config_between: Seq<char>,
    vault_between: Option<Seq<char>>,
    second: EngineView,
)
    requires
        first.phase is Idle,
        second.phase is Idle,
        second.target == first.target,
        load(config_before, true, vault_before) is Ok,
        on_disk(
            config_between,
            vault_between,
            step(
                first,
                EventView::Loaded {
                    config: config_before,
                    state_store_present: true,
                    vault: vault_before,
                },
            ).0,
        ),
    ensures
        step(
            second,
            EventView::Loaded {
                config: Some(config_between),
                state_store_present: true,
                vault: vault_between,
            },
        ).1 == (Action::Launch { notice: None }),
{
    lemma_keys_differ();
}

} // verus!
