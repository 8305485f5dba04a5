//! The switch as a state machine.
//!
//! The engine decides and the caller acts: each [`Action`] names one thing to
//! do outside (write a file, patch the state store, launch the client), and
//! the caller answers with the [`Event`] that says how it went. Whatever
//! happens, the engine ends by asking for the launch.
//!
//! A [`Phase`] is a point at which the engine waits for the caller. From
//! [`Phase::Idle`] one step loads the session, compares its server with the
//! target and, if they differ, makes the swap in memory; what follows only
//! brings the swap to disk, the vault before the configuration, and then the
//! player name. A switch to the server that is already live goes from
//! [`Phase::Idle`] straight to [`Phase::Handoff`].

use crate::config::has_session;
use crate::config::session_of;
use crate::config::with_session;
use crate::config::LiveConfig;
use crate::error::SwitchError;
use crate::ini_file::Entries;
use crate::keyvalue::faithful;
use crate::keyvalue::read_entries;
use crate::session::blank_session;
use crate::session::is_home;
use crate::session::Session;
use crate::session::SessionView;
use crate::swap::swap;
use crate::swap::switched;
use crate::swap::Accounts;
use crate::swap::SwapOutcome;
use crate::text::optional_text;
use crate::vault::vault_of;
use crate::vault::Vault;
use crate::vault::VaultView;
use vstd::prelude::*;

verus! {

/// Where a switch stands.
#[derive(Debug, Clone, Copy, PartialEq, Eq, Structural)]
pub enum Phase {
    /// Nothing was read yet.
    Idle,
    /// The swap was made in memory and the vault is being written. The vault
    /// goes first, so that the outgoing credentials are on disk before the
    /// configuration loses them.
    Archiving,
    /// The configuration with the new session is being written.
    Persisting,
    /// The swap is on disk and the player name in the state store is being
    /// set to the new session's user.
    Patching,
    /// The launch was asked for. Nothing follows.
    Handoff,
}

/// What the caller has to do next.
#[derive(Debug, Clone, Copy, PartialEq, Eq)]
pub enum Action {
    /// Write the vault's text to the vault's file.
    WriteVault,
    /// Write the configuration's text to the client's configuration.
    WriteConfig,
    /// Set the player name in the client's state store.
    PatchIdentity,
    /// Launch the client for the target server, and tell the user of
    /// `notice` if there is one.
    Launch { notice: Option<SwitchError> },
    /// The launch was asked for before: there is nothing left to do.
    Done,
}

/// What the caller reports back.
#[derive(Debug)]
pub enum Event {
    /// The client's files were looked at: the text of the configuration and
    /// of the vault, `None` for one that does not exist, and whether the
    /// state store exists.
    Loaded { config: Option<String>, state_store_present: bool, vault: Option<String> },
    /// The write that the last action asked for ended, well or not.
    Written { ok: bool },
    /// The patch of the player name ended, well or with the given failure.
    Patched { failure: Option<SwitchError> },
}

/// What an [`Event`] stands for in contracts.
pub enum EventView {
    Loaded { config: Option<Seq<char>>, state_store_present: bool, vault: Option<Seq<char>> },
    Written { ok: bool },
    Patched { failure: Option<SwitchError> },
}

impl View for Event {
    type V = EventView;

    open spec fn view(&self) -> EventView {
        match *self {
            Event::Loaded { config, state_store_present, vault } => EventView::Loaded {
                config: optional_text(config),
                state_store_present,
                vault: optional_text(vault),
            },
            Event::Written { ok } => EventView::Written { ok },
            Event::Patched { failure } => EventView::Patched { failure },
        }
    }
}

/// What an [`Engine`] stands for in contracts.
pub struct EngineView {
    pub phase: Phase,
    /// The server to switch to; empty for the home server.
    pub target: Seq<char>,
    /// The live session as far as the engine knows it.
    pub session: SessionView,
    /// What the configuration holds.
    pub config: Entries,
    /// What the vault holds.
    pub vault: VaultView,
}

/// What the client's files hold, once they were read without fault.
pub struct Files {
    pub config: Entries,
    pub vault: VaultView,
}

/// What reading the client's files gives: the configuration and the vault,
/// or the reason why there is nothing to switch. A vault that does not exist
/// is an empty vault.
pub open spec fn load(
    config: Option<Seq<char>>,
    state_store_present: bool,
    vault: Option<Seq<char>>,
) -> Result<Files, SwitchError> {
    if config is None || !state_store_present {
        Err(SwitchError::MissingConfig)
    } else if read_entries(config->0) is None || !has_session(read_entries(config->0)->0) {
        Err(SwitchError::MalformedConfig)
    } else if vault is Some && read_entries(vault->0) is None {
        Err(SwitchError::MalformedConfig)
    } else {
        Ok(
            Files {
                config: read_entries(config->0)->0,
                vault: if vault is Some {
                    vault_of(read_entries(vault->0)->0)
                } else {
                    VaultView::empty()
                },
            },
        )
    }
}

/// The engine in its last phase, with everything else as it was.
pub open spec fn handed_off(pre: EngineView) -> EngineView {
    EngineView { phase: Phase::Handoff, ..pre }
}

/// The step from [`Phase::Idle`], once the files were read.
pub open spec fn begin(pre: EngineView, loaded: Result<Files, SwitchError>) -> (
    EngineView,
    Action,
) {
    match loaded {
        Err(e) => (handed_off(pre), Action::Launch { notice: Some(e) }),
        Ok(files) => {
            let before = Accounts { session: session_of(files.config), vault: files.vault };
            let after = switched(before, pre.target);
            if before.session.endpoint == pre.target {
                (
                    EngineView {
                        phase: Phase::Handoff,
                        target: pre.target,
                        session: before.session,
                        config: files.config,
                        vault: files.vault,
                    },
                    Action::Launch { notice: None },
                )
            } else {
                let swapped = EngineView {
                    phase: if is_home(before.session.endpoint) {
                        Phase::Persisting
                    } else {
                        Phase::Archiving
                    },
                    target: pre.target,
                    session: after.session,
                    config: with_session(files.config, after.session),
                    vault: after.vault,
                };
                if is_home(before.session.endpoint) {
                    (swapped, Action::WriteConfig)
                } else {
                    (swapped, Action::WriteVault)
                }
            }
        },
    }
}

/// One step of the engine: the state after `event` and what to do next.
///
/// An event that does not answer the action asked for counts as that
/// action's failure. Every failure leads to the launch.
pub open spec fn step(pre: EngineView, event: EventView) -> (EngineView, Action) {
    match pre.phase {
        Phase::Idle => match event {
            EventView::Loaded { config, state_store_present, vault } => begin(
                pre,
                load(config, state_store_present, vault),
            ),
            _ => (handed_off(pre), Action::Launch { notice: Some(SwitchError::MissingConfig) }),
        },
        Phase::Archiving => match event {
            EventView::Written { ok: true } => (
                EngineView { phase: Phase::Persisting, ..pre },
                Action::WriteConfig,
            ),
            _ => (handed_off(pre), Action::Launch { notice: Some(SwitchError::IoFailure) }),
        },
        Phase::Persisting => match event {
            EventView::Written { ok: true } => (
                EngineView { phase: Phase::Patching, ..pre },
                Action::PatchIdentity,
            ),
            _ => (handed_off(pre), Action::Launch { notice: Some(SwitchError::IoFailure) }),
        },
        Phase::Patching => match event {
            EventView::Patched { failure } => (handed_off(pre), Action::Launch { notice: failure }),
            _ => (handed_off(pre), Action::Launch { notice: Some(SwitchError::IoFailure) }),
        },
        Phase::Handoff => (pre, Action::Done),
    }
}

/// One switch of the client to a target server.
pub struct Engine {
    phase: Phase,
    target: String,
    session: Session,
    config: LiveConfig,
    vault: Vault,
}

impl View for Engine {
    type V = EngineView;

    closed spec fn view(&self) -> EngineView {
        EngineView {
            phase: self.phase,
            target: self.target@,
            session: self.session@,
            config: self.config@,
            vault: self.vault@,
        }
    }
}

impl Engine {
    /// What the format's writer gives for the configuration that the engine
    /// holds: the text, or `None` where it gives none.
    pub closed spec fn config_written(&self) -> Option<Seq<char>> {
        self.config.written()
    }

    /// What the format's writer gives for the vault that the engine holds.
    pub closed spec fn vault_written(&self) -> Option<Seq<char>> {
        self.vault.written()
    }

    /// What a lookup finds under each section and key of the vault that the
    /// engine holds.
    pub closed spec fn vault_entries(&self) -> Entries {
        self.vault.entries()
    }

    /// An engine that has read nothing yet. An empty `target` is the home
    /// server.
    pub fn new(target: &str) -> (engine: Engine)
        ensures
            engine@ == (EngineView {
                phase: Phase::Idle,
                target: target@,
                session: blank_session(Seq::empty()),
                config: Entries::empty(),
                vault: VaultView::empty(),
            }),
    {
        Engine {
            phase: Phase::Idle,
            target: target.to_owned(),
            session: Session {
                server_endpoint: String::new(),
                username: String::new(),
                password: String::new(),
            },
            config: LiveConfig::new(),
            vault: Vault::new(),
        }
    }

    /// Takes the caller's report and says what to do next. Once the files
    /// are read, the configuration and the vault that the engine holds stay
    /// as they are, and so do their texts.
    pub fn step(&mut self, event: Event) -> (action: Action)
        ensures
            (final(self)@, action) == step(old(self)@, event@),
            !(old(self)@.phase is Idle) ==> final(self).config_written() == old(
                self,
            ).config_written() && final(self).vault_written() == old(self).vault_written()
                && final(self).vault_entries() == old(self).vault_entries(),
    {
        match self.phase {
            Phase::Idle => match event {
                Event::Loaded { config, state_store_present, vault } => self.begin(
                    config,
                    state_store_present,
                    vault,
                ),
                _ => self.hand_off(Some(SwitchError::MissingConfig)),
            },
            Phase::Archiving => match event {
                Event::Written { ok: true } => {
                    self.phase = Phase::Persisting;
                    Action::WriteConfig
                },
                _ => self.hand_off(Some(SwitchError::IoFailure)),
            },
            Phase::Persisting => match event {
                Event::Written { ok: true } => {
                    self.phase = Phase::Patching;
                    Action::PatchIdentity
                },
                _ => self.hand_off(Some(SwitchError::IoFailure)),
            },
            Phase::Patching => match event {
                Event::Patched { failure } => self.hand_off(failure),
                _ => self.hand_off(Some(SwitchError::IoFailure)),
            },
            Phase::Handoff => Action::Done,
        }
    }

    /// Ends the switch: asks for the launch, with `notice` for the user.
    fn hand_off(&mut self, notice: Option<SwitchError>) -> (action: Action)
        ensures
            final(self)@ == handed_off(old(self)@),
            action == (Action::Launch { notice }),
            final(self).config_written() == old(self).config_written(),
            final(self).vault_written() == old(self).vault_written(),
            final(self).vault_entries() == old(self).vault_entries(),
    {
        self.phase = Phase::Handoff;
        Action::Launch { notice }
    }

    /// The step from [`Phase::Idle`]: reads the session, and swaps if the
    /// target is another server than the live one.
    fn begin(
        &mut self,
        config: Option<String>,
        state_store_present: bool,
        vault: Option<String>,
    ) -> (action: Action)
        requires
            old(self)@.phase is Idle,
        ensures
            (final(self)@, action) == begin(
                old(self)@,
                load(optional_text(config), state_store_present, optional_text(vault)),
            ),
    {
        let config_text = match config {
            Some(text) => text,
            None => {
                return self.hand_off(Some(SwitchError::MissingConfig));
            },
        };
        if !state_store_present {
            return self.hand_off(Some(SwitchError::MissingConfig));
        }
        let mut live = match LiveConfig::parse(config_text.as_str()) {
            Ok(live) => live,
            Err(e) => {
                return self.hand_off(Some(e));
            },
        };
        let mut archive = match vault {
            None => Vault::new(),
            Some(text) => match Vault::parse(text.as_str()) {
                Ok(archive) => archive,
                Err(e) => {
                    return self.hand_off(Some(e));
                },
            },
        };
        match swap(&mut live, &mut archive, self.target.as_str()) {
            Err(e) => self.hand_off(Some(e)),
            Ok(SwapOutcome::SameServer { session }) => {
                self.session = session;
                self.config = live;
                self.vault = archive;
                self.hand_off(None)
            },
            Ok(SwapOutcome::Swapped { session, vault_changed }) => {
                self.session = session;
                self.config = live;
                self.vault = archive;
                if vault_changed {
                    self.phase = Phase::Archiving;
                    Action::WriteVault
                } else {
                    self.phase = Phase::Persisting;
                    Action::WriteConfig
                }
            },
        }
    }

    /// Where the switch stands.
    pub fn phase(&self) -> (phase: Phase)
        ensures
            phase == self@.phase,
    {
        self.phase
    }

    /// The server to switch to; empty for the home server.
    pub fn target(&self) -> (target: &str)
        ensures
            target@ == self@.target,
    {
        self.target.as_str()
    }

    /// The live session as far as the engine knows it: after a swap, the
    /// new one.
    pub fn session(&self) -> (session: &Session)
        ensures
            session@ == self@.session,
    {
        &self.session
    }

    /// The name to set in the state store: the user of the live session.
    pub fn player_name(&self) -> (name: &str)
        ensures
            name@ == self@.session.username,
    {
        self.session.username.as_str()
    }

    /// The text to write for [`Action::WriteConfig`]: the text that the
    /// format's writer gives for the configuration that the engine holds, if
    /// reading it back gives exactly that configuration. `None` means that
    /// the writer gives no text or one that reads otherwise, which counts as
    /// a failed write.
    pub fn config_text(&self) -> (r: Option<String>)
        ensures
            optional_text(r) == faithful(self.config_written(), self@.config),
            r matches Some(text) ==> read_entries(text@) == Some(self@.config),
    {
        self.config.to_text()
    }

    /// The text to write for [`Action::WriteVault`]: the text that the
    /// format's writer gives for the vault that the engine holds, if reading
    /// it back gives exactly what that vault holds. `None` means that the
    /// writer gives no text or one that reads otherwise, which counts as a
    /// failed write.
    pub fn vault_text(&self) -> (r: Option<String>)
        ensures
            optional_text(r) == faithful(self.vault_written(), self.vault_entries()),
            r matches Some(text) ==> read_entries(text@) matches Some(entries) && vault_of(entries)
                == self@.vault,
    {
        self.vault.to_text()
    }
}

} // verus!
