//! The settings and the run-time status of the application. The settings
//! are stored between runs; the status is not.

use vstd::prelude::*;
use crate::ollama::{OllamaConfig, OllamaModel, OllamaStatus};
use crate::timestamp::Timestamp;

verus! {

/// The settings as they are stored.
#[derive(Debug)]
pub struct AppConfigSnapshot {
    pub ollama: OllamaConfig,
}

impl Clone for AppConfigSnapshot {
    fn clone(&self) -> (copy: Self)
        ensures
            copy == *self,
    {
        AppConfigSnapshot { ollama: self.ollama.clone() }
    }
}

impl Default for AppConfigSnapshot {
    fn default() -> (snapshot: Self)
        ensures
            snapshot.ollama.is_local_default(),
    {
        AppConfigSnapshot { ollama: OllamaConfig::default() }
    }
}

/// The settings and the status of the server.
pub struct AppState {
    ollama_config: OllamaConfig,
    ollama_status: OllamaStatus,
}

/// What an application state holds, as plain values.
pub struct AppStateView {
    pub config: OllamaConfig,
    pub available: bool,
    pub models: Seq<OllamaModel>,
    pub last_checked: Seq<char>,
    pub error_message: Option<String>,
}

impl AppStateView {
    /// The status is the one before any check, dated `now`.
    pub open spec fn is_unchecked(self, now: Timestamp) -> bool {
        &&& !self.available
        &&& self.models.len() == 0
        &&& self.last_checked == crate::ollama::checked_text(now)
        &&& self.error_message.is_none()
    }

    /// The status is `status`.
    pub open spec fn has_status(self, status: OllamaStatus) -> bool {
        &&& self.available == status.is_available
        &&& self.models == status.models@
        &&& self.last_checked == status.last_checked@
        &&& self.error_message == status.error_message
    }
}

impl View for AppState {
    type V = AppStateView;

    closed spec fn view(&self) -> AppStateView {
        AppStateView {
            config: self.ollama_config,
            available: self.ollama_status.is_available,
            models: self.ollama_status.models@,
            last_checked: self.ollama_status.last_checked@,
            error_message: self.ollama_status.error_message,
        }
    }
}

impl AppState {
    /// The default settings, and the status before any check.
    pub fn new() -> (state: Self)
        ensures
            state@.config.is_local_default(),
            exists|now: Timestamp| #[trigger] state@.is_unchecked(now),
    {
        let ollama_status = OllamaStatus::default();
        let ghost now = choose|now: Timestamp| #[trigger] ollama_status.is_unchecked(now);
        let state = AppState { ollama_config: OllamaConfig::default(), ollama_status };
        proof {
            assert(state@.is_unchecked(now));
        }
        state
    }

    /// The stored settings, and the status before any check: the status
    /// is never stored.
    pub fn from_snapshot(snapshot: AppConfigSnapshot) -> (state: Self)
        ensures
            state@.config == snapshot.ollama,
            exists|now: Timestamp| #[trigger] state@.is_unchecked(now),
    {
        let ollama_status = OllamaStatus::default();
        let ghost now = choose|now: Timestamp| #[trigger] ollama_status.is_unchecked(now);
        let state = AppState { ollama_config: snapshot.ollama, ollama_status };
        proof {
            assert(state@.is_unchecked(now));
        }
        state
    }

    /// A copy of the settings of the server.
    pub fn get_ollama_config(&self) -> (config: OllamaConfig)
        ensures
            config == self@.config,
    {
        self.ollama_config.clone()
    }

    /// Replaces the settings of the server and hands back what is to be
    /// stored. The status stays.
    pub fn set_ollama_config(&mut self, config: OllamaConfig) -> (snapshot: AppConfigSnapshot)
        ensures
            final(self)@ == (AppStateView { config: config, ..old(self)@ }),
            snapshot.ollama == config,
    {
        self.ollama_config = config;
        self.snapshot()
    }

    /// A copy of the status of the server.
    pub fn get_ollama_status(&self) -> (status: OllamaStatus)
        ensures
            self@.has_status(status),
    {
        self.ollama_status.clone()
    }

    /// Replaces the status of the server. The settings stay, and nothing
    /// is to be stored.
    pub fn set_ollama_status(&mut self, status: OllamaStatus)
        ensures
            final(self)@.config == old(self)@.config,
            final(self)@.has_status(status),
    {
        self.ollama_status = status;
    }

    /// The settings as they are to be stored: without the status.
    pub fn snapshot(&self) -> (snapshot: AppConfigSnapshot)
        ensures
            snapshot.ollama == self@.config,
    {
        AppConfigSnapshot { ollama: self.get_ollama_config() }
    }
}

impl Default for AppState {
    fn default() -> (state: Self)
        ensures
            state@.config.is_local_default(),
            exists|now: Timestamp| #[trigger] state@.is_unchecked(now),
    {
        Self::new()
    }
}

/// The state to start with, from what reading the stored settings gave:
/// the stored settings where there were any, else the default ones.
pub fn load_app_state(stored: Option<AppConfigSnapshot>) -> (state: AppState)
    ensures
        match stored {
            Some(snapshot) => state@.config == snapshot.ollama,
            None => state@.config.is_local_default(),
        },
        exists|now: Timestamp| #[trigger] state@.is_unchecked(now),
{
    match stored {
        Some(snapshot) => AppState::from_snapshot(snapshot),
        None => AppState::new(),
    }
}

} // verus!
