//! The state of the program behind its window: the settings being edited,
//! the password, the store of metrics, and the line of status that the
//! window shows. Each method is one thing that can happen to that state.

use crate::channel::EventChannel;
use crate::config::{AppConfig, ConfigError, ConfigPaths};
use crate::dashboard::{default_sections, normalized};
use crate::metric::EventView;
use crate::secrets::{delete_password, load_password, save_password, SecretError, SecretStage};
use crate::store::{applied_all, MetricsStore, Snapshot};
use vstd::prelude::*;
use vstd::string::StringExecFns;

verus! {

/// The state of the program, without its window and its threads.
#[derive(Debug)]
pub struct Air1App<V> {
    pub cfg_paths: ConfigPaths,
    pub cfg: AppConfig,
    pub password: Option<String>,
    /// The caller's clock, in seconds, when the settings were last saved.
    pub last_save: Option<u64>,
    pub keyring_unavailable: bool,
    /// Whether a connection test is under way.
    pub testing: bool,
    pub store: MetricsStore<V>,
}

/// What saving the settings does to the keyring.
#[derive(Clone, Copy, Debug, PartialEq, Eq, Structural)]
pub enum SecretAction {
    /// Store the password.
    Save,
    /// Delete what is stored.
    Delete,
    /// Leave the keyring alone.
    Nothing,
}

/// What the keyring owes the settings: the password is stored where it is
/// to be remembered and one is at hand, and deleted where it is not to be
/// remembered.
pub open spec fn secret_action_for(remember: bool, has_password: bool) -> SecretAction {
    if !remember {
        SecretAction::Delete
    } else if has_password {
        SecretAction::Save
    } else {
        SecretAction::Nothing
    }
}

/// The password and the keyring flag that the program starts with: where
/// the password is not remembered the keyring is not asked; where it is,
/// the stored password is taken, and a failure marks the keyring as
/// unavailable.
pub open spec fn initial_secret(
    remember: bool,
    lookup: Result<Option<String>, SecretError>,
) -> (Option<String>, bool) {
    if !remember {
        (None, false)
    } else {
        match lookup {
            Ok(secret) => (secret, false),
            Err(_) => (None, true),
        }
    }
}

/// The status after the settings were saved.
pub open spec fn saved_text() -> Seq<char> {
    "Saved settings"@
}

/// The status after saving failed with this error.
pub open spec fn save_failed_text(error: Seq<char>) -> Seq<char> {
    "Save failed: "@ + error
}

/// The status after a connection test that passed.
pub open spec fn test_passed_text() -> Seq<char> {
    "MQTT test succeeded"@
}

/// The status after a connection test that failed with this error.
pub open spec fn test_failed_text(error: Seq<char>) -> Seq<char> {
    "MQTT test failed: "@ + error
}

/// The status after the listener was stopped.
pub open spec fn stopped_text() -> Seq<char> {
    "MQTT stopped"@
}

/// The status after the stored password was deleted.
pub open spec fn forgotten_text() -> Seq<char> {
    "Removed saved password"@
}

/// The status after deleting the stored password failed with this error.
pub open spec fn forget_failed_text(error: Seq<char>) -> Seq<char> {
    "Could not remove password: "@ + error
}

/// The status where no configuration path could be had.
pub open spec fn path_error_text(error: ConfigError) -> Seq<char> {
    "Config path error: "@ + error.message_text()
}

impl<V> Air1App<V> {
    /// The state with the parts that a method leaves alone: paths,
    /// settings, password and keyring flag.
    pub open spec fn settings_kept(&self, before: &Self) -> bool {
        &&& self.cfg_paths == before.cfg_paths
        &&& self.cfg == before.cfg
        &&& self.password == before.password
        &&& self.keyring_unavailable == before.keyring_unavailable
    }

    /// The store with another line of status.
    pub open spec fn with_status(store: Snapshot<V>, status: Seq<char>) -> Snapshot<V> {
        Snapshot { status, ..store }
    }

    /// How the settings at start follow from what was read: a
    /// configuration that meets the conditions is taken, with its layout
    /// repaired; in every other case the default settings are.
    pub open spec fn settings_from(loaded: Option<AppConfig>, cfg: AppConfig) -> bool {
        if loaded is Some && loaded->0.mqtt.fault() is None {
            cfg.mqtt == loaded->0.mqtt && cfg.dashboard@ == normalized(loaded->0.dashboard@)
        } else {
            cfg.mqtt.is_default() && cfg.dashboard@ == default_sections()
        }
    }

    /// The state at start: the given settings and password, nothing saved
    /// or tested yet, an empty store.
    pub fn assemble(
        cfg_paths: ConfigPaths,
        cfg: AppConfig,
        password: Option<String>,
        keyring_unavailable: bool,
    ) -> (app: Self)
        ensures
            app.cfg_paths == cfg_paths,
            app.cfg == cfg,
            app.password == password,
            app.keyring_unavailable == keyring_unavailable,
            app.last_save is None,
            !app.testing,
            app.store@ == MetricsStore::<V>::fresh(),
    {
        Air1App {
            cfg_paths,
            cfg,
            password,
            last_save: None,
            keyring_unavailable,
            testing: false,
            store: MetricsStore::new(),
        }
    }

    /// The state where no configuration path could be had: the default
    /// settings, the error as status, and the keyring marked unavailable.
    pub fn without_paths(error: ConfigError) -> (app: Self)
        ensures
            app.password is None,
            app.keyring_unavailable,
            app.last_save is None,
            !app.testing,
            app.cfg.mqtt.is_default(),
            app.cfg.dashboard@ == default_sections(),
            app.store@ == Self::with_status(MetricsStore::<V>::fresh(), path_error_text(error)),
    {
        let mut app = Self::assemble(ConfigPaths::default(), AppConfig::default(), None, true);
        app.store.status = String::from_str("Config path error: ").concat(error.message());
        app
    }

    /// The password the program starts with, given what the keyring answered.
    pub fn secret_at_start(remember: bool, lookup: Result<Option<String>, SecretError>) -> (r: (
        Option<String>,
        bool,
    ))
        ensures
            r == initial_secret(remember, lookup),
    {
        if !remember {
            (None, false)
        } else {
            match lookup {
                Ok(secret) => (secret, false),
                Err(_) => (None, true),
            }
        }
    }

    /// The state at start with a configuration path. `loaded` is the
    /// configuration as read, or none where it could not be read: it is
    /// checked and repaired, and the default settings take its place where
    /// it is refused. The keyring is asked for the password where the
    /// settings say to remember it.
    pub fn start(cfg_paths: ConfigPaths, loaded: Option<AppConfig>) -> (app: Self)
        ensures
            app.cfg_paths == cfg_paths,
            app.cfg.mqtt.fault() is None,
            Self::settings_from(loaded, app.cfg),
            !app.cfg.mqtt.remember_password ==> app.password is None && !app.keyring_unavailable,
            app.keyring_unavailable ==> app.password is None,
            app.last_save is None,
            !app.testing,
            app.store@ == MetricsStore::<V>::fresh(),
    {
        let cfg = match loaded {
            Some(cfg) => match cfg.checked() {
                Ok(cfg) => cfg,
                Err(_) => AppConfig::default(),
            },
            None => AppConfig::default(),
        };
        let (password, keyring_unavailable) = if cfg.mqtt.remember_password {
            Self::secret_at_start(true, load_password())
        } else {
            (None, false)
        };
        Self::assemble(cfg_paths, cfg, password, keyring_unavailable)
    }

    /// The state at start. `paths` is where the configuration lies, or why
    /// that cannot be said; `loaded` is the configuration as read from
    /// there, or none where it could not be read.
    pub fn init(paths: Result<ConfigPaths, ConfigError>, loaded: Option<AppConfig>) -> (app: Self)
        ensures
            app.last_save is None,
            !app.testing,
            app.keyring_unavailable ==> app.password is None,
            match paths {
                Ok(cfg_paths) => {
                    &&& app.cfg_paths == cfg_paths
                    &&& Self::settings_from(loaded, app.cfg)
                    &&& !app.cfg.mqtt.remember_password ==> app.password is None
                        && !app.keyring_unavailable
                    &&& app.store@ == MetricsStore::<V>::fresh()
                },
                Err(error) => {
                    &&& app.keyring_unavailable
                    &&& Self::settings_from(None, app.cfg)
                    &&& app.store@ == Self::with_status(
                        MetricsStore::<V>::fresh(),
                        path_error_text(error),
                    )
                },
            },
    {
        match paths {
            Ok(cfg_paths) => Self::start(cfg_paths, loaded),
            Err(error) => Self::without_paths(error),
        }
    }

    /// What saving the settings does to the keyring.
    pub fn secret_action(&self) -> (action: SecretAction)
        ensures
            action == secret_action_for(self.cfg.mqtt.remember_password, self.password is Some),
    {
        if !self.cfg.mqtt.remember_password {
            SecretAction::Delete
        } else if self.password.is_some() {
            SecretAction::Save
        } else {
            SecretAction::Nothing
        }
    }

    /// Brings the keyring in line with the settings. Where the keyring is
    /// left alone this succeeds; else it fails only as the keyring does, in
    /// opening the entry or in what was to be done with it.
    pub fn store_secret(&self) -> (r: Result<(), SecretError>)
        ensures
            match secret_action_for(self.cfg.mqtt.remember_password, self.password is Some) {
                SecretAction::Nothing => r is Ok,
                SecretAction::Save => r is Err ==> r->Err_0.stage == SecretStage::Open
                    || r->Err_0.stage == SecretStage::Write,
                SecretAction::Delete => r is Err ==> r->Err_0.stage == SecretStage::Open
                    || r->Err_0.stage == SecretStage::Delete,
            },
    {
        match self.secret_action() {
            SecretAction::Save => match self.secret_to_save() {
                Some(secret) => save_password(secret),
                None => Ok(()),
            },
            SecretAction::Delete => delete_password(),
            SecretAction::Nothing => Ok(()),
        }
    }

    /// The password that saving the settings hands to the keyring: the
    /// one at hand, where it is to be remembered; none in every other case.
    pub fn secret_to_save(&self) -> (secret: Option<&str>)
        ensures
            match secret {
                Some(text) => {
                    &&& self.cfg.mqtt.remember_password
                    &&& self.password is Some
                    &&& text@ == self.password->0@
                },
                None => !self.cfg.mqtt.remember_password || self.password is None,
            },
    {
        if !self.cfg.mqtt.remember_password {
            return None;
        }
        match &self.password {
            Some(secret) => Some(secret.as_str()),
            None => None,
        }
    }

    /// Notes how saving the settings went, at time `now`.
    pub fn saved(&mut self, outcome: Result<(), String>, now: u64)
        ensures
            final(self).settings_kept(old(self)),
            final(self).testing == old(self).testing,
            match outcome {
                Ok(_) => {
                    &&& final(self).last_save == Some(now)
                    &&& final(self).store@ == Self::with_status(old(self).store@, saved_text())
                },
                Err(error) => {
                    &&& final(self).last_save == old(self).last_save
                    &&& final(self).store@ == Self::with_status(
                        old(self).store@,
                        save_failed_text(error@),
                    )
                },
            },
    {
        match outcome {
            Ok(_) => {
                self.store.status = String::from_str("Saved settings");
                self.last_save = Some(now);
            },
            Err(error) => {
                self.store.status = String::from_str("Save failed: ").concat(error.as_str());
            },
        }
    }

    /// Notes that a connection test begins.
    pub fn test_started(&mut self)
        ensures
            final(self).settings_kept(old(self)),
            final(self).last_save == old(self).last_save,
            final(self).testing,
            final(self).store@ == Self::with_status(old(self).store@, "Testing connection..."@),
    {
        self.store.status = String::from_str("Testing connection...");
        self.testing = true;
    }

    /// Notes how a connection test ended.
    pub fn test_finished(&mut self, outcome: Result<(), String>)
        ensures
            final(self).settings_kept(old(self)),
            final(self).last_save == old(self).last_save,
            !final(self).testing,
            final(self).store@ == Self::with_status(
                old(self).store@,
                match outcome {
                    Ok(_) => test_passed_text(),
                    Err(error) => test_failed_text(error@),
                },
            ),
    {
        self.testing = false;
        match outcome {
            Ok(_) => {
                self.store.status = String::from_str("MQTT test succeeded");
            },
            Err(error) => {
                self.store.status = String::from_str("MQTT test failed: ").concat(error.as_str());
            },
        }
    }

    /// Takes every event that waits in the channel into the store, oldest first.
    pub fn poll_mqtt(&mut self, channel: &mut EventChannel<V>, now: u64)
        ensures
            final(self).settings_kept(old(self)),
            final(self).last_save == old(self).last_save,
            final(self).testing == old(self).testing,
            final(self).store@ == applied_all(old(self).store@, old(channel)@.queued, now),
            final(channel)@.queued == Seq::<EventView<V>>::empty(),
            final(channel)@.closed == old(channel)@.closed,
    {
        self.store.poll(channel, now);
    }

    /// Checks that the listener can start: a password is at hand where a
    /// user name is set. The status says how it went.
    pub fn start_requested(&mut self) -> (r: Result<(), ConfigError>)
        ensures
            final(self).settings_kept(old(self)),
            final(self).last_save == old(self).last_save,
            final(self).testing == old(self).testing,
            r is Ok <==> !(old(self).cfg.mqtt.username is Some && old(self).password is None),
            r is Err ==> r == Err::<(), ConfigError>(ConfigError::MissingPassword),
            final(self).store@ == Self::with_status(
                old(self).store@,
                if r is Ok {
                    "Starting MQTT listener..."@
                } else {
                    ConfigError::MissingPassword.message_text()
                },
            ),
    {
        if self.cfg.mqtt.username.is_some() && self.password.is_none() {
            self.store.status = String::from_str(ConfigError::MissingPassword.message());
            Err(ConfigError::MissingPassword)
        } else {
            self.store.status = String::from_str("Starting MQTT listener...");
            Ok(())
        }
    }

    /// Notes that the listener was stopped.
    pub fn stopped(&mut self)
        ensures
            final(self).settings_kept(old(self)),
            final(self).last_save == old(self).last_save,
            final(self).testing == old(self).testing,
            final(self).store@ == (Snapshot {
                connected: false,
                status: stopped_text(),
                ..old(self).store@
            }),
    {
        self.store.connected = false;
        self.store.status = String::from_str("MQTT stopped");
    }

    /// Notes how deleting the stored password went: where it is gone the
    /// password is forgotten and no longer remembered.
    pub fn password_forgotten(&mut self, outcome: Result<(), SecretError>)
        ensures
            final(self).cfg_paths == old(self).cfg_paths,
            final(self).keyring_unavailable == old(self).keyring_unavailable,
            final(self).last_save == old(self).last_save,
            final(self).testing == old(self).testing,
            final(self).cfg.dashboard == old(self).cfg.dashboard,
            match outcome {
                Ok(_) => {
                    &&& final(self).password is None
                    &&& !final(self).cfg.mqtt.remember_password
                    &&& final(self).cfg.mqtt == (crate::config::MqttConfig {
                        remember_password: false,
                        ..old(self).cfg.mqtt
                    })
                    &&& final(self).store@ == Self::with_status(old(self).store@, forgotten_text())
                },
                Err(error) => {
                    &&& final(self).password == old(self).password
                    &&& final(self).cfg == old(self).cfg
                    &&& final(self).store@ == Self::with_status(
                        old(self).store@,
                        forget_failed_text(error.message_text()),
                    )
                },
            },
    {
        match outcome {
            Ok(_) => {
                self.password = None;
                self.cfg.mqtt.remember_password = false;
                self.store.status = String::from_str("Removed saved password");
            },
            Err(error) => {
                self.store.status = String::from_str("Could not remove password: ").concat(
                    error.message().as_str(),
                );
            },
        }
    }

    /// Deletes the stored password and notes how it went: either the
    /// password is forgotten, or the keyring failed and nothing but the
    /// status has changed.
    pub fn forget_password(&mut self)
        ensures
            final(self).cfg_paths == old(self).cfg_paths,
            final(self).keyring_unavailable == old(self).keyring_unavailable,
            final(self).last_save == old(self).last_save,
            final(self).testing == old(self).testing,
            final(self).cfg.dashboard == old(self).cfg.dashboard,
            ({
                &&& final(self).password is None
                &&& final(self).cfg.mqtt == (crate::config::MqttConfig {
                    remember_password: false,
                    ..old(self).cfg.mqtt
                })
                &&& final(self).store@ == Self::with_status(old(self).store@, forgotten_text())
            }) || ({
                &&& final(self).password == old(self).password
                &&& final(self).cfg == old(self).cfg
                &&& exists|error: SecretError|
                    final(self).store@ == Self::with_status(
                        old(self).store@,
                        forget_failed_text(#[trigger] error.message_text()),
                    ) && (error.stage == SecretStage::Open || error.stage == SecretStage::Delete)
            }),
    {
        let outcome = delete_password();
        let ghost failure = outcome;
        self.password_forgotten(outcome);
        proof {
            if failure is Err {
                assert(self.store@ == Self::with_status(
                    old(self).store@,
                    forget_failed_text(failure->Err_0.message_text()),
                ));
            }
        }
    }

    /// Takes the choice whether to remember the password. Returns whether
    /// the settings are to be saved now: not where a password is to be
    /// remembered and none is at hand, which the status then asks for.
    pub fn remember_chosen(&mut self, remember: bool) -> (save_now: bool)
        ensures
            final(self).cfg_paths == old(self).cfg_paths,
            final(self).password == old(self).password,
            final(self).keyring_unavailable == old(self).keyring_unavailable,
            final(self).last_save == old(self).last_save,
            final(self).testing == old(self).testing,
            final(self).cfg.dashboard == old(self).cfg.dashboard,
            final(self).cfg.mqtt == (crate::config::MqttConfig {
                remember_password: remember,
                ..old(self).cfg.mqtt
            }),
            save_now == !(remember && old(self).password is None),
            final(self).store@ == if save_now {
                old(self).store@
            } else {
                Self::with_status(old(self).store@, "Enter a password to store"@)
            },
    {
        self.cfg.mqtt.remember_password = remember;
        if remember && self.password.is_none() {
            self.store.status = String::from_str("Enter a password to store");
            false
        } else {
            true
        }
    }
}

impl<V> Default for Air1App<V> {
    /// The state before anything is loaded: default paths and settings, no
    /// password, an empty store.
    fn default() -> (app: Self)
        ensures
            app.password is None,
            !app.keyring_unavailable,
            app.last_save is None,
            !app.testing,
            app.cfg.mqtt.is_default(),
            app.cfg.dashboard@ == default_sections(),
            app.store@ == MetricsStore::<V>::fresh(),
    {
        Self::assemble(ConfigPaths::default(), AppConfig::default(), None, false)
    }
}

} // verus!
