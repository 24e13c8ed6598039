//! Connection settings: their defaults and the conditions a loaded
//! configuration has to meet.

use crate::dashboard::{default_sections, normalized, DashboardConfig};
use crate::text::{blank, is_blank};
use std::path::PathBuf;
use vstd::prelude::*;
use vstd::string::StringExecFns;

verus! {

/// A path of the file system, carried through and never looked into.
#[verifier::external_type_specification]
#[verifier::external_body]
pub struct ExPathBuf(std::path::PathBuf);

/// The directories that the platform assigns to a project.
#[verifier::external_type_specification]
#[verifier::external_body]
pub struct ExProjectDirs(directories::ProjectDirs);

/// Why a configuration is refused.
#[derive(Clone, Copy, Debug, PartialEq, Eq, Structural)]
pub enum ConfigError {
    /// The platform names no directory for configuration files.
    NoConfigDir,
    /// The host is empty.
    EmptyHost,
    /// The port is 0.
    PortOutOfRange,
    /// The quality of service is above 2.
    QosOutOfRange,
    /// The keepalive is 0 seconds.
    KeepaliveZero,
    /// A user name is set and no password is given.
    MissingPassword,
}

impl ConfigError {
    /// The error in words.
    pub open spec fn message_text(self) -> Seq<char> {
        match self {
            ConfigError::NoConfigDir => "could not determine XDG config dir"@,
            ConfigError::EmptyHost => "host must not be empty"@,
            ConfigError::PortOutOfRange => "port must be between 1 and 65535"@,
            ConfigError::QosOutOfRange => "QoS must be 0, 1 or 2"@,
            ConfigError::KeepaliveZero => "keepalive must be at least 1 second"@,
            ConfigError::MissingPassword => "Password required when username is set"@,
        }
    }

    /// The error in words.
    pub fn message(self) -> (text: &'static str)
        ensures
            text@ == self.message_text(),
    {
        match self {
            ConfigError::NoConfigDir => "could not determine XDG config dir",
            ConfigError::EmptyHost => "host must not be empty",
            ConfigError::PortOutOfRange => "port must be between 1 and 65535",
            ConfigError::QosOutOfRange => "QoS must be 0, 1 or 2",
            ConfigError::KeepaliveZero => "keepalive must be at least 1 second",
            ConfigError::MissingPassword => "Password required when username is set",
        }
    }
}

/// How to reach the broker and what to subscribe to.
#[derive(Debug, Clone, PartialEq, Eq)]
pub struct MqttConfig {
    pub host: String,
    pub port: u16,
    pub tls: bool,
    pub ca_path: Option<PathBuf>,
    pub client_id: Option<String>,
    pub username: Option<String>,
    pub topic_prefix: Option<String>,
    pub qos: u8,
    pub keepalive_secs: u16,
    pub remember_password: bool,
}

/// The view of an optional text.
pub open spec fn text_of(t: Option<String>) -> Option<Seq<char>> {
    match t {
        Some(s) => Some(s@),
        None => None,
    }
}

/// A setting as it was typed: absent where the text is blank, else the
/// text as it stands.
pub fn optional_text(text: String) -> (setting: Option<String>)
    ensures
        setting == if blank(text@) {
            None::<String>
        } else {
            Some(text)
        },
{
    if is_blank(text.as_str()) {
        None
    } else {
        Some(text)
    }
}

impl MqttConfig {
    /// The settings that this program starts with: a broker on this
    /// machine, without TLS, user or password.
    pub open spec fn is_default(&self) -> bool {
        &&& self.host@ == "localhost"@
        &&& self.port == 1883
        &&& !self.tls
        &&& self.ca_path is None
        &&& text_of(self.client_id) == Some("air1-monitor"@)
        &&& self.username is None
        &&& self.topic_prefix is None
        &&& self.qos == 0
        &&& self.keepalive_secs == 30
        &&& !self.remember_password
    }
}

impl Default for MqttConfig {
    fn default() -> (cfg: Self)
        ensures
            cfg.is_default(),
            cfg.fault() is None,
    {
        proof {
            reveal_strlit("localhost");
        }
        MqttConfig {
            host: String::from_str("localhost"),
            port: 1883,
            tls: false,
            ca_path: None,
            client_id: Some(String::from_str("air1-monitor")),
            username: None,
            topic_prefix: None,
            qos: 0,
            keepalive_secs: 30,
            remember_password: false,
        }
    }
}

impl MqttConfig {
    /// The first condition that the settings fail, if any: the host is not
    /// empty, the port is not 0, the quality of service is at most 2 and the
    /// keepalive is not 0.
    pub open spec fn fault(&self) -> Option<ConfigError> {
        if self.host@.len() == 0 {
            Some(ConfigError::EmptyHost)
        } else if self.port == 0 {
            Some(ConfigError::PortOutOfRange)
        } else if self.qos > 2 {
            Some(ConfigError::QosOutOfRange)
        } else if self.keepalive_secs == 0 {
            Some(ConfigError::KeepaliveZero)
        } else {
            None
        }
    }

    /// Checks the settings as they come from a configuration file.
    pub fn validate(&self) -> (r: Result<(), ConfigError>)
        ensures
            match r {
                Ok(_) => self.fault() is None,
                Err(e) => self.fault() == Some(e),
            },
    {
        if self.host.as_str().is_empty() {
            Err(ConfigError::EmptyHost)
        } else if self.port == 0 {
            Err(ConfigError::PortOutOfRange)
        } else if self.qos > 2 {
            Err(ConfigError::QosOutOfRange)
        } else if self.keepalive_secs == 0 {
            Err(ConfigError::KeepaliveZero)
        } else {
            Ok(())
        }
    }

    /// Checks that a password is at hand where a user name is set.
    pub fn check_credentials(&self, password: Option<&str>) -> (r: Result<(), ConfigError>)
        ensures
            r == if self.username is Some && password is None {
                Err::<(), ConfigError>(ConfigError::MissingPassword)
            } else {
                Ok(())
            },
    {
        if self.username.is_some() && password.is_none() {
            Err(ConfigError::MissingPassword)
        } else {
            Ok(())
        }
    }
}

/// Everything the configuration file holds.
#[derive(Debug, Clone, PartialEq, Eq)]
pub struct AppConfig {
    pub mqtt: MqttConfig,
    pub dashboard: DashboardConfig,
}

impl Default for AppConfig {
    /// The default settings with the built-in layout.
    fn default() -> (cfg: Self)
        ensures
            cfg.mqtt.is_default(),
            cfg.mqtt.fault() is None,
            cfg.dashboard@ == default_sections(),
    {
        AppConfig { mqtt: MqttConfig::default(), dashboard: DashboardConfig::default() }
    }
}

impl AppConfig {
    /// What a configuration that was read from a file becomes: refused where
    /// the connection settings fail a condition, else taken with its layout
    /// repaired.
    pub fn checked(self) -> (r: Result<AppConfig, ConfigError>)
        ensures
            match r {
                Ok(cfg) => {
                    &&& self.mqtt.fault() is None
                    &&& cfg.mqtt == self.mqtt
                    &&& cfg.dashboard@ == normalized(self.dashboard@)
                },
                Err(e) => self.mqtt.fault() == Some(e),
            },
    {
        match self.mqtt.validate() {
            Ok(_) => Ok(AppConfig { mqtt: self.mqtt, dashboard: self.dashboard.normalize() }),
            Err(e) => Err(e),
        }
    }
}

/// Where the configuration file lies.
#[derive(Debug)]
pub struct ConfigPaths {
    pub config_file: PathBuf,
}

/// Asks `directories::ProjectDirs::from` for the project's directories.
/// There are none where the platform knows no home directory for the user;
/// which directories come back is the platform's to say, so nothing is
/// promised of them.
#[verifier::external_body]
fn project_dirs(qualifier: &str, organization: &str, application: &str) -> (dirs: Option<
    directories::ProjectDirs,
>) {
    directories::ProjectDirs::from(qualifier, organization, application)
}

/// `directories::ProjectDirs::config_dir`: the project's directory for
/// configuration files, copied into a path of its own.
#[verifier::external_body]
fn config_dir(dirs: &directories::ProjectDirs) -> (dir: PathBuf) {
    dirs.config_dir().to_path_buf()
}

/// `std::path::Path::join`: the path of `name` below `dir`. Nothing is
/// promised of the result.
#[verifier::external_body]
fn path_join(dir: &PathBuf, name: &str) -> (path: PathBuf) {
    dir.join(name)
}

/// `PathBuf::from`: the path that a text names. Nothing is promised of the
/// result.
#[verifier::external_body]
fn path_from(text: &str) -> (path: PathBuf) {
    PathBuf::from(text)
}

impl ConfigPaths {
    /// The configuration file below a directory for configuration files, or
    /// the error where the platform names none.
    pub fn in_dir(dir: Option<PathBuf>) -> (r: Result<ConfigPaths, ConfigError>)
        ensures
            dir is Some <==> r is Ok,
            r is Err ==> r == Err::<ConfigPaths, ConfigError>(ConfigError::NoConfigDir),
    {
        match dir {
            Some(dir) => Ok(ConfigPaths { config_file: path_join(&dir, "config.toml") }),
            None => Err(ConfigError::NoConfigDir),
        }
    }

    /// The configuration file in the directory that the platform assigns to
    /// this program.
    pub fn new() -> (r: Result<ConfigPaths, ConfigError>)
        ensures
            r is Err ==> r == Err::<ConfigPaths, ConfigError>(ConfigError::NoConfigDir),
    {
        let dir = match project_dirs("com", "air1", "monitor") {
            Some(dirs) => Some(config_dir(&dirs)),
            None => None,
        };
        ConfigPaths::in_dir(dir)
    }
}

impl Default for ConfigPaths {
    /// The paths of [`ConfigPaths::new`]; where the platform names no
    /// directory, a file in the working directory.
    fn default() -> ConfigPaths {
        match ConfigPaths::new() {
            Ok(paths) => paths,
            Err(_) => ConfigPaths { config_file: path_from("config.toml") },
        }
    }
}

} // verus!
