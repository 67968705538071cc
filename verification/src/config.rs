//! The configuration of the adapter, and how it follows from the command line.
use std::path::PathBuf;
use vstd::prelude::*;
use vstd::string::StringExecFns;

use crate::error::{AppError, AppResult, Fault};
use crate::text::{push_decimal, replace_char, trim, trim_char, trim_end_char};
use crate::text::{decimal, drop_back, drop_ends, replaced, trimmed};
use crate::time::{TimeSpan, NANOS_PER_SECOND};

verus! {

broadcast use vstd::string::group_string_axioms;

pub const DEFAULT_MQTT_PORT: u16 = 1883;

pub const DEFAULT_INTERVAL_SECONDS: u64 = 60;

pub const DEFAULT_HTTP_TIMEOUT_MILLIS: u64 = 15_000;

pub const DEFAULT_RECONNECT_INITIAL_DELAY_MILLIS: u64 = 2_000;

pub const DEFAULT_RECONNECT_MAX_DELAY_MILLIS: u64 = 60_000;

pub const DEFAULT_STATS_INTERVAL_MILLIS: u64 = 300_000;

pub const DEFAULT_DISCOVERY_PREFIX: &'static str = "homeassistant";

pub const DEFAULT_TOPIC_PREFIX: &'static str = "qendercore";

pub const DEFAULT_CLIENT_ID: &'static str = "qendercore-rs-mqtt-adapter";

pub const DEFAULT_CACHE_DIR: &'static str = ".cache";

pub const DEFAULT_API_URL: &'static str = "https://auth.qendercore.com:8000/v1";

/// A path of the file system. It is carried through as it is.
#[verifier::external_type_specification]
#[verifier::external_body]
pub struct ExPathBuf(PathBuf);

/// A copy of a path is the same path.
pub assume_specification[ <PathBuf as Clone>::clone ](path: &PathBuf) -> (copy: PathBuf)
    ensures
        copy == *path,
;

/// A file that holds a secret: its path in words, and its text or the words of the error
/// that reading it gave.
#[derive(Debug)]
pub struct SecretFile {
    pub path: String,
    pub content: Result<String, String>,
}

/// What the command line says.
#[derive(Debug)]
pub struct CliArgs {
    pub qc_login: String,
    pub qc_password: Option<String>,
    pub qc_password_file: Option<SecretFile>,
    pub qc_api_url: String,
    pub cache_dir: PathBuf,
    pub http_timeout_millis: u64,
    pub mqtt_host: String,
    pub mqtt_port: u16,
    pub mqtt_user: Option<String>,
    pub mqtt_password: Option<String>,
    pub mqtt_password_file: Option<SecretFile>,
    pub discovery_prefix: String,
    pub topic_prefix: String,
    pub client_id: String,
    pub interval_seconds: u64,
    pub reconnect_initial_delay_millis: u64,
    pub reconnect_max_delay_millis: u64,
    pub stats_interval_millis: u64,
}

/// The configuration of the adapter.
#[derive(Debug)]
pub struct AppConfig {
    pub qcore: QcoreConfig,
    pub mqtt: MqttConfig,
    pub polling: PollingConfig,
    pub reconnect: ReconnectConfig,
    pub stats: StatsConfig,
}

/// The account at the service, and how the service is reached.
#[derive(Debug)]
pub struct QcoreConfig {
    pub api_url: String,
    pub login: String,
    pub password: String,
    pub cache_dir: PathBuf,
    pub http_timeout: TimeSpan,
}

/// The broker, and the topics that the adapter uses there.
#[derive(Debug)]
pub struct MqttConfig {
    pub host: String,
    pub port: u16,
    pub username: Option<String>,
    pub password: Option<String>,
    pub discovery_prefix: String,
    pub topic_prefix: String,
    pub client_id: String,
}

/// How often the service is asked.
#[derive(Debug, Clone, Copy)]
pub struct PollingConfig {
    pub interval: TimeSpan,
}

/// How long the adapter waits before it connects again.
#[derive(Debug, Clone, Copy)]
pub struct ReconnectConfig {
    pub initial_delay: TimeSpan,
    pub max_delay: TimeSpan,
}

/// How often the counters are reported.
#[derive(Debug, Clone, Copy)]
pub struct StatsConfig {
    pub interval: TimeSpan,
}

impl Clone for QcoreConfig {
    fn clone(&self) -> (copy: Self)
        ensures
            copy.api_url@ == self.api_url@,
            copy.login@ == self.login@,
            copy.password@ == self.password@,
            copy.cache_dir == self.cache_dir,
            copy.http_timeout == self.http_timeout,
    {
        QcoreConfig {
            api_url: self.api_url.clone(),
            login: self.login.clone(),
            password: self.password.clone(),
            cache_dir: self.cache_dir.clone(),
            http_timeout: self.http_timeout,
        }
    }
}

impl Clone for MqttConfig {
    fn clone(&self) -> (copy: Self)
        ensures
            copy.host@ == self.host@,
            copy.port == self.port,
            optional(copy.username) == optional(self.username),
            optional(copy.password) == optional(self.password),
            copy.discovery_prefix@ == self.discovery_prefix@,
            copy.topic_prefix@ == self.topic_prefix@,
            copy.client_id@ == self.client_id@,
    {
        let username = match &self.username {
            Some(text) => Some(text.clone()),
            None => None,
        };
        let password = match &self.password {
            Some(text) => Some(text.clone()),
            None => None,
        };
        MqttConfig {
            host: self.host.clone(),
            port: self.port,
            username,
            password,
            discovery_prefix: self.discovery_prefix.clone(),
            topic_prefix: self.topic_prefix.clone(),
            client_id: self.client_id.clone(),
        }
    }
}

/// The characters of a text that may be missing.
pub open spec fn optional(text: Option<String>) -> Option<Seq<char>> {
    match text {
        Some(inner) => Some(inner@),
        None => None,
    }
}

/// Whether nothing but white space stands in a text.
pub open spec fn blank(text: Seq<char>) -> bool {
    trimmed(text).len() == 0
}

/// A topic segment: no white space and then no slash at its ends.
pub open spec fn segment(text: Seq<char>) -> Seq<char> {
    drop_ends(trimmed(text), set!['/'])
}

/// The error in the configuration that these words describe.
pub open spec fn refused(words: Seq<char>) -> Fault {
    Fault::InvalidConfig(words)
}

/// The secret that is given inline or by a file, or what is wrong with it.
pub open spec fn secret(
    field_name: Seq<char>,
    inline: Option<String>,
    file: Option<SecretFile>,
) -> Result<Option<Seq<char>>, Fault> {
    match (inline, file) {
        (Some(_), Some(_)) => {
            let option = replaced(field_name, '_', '-');
            Err(
                refused(
                    "use either --"@ + option + "/--"@ + option + "-file but not both"@,
                ),
            )
        },
        (Some(value), None) => Ok(Some(value@)),
        (None, Some(file)) => match file.content {
            Ok(content) => if blank(content@) {
                Err(refused(field_name + " file "@ + file.path@ + " was empty"@))
            } else {
                Ok(Some(trimmed(content@)))
            },
            Err(words) => Err(Fault::Io(words@)),
        },
        (None, None) => Ok(None),
    }
}

impl CliArgs {
    /// The first thing that is wrong with the plain settings.
    pub open spec fn setting_fault(self) -> Option<Fault> {
        if blank(self.qc_login@) {
            Some(refused("qc_login cannot be empty"@))
        } else if blank(self.qc_api_url@) {
            Some(refused("qc_api_url cannot be empty"@))
        } else if blank(self.mqtt_host@) {
            Some(refused("mqtt_host cannot be empty"@))
        } else if self.http_timeout_millis == 0 {
            Some(refused("http_timeout_millis must be greater than zero"@))
        } else if self.interval_seconds == 0 {
            Some(refused("interval_seconds must be greater than zero"@))
        } else if self.reconnect_initial_delay_millis == 0 {
            Some(refused("reconnect_initial_delay_millis must be greater than zero"@))
        } else if self.reconnect_max_delay_millis == 0 {
            Some(refused("reconnect_max_delay_millis must be greater than zero"@))
        } else if self.reconnect_initial_delay_millis > self.reconnect_max_delay_millis {
            Some(
                refused(
                    "reconnect initial delay "@ + decimal(
                        self.reconnect_initial_delay_millis as nat,
                    ) + " cannot be greater than reconnect max delay "@ + decimal(
                        self.reconnect_max_delay_millis as nat,
                    ),
                ),
            )
        } else if self.stats_interval_millis == 0 {
            Some(refused("stats_interval_millis must be greater than zero"@))
        } else {
            None
        }
    }

    /// The password of the account, or what is wrong with it.
    pub open spec fn account_secret(self) -> Result<Option<Seq<char>>, Fault> {
        secret("qc_password"@, self.qc_password, self.qc_password_file)
    }

    /// The password for the broker, or what is wrong with it.
    pub open spec fn broker_secret(self) -> Result<Option<Seq<char>>, Fault> {
        secret("mqtt_password"@, self.mqtt_password, self.mqtt_password_file)
    }

    /// The first thing that is wrong with the passwords.
    pub open spec fn secret_fault(self) -> Option<Fault> {
        match self.account_secret() {
            Err(fault) => Some(fault),
            Ok(None) => Some(
                refused("either --qc-password or --qc-password-file must be provided"@),
            ),
            Ok(Some(_)) => match self.broker_secret() {
                Err(fault) => Some(fault),
                Ok(Some(_)) if self.mqtt_user is None => Some(
                    refused("mqtt password requires --mqtt-user"@),
                ),
                Ok(_) => None,
            },
        }
    }

    /// The first thing that is wrong with the topics.
    pub open spec fn topic_fault(self) -> Option<Fault> {
        if segment(self.discovery_prefix@).len() == 0 {
            Some(refused("discovery prefix"@ + " cannot be empty"@))
        } else if segment(self.topic_prefix@).len() == 0 {
            Some(refused("topic prefix"@ + " cannot be empty"@))
        } else {
            None
        }
    }

    /// The first thing that is wrong with the command line.
    pub open spec fn fault(self) -> Option<Fault> {
        if self.setting_fault() is Some {
            self.setting_fault()
        } else if self.secret_fault() is Some {
            self.secret_fault()
        } else {
            self.topic_fault()
        }
    }

    /// Whether a configuration says what the command line says.
    pub open spec fn described_by(self, config: AppConfig) -> bool {
        &&& config.qcore.api_url@ == drop_back(trimmed(self.qc_api_url@), set!['/'])
        &&& config.qcore.login@ == trimmed(self.qc_login@)
        &&& self.account_secret() == Ok::<Option<Seq<char>>, Fault>(Some(config.qcore.password@))
        &&& config.qcore.cache_dir == self.cache_dir
        &&& config.qcore.http_timeout@ == self.http_timeout_millis * 1_000_000
        &&& config.mqtt.host@ == trimmed(self.mqtt_host@)
        &&& config.mqtt.port == self.mqtt_port
        &&& optional(config.mqtt.username) == (match self.mqtt_user {
            Some(user) => Some(trimmed(user@)),
            None => None,
        })
        &&& self.broker_secret() == Ok::<Option<Seq<char>>, Fault>(optional(config.mqtt.password))
        &&& config.mqtt.discovery_prefix@ == segment(self.discovery_prefix@)
        &&& config.mqtt.topic_prefix@ == segment(self.topic_prefix@)
        &&& config.mqtt.client_id@ == trimmed(self.client_id@)
        &&& config.polling.interval@ == self.interval_seconds * NANOS_PER_SECOND
        &&& config.reconnect.initial_delay@ == self.reconnect_initial_delay_millis * 1_000_000
        &&& config.reconnect.max_delay@ == self.reconnect_max_delay_millis * 1_000_000
        &&& config.stats.interval@ == self.stats_interval_millis * 1_000_000
    }

    /// Checks the plain settings.
    fn check_settings(&self) -> (result: AppResult<()>)
        ensures
            match result {
                Ok(_) => self.setting_fault() is None,
                Err(error) => self.setting_fault() == Some(error@),
            },
    {
        if is_blank(self.qc_login.as_str()) {
            return Err(AppError::InvalidConfig("qc_login cannot be empty".to_string()));
        }
        if is_blank(self.qc_api_url.as_str()) {
            return Err(AppError::InvalidConfig("qc_api_url cannot be empty".to_string()));
        }
        if is_blank(self.mqtt_host.as_str()) {
            return Err(AppError::InvalidConfig("mqtt_host cannot be empty".to_string()));
        }
        if self.http_timeout_millis == 0 {
            return Err(
                AppError::InvalidConfig("http_timeout_millis must be greater than zero".to_string()),
            );
        }
        if self.interval_seconds == 0 {
            return Err(
                AppError::InvalidConfig("interval_seconds must be greater than zero".to_string()),
            );
        }
        if self.reconnect_initial_delay_millis == 0 {
            return Err(
                AppError::InvalidConfig(
                    "reconnect_initial_delay_millis must be greater than zero".to_string(),
                ),
            );
        }
        if self.reconnect_max_delay_millis == 0 {
            return Err(
                AppError::InvalidConfig(
                    "reconnect_max_delay_millis must be greater than zero".to_string(),
                ),
            );
        }
        if self.reconnect_initial_delay_millis > self.reconnect_max_delay_millis {
            let mut text = "reconnect initial delay ".to_string();
            push_decimal(&mut text, self.reconnect_initial_delay_millis);
            text.append(" cannot be greater than reconnect max delay ");
            push_decimal(&mut text, self.reconnect_max_delay_millis);
            return Err(AppError::InvalidConfig(text));
        }
        if self.stats_interval_millis == 0 {
            return Err(
                AppError::InvalidConfig(
                    "stats_interval_millis must be greater than zero".to_string(),
                ),
            );
        }
        Ok(())
    }

    /// The configuration that the command line describes, or the first thing that is wrong
    /// with it.
    pub fn into_config(self) -> (result: AppResult<AppConfig>)
        ensures
            match result {
                Ok(config) => self.fault() is None && self.described_by(config),
                Err(error) => self.fault() == Some(error@),
            },
    {
        if let Err(error) = self.check_settings() {
            return Err(error);
        }
        let qc_password = match load_secret("qc_password", self.qc_password, self.qc_password_file) {
            Ok(Some(password)) => password,
            Ok(None) => {
                return Err(
                    AppError::InvalidConfig(
                        "either --qc-password or --qc-password-file must be provided".to_string(),
                    ),
                );
            },
            Err(error) => {
                return Err(error);
            },
        };
        let mqtt_password = match load_secret(
            "mqtt_password",
            self.mqtt_password,
            self.mqtt_password_file,
        ) {
            Ok(password) => password,
            Err(error) => {
                return Err(error);
            },
        };
        if mqtt_password.is_some() && self.mqtt_user.is_none() {
            return Err(AppError::InvalidConfig("mqtt password requires --mqtt-user".to_string()));
        }
        let discovery_prefix = match normalize_topic_segment(
            self.discovery_prefix.as_str(),
            "discovery prefix",
        ) {
            Ok(segment) => segment,
            Err(error) => {
                return Err(error);
            },
        };
        let topic_prefix = match normalize_topic_segment(
            self.topic_prefix.as_str(),
            "topic prefix",
        ) {
            Ok(segment) => segment,
            Err(error) => {
                return Err(error);
            },
        };
        let username = match self.mqtt_user {
            Some(user) => Some(trim(user.as_str())),
            None => None,
        };
        Ok(
            AppConfig {
                qcore: QcoreConfig {
                    api_url: trim_end_char(trim(self.qc_api_url.as_str()).as_str(), '/'),
                    login: trim(self.qc_login.as_str()),
                    password: qc_password,
                    cache_dir: self.cache_dir,
                    http_timeout: TimeSpan::from_millis(self.http_timeout_millis),
                },
                mqtt: MqttConfig {
                    host: trim(self.mqtt_host.as_str()),
                    port: self.mqtt_port,
                    username,
                    password: mqtt_password,
                    discovery_prefix,
                    topic_prefix,
                    client_id: trim(self.client_id.as_str()),
                },
                polling: PollingConfig { interval: TimeSpan::from_secs(self.interval_seconds) },
                reconnect: ReconnectConfig {
                    initial_delay: TimeSpan::from_millis(self.reconnect_initial_delay_millis),
                    max_delay: TimeSpan::from_millis(self.reconnect_max_delay_millis),
                },
                stats: StatsConfig { interval: TimeSpan::from_millis(self.stats_interval_millis) },
            },
        )
    }
}

/// Whether nothing but white space stands in a text.
fn is_blank(text: &str) -> (yes: bool)
    ensures
        yes == blank(text@),
{
    trim(text).as_str().is_empty()
}

/// A topic segment, which must not be empty.
pub fn normalize_topic_segment(value: &str, field_name: &str) -> (result: AppResult<String>)
    ensures
        match result {
            Ok(normalized) => normalized@ == segment(value@) && normalized@.len() > 0,
            Err(error) => {
                &&& segment(value@).len() == 0
                &&& error@ == refused(field_name@ + " cannot be empty"@)
            },
        },
{
    let normalized = trim_char(trim(value).as_str(), '/');
    if normalized.as_str().is_empty() {
        return Err(AppError::InvalidConfig(field_name.to_string().concat(" cannot be empty")));
    }
    Ok(normalized)
}

/// The secret that is given inline or by a file, not both.
pub fn load_secret(field_name: &str, inline: Option<String>, file: Option<SecretFile>) -> (result:
    AppResult<Option<String>>)
    ensures
        match result {
            Ok(value) => secret(field_name@, inline, file) == Ok::<Option<Seq<char>>, Fault>(
                optional(value),
            ),
            Err(error) => secret(field_name@, inline, file) == Err::<Option<Seq<char>>, Fault>(
                error@,
            ),
        },
{
    match (inline, file) {
        (Some(_), Some(_)) => {
            let option = replace_char(field_name, '_', '-');
            let mut text = "use either --".to_string();
            text.append(option.as_str());
            text.append("/--");
            text.append(option.as_str());
            text.append("-file but not both");
            Err(AppError::InvalidConfig(text))
        },
        (Some(value), None) => Ok(Some(value)),
        (None, Some(file)) => match file.content {
            Ok(content) => {
                let value = trim(content.as_str());
                if value.as_str().is_empty() {
                    let mut text = field_name.to_string();
                    text.append(" file ");
                    text.append(file.path.as_str());
                    text.append(" was empty");
                    return Err(AppError::InvalidConfig(text));
                }
                Ok(Some(value))
            },
            Err(words) => Err(AppError::Io(words)),
        },
        (None, None) => Ok(None),
    }
}

}
