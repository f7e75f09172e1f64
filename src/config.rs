//! Worker configuration: settings with their defaults, validation, and
//! path expansion.

use vstd::prelude::*;
use crate::logging::{level_of_name, LogLevel};
use crate::text::{has_substring, lower_of, lowercase, starts_with, starts_with_spec, str_eq};

verus! {

/// Identity of this worker.
#[derive(Debug, Clone)]
pub struct WorkerSettings {
    pub id: Option<String>,
    pub name: Option<String>,
    pub tags: Vec<String>,
    pub account_id: Option<String>,
    pub node_key: Option<String>,
}

impl Default for WorkerSettings {
    fn default() -> (r: Self)
        ensures
            r.id is None,
            r.name is None,
            r.tags@.len() == 0,
            r.account_id is None,
            r.node_key is None,
    {
        WorkerSettings { id: None, name: None, tags: Vec::new(), account_id: None, node_key: None }
    }
}

/// Where and how to reach the coordinator.
#[derive(Debug, Clone)]
pub struct CoordinatorSettings {
    pub url: String,
    pub reconnect_interval_ms: u64,
    /// Zero retries forever.
    pub max_reconnect_attempts: u32,
    pub connect_timeout_ms: u64,
    pub heartbeat_interval_ms: u64,
}

impl Default for CoordinatorSettings {
    fn default() -> (r: Self)
        ensures
            r.url@ == "wss://coordinator.ai4all.network"@,
            r.reconnect_interval_ms == 5000,
            r.max_reconnect_attempts == 0,
            r.connect_timeout_ms == 30000,
            r.heartbeat_interval_ms == 30000,
    {
        CoordinatorSettings {
            url: "wss://coordinator.ai4all.network".to_owned(),
            reconnect_interval_ms: 5000,
            max_reconnect_attempts: 0,
            connect_timeout_ms: 30000,
            heartbeat_interval_ms: 30000,
        }
    }
}

/// Limits on the resources the worker uses.
#[derive(Debug, Clone, Copy, PartialEq, Eq, Structural)]
pub struct ResourceSettings {
    pub max_memory_mb: u64,
    /// Zero sets no limit.
    pub max_gpu_memory_mb: u64,
    pub max_gpu_percent: u8,
    /// Zero picks automatically.
    pub max_threads: u32,
    pub enable_gpu: bool,
}

impl Default for ResourceSettings {
    fn default() -> (r: Self)
        ensures
            r == (ResourceSettings { max_memory_mb: 8192, max_gpu_memory_mb: 0, max_gpu_percent: 75, max_threads: 0, enable_gpu: true }),
    {
        ResourceSettings { max_memory_mb: 8192, max_gpu_memory_mb: 0, max_gpu_percent: 75, max_threads: 0, enable_gpu: true }
    }
}

/// Logging settings.
#[derive(Debug, Clone)]
pub struct LoggingSettings {
    pub level: String,
    pub file: Option<String>,
    pub max_file_size_mb: u64,
    pub max_files: u32,
    pub json_format: bool,
}

impl Default for LoggingSettings {
    fn default() -> (r: Self)
        ensures
            r.level@ == "info"@,
            r.file is None,
            r.max_file_size_mb == 100,
            r.max_files == 5,
            !r.json_format,
    {
        LoggingSettings { level: "info".to_owned(), file: None, max_file_size_mb: 100, max_files: 5, json_format: false }
    }
}

/// Where data lives on disk.
#[derive(Debug, Clone)]
pub struct StorageSettings {
    pub data_dir: String,
    pub model_dir: String,
    pub temp_dir: String,
}

impl Default for StorageSettings {
    fn default() -> (r: Self)
        ensures
            r.data_dir@ == "~/.ai4all/worker"@,
            r.model_dir@ == "~/.ai4all/worker/models"@,
            r.temp_dir@ == "~/.ai4all/worker/temp"@,
    {
        StorageSettings {
            data_dir: "~/.ai4all/worker".to_owned(),
            model_dir: "~/.ai4all/worker/models".to_owned(),
            temp_dir: "~/.ai4all/worker/temp".to_owned(),
        }
    }
}

/// GPU use.
#[derive(Debug, Clone)]
pub struct GpuSettings {
    pub enable: bool,
    pub device_id: Option<u32>,
    pub n_gpu_layers: Option<u32>,
    pub vendor_priority: Vec<String>,
    pub force_backend: Option<String>,
}

impl Default for GpuSettings {
    fn default() -> (r: Self)
        ensures
            r.enable,
            r.device_id is None,
            r.n_gpu_layers is None,
            r.vendor_priority@.len() == 0,
            r.force_backend is None,
    {
        GpuSettings { enable: true, device_id: None, n_gpu_layers: None, vendor_priority: Vec::new(), force_backend: None }
    }
}

/// Peer mesh settings.
#[derive(Debug, Clone, Copy, PartialEq, Eq, Structural)]
pub struct PeerSettings {
    pub enabled: bool,
    /// Zero lets the system pick.
    pub listen_port: u16,
    pub max_peers: usize,
    pub ping_interval_ms: u64,
    pub stale_timeout_ms: u64,
    pub auto_connect: bool,
}

impl Default for PeerSettings {
    fn default() -> (r: Self)
        ensures
            r == (PeerSettings { enabled: true, listen_port: 0, max_peers: 32, ping_interval_ms: 15000, stale_timeout_ms: 60000, auto_connect: true }),
    {
        PeerSettings { enabled: true, listen_port: 0, max_peers: 32, ping_interval_ms: 15000, stale_timeout_ms: 60000, auto_connect: true }
    }
}

/// Settings of the OpenAI-compatible HTTP backend.
#[derive(Debug, Clone)]
pub struct OpenAiSettings {
    pub enabled: bool,
    pub base_url: String,
    pub api_key: String,
    pub default_model: String,
    pub timeout_secs: u64,
    pub max_retries: u32,
}

impl Default for OpenAiSettings {
    fn default() -> (r: Self)
        ensures
            r.enabled,
            r.base_url@ == "http://localhost:11434/v1"@,
            r.api_key@.len() == 0,
            r.default_model@ == "llama3"@,
            r.timeout_secs == 120,
            r.max_retries == 2,
    {
        OpenAiSettings {
            enabled: true,
            base_url: "http://localhost:11434/v1".to_owned(),
            api_key: String::new(),
            default_model: "llama3".to_owned(),
            timeout_secs: 120,
            max_retries: 2,
        }
    }
}

/// Plugin download settings.
#[derive(Debug, Clone)]
pub struct PluginSettings {
    pub plugin_dir: String,
    pub auto_download: bool,
    pub registry_url: String,
    pub verify_checksums: bool,
    pub download_timeout_secs: u64,
}

impl Default for PluginSettings {
    fn default() -> (r: Self)
        ensures
            r.plugin_dir@ == "~/.ai4all/plugins"@,
            r.auto_download,
            r.registry_url@ == "https://plugins.ai4all.network"@,
            r.verify_checksums,
            r.download_timeout_secs == 300,
    {
        PluginSettings {
            plugin_dir: "~/.ai4all/plugins".to_owned(),
            auto_download: true,
            registry_url: "https://plugins.ai4all.network".to_owned(),
            verify_checksums: true,
            download_timeout_secs: 300,
        }
    }
}

/// The whole configuration.
#[derive(Debug, Clone)]
pub struct WorkerConfig {
    pub worker: WorkerSettings,
    pub coordinator: CoordinatorSettings,
    pub resources: ResourceSettings,
    pub gpu: GpuSettings,
    pub plugins: PluginSettings,
    pub logging: LoggingSettings,
    pub storage: StorageSettings,
    pub peer: PeerSettings,
    pub openai: OpenAiSettings,
}

impl Default for WorkerConfig {
    fn default() -> (r: Self)
        ensures
            r.coordinator.url@ == "wss://coordinator.ai4all.network"@,
            r.resources.max_gpu_percent == 75,
            r.logging.level@ == "info"@,
            r.storage.data_dir@ == "~/.ai4all/worker"@,
            r.storage.model_dir@ == "~/.ai4all/worker/models"@,
            r.plugins.plugin_dir@ == "~/.ai4all/plugins"@,
            r.peer.max_peers == 32,
    {
        WorkerConfig {
            worker: WorkerSettings::default(),
            coordinator: CoordinatorSettings::default(),
            resources: ResourceSettings::default(),
            gpu: GpuSettings::default(),
            plugins: PluginSettings::default(),
            logging: LoggingSettings::default(),
            storage: StorageSettings::default(),
            peer: PeerSettings::default(),
            openai: OpenAiSettings::default(),
        }
    }
}

/// Why a configuration was refused.
#[derive(Debug, Clone, Copy, PartialEq, Eq, Structural)]
pub enum ConfigError {
    /// The coordinator URL is empty.
    EmptyCoordinatorUrl,
    /// The coordinator URL is not `ws://` or `wss://`.
    CoordinatorUrlScheme,
    /// `max_gpu_percent` is over 100.
    GpuPercentOutOfRange,
    /// The log level is none of trace, debug, info, warn, error.
    InvalidLogLevel,
}

impl ConfigError {
    pub open spec fn message_spec(self) -> Seq<char> {
        match self {
            ConfigError::EmptyCoordinatorUrl => "Coordinator URL cannot be empty"@,
            ConfigError::CoordinatorUrlScheme => "Coordinator URL must start with ws:// or wss://"@,
            ConfigError::GpuPercentOutOfRange => "max_gpu_percent must be between 0 and 100"@,
            ConfigError::InvalidLogLevel => "Invalid log level. Must be one of: trace, debug, info, warn, error"@,
        }
    }

    /// A message for the user.
    pub fn message(&self) -> (r: &'static str)
        ensures
            r@ == self.message_spec(),
    {
        match self {
            ConfigError::EmptyCoordinatorUrl => "Coordinator URL cannot be empty",
            ConfigError::CoordinatorUrlScheme => "Coordinator URL must start with ws:// or wss://",
            ConfigError::GpuPercentOutOfRange => "max_gpu_percent must be between 0 and 100",
            ConfigError::InvalidLogLevel => "Invalid log level. Must be one of: trace, debug, info, warn, error",
        }
    }
}

/// The log level names that a configuration may give, in lower case.
pub open spec fn valid_level_name(s: Seq<char>) -> bool {
    s == "trace"@ || s == "debug"@ || s == "info"@ || s == "warn"@ || s == "error"@
}

/// Whether a lower-case name is one of the accepted log levels.
pub fn is_valid_level_name(s: &str) -> (r: bool)
    ensures
        r == valid_level_name(s@),
{
    str_eq(s, "trace") || str_eq(s, "debug") || str_eq(s, "info") || str_eq(s, "warn") || str_eq(s, "error")
}

/// What `shellexpand::full` makes of a path, when it holds nothing to
/// expand: the path itself.
pub open spec fn nothing_to_expand(s: Seq<char>) -> bool {
    !has_substring(s, "$"@) && !(s.len() > 0 && s[0] == '~')
}

/// Relies on `shellexpand::full`: a leading `~` becomes the home directory
/// and `$NAME` the variable's value; on a lookup error the path is kept.
/// Both depend on the environment, so only this is stated: a path with
/// neither stays as it is.
#[verifier::external_body]
fn expand_path(path: &str) -> (r: String)
    ensures
        nothing_to_expand(path@) ==> r@ == path@,
{
    match shellexpand::full(path) {
        Ok(c) => c.into_owned(),
        Err(_) => path.to_string(),
    }
}

impl WorkerConfig {
    /// The configuration is usable: a `ws://` or `wss://` coordinator URL,
    /// a GPU percentage of at most 100, and a known log level.
    pub open spec fn valid_spec(&self) -> bool {
        &&& (starts_with_spec(self.coordinator.url@, "ws://"@) || starts_with_spec(self.coordinator.url@, "wss://"@))
        &&& self.resources.max_gpu_percent <= 100
        &&& valid_level_name(lower_of(self.logging.level@))
    }

    /// Checks the configuration; the first problem found is reported.
    pub fn validate(&self) -> (r: Result<(), ConfigError>)
        ensures
            r is Ok <==> self.valid_spec(),
            self.coordinator.url@.len() == 0 ==> r == Err::<(), ConfigError>(ConfigError::EmptyCoordinatorUrl),
            self.coordinator.url@.len() > 0 && !(starts_with_spec(self.coordinator.url@, "ws://"@)
                || starts_with_spec(self.coordinator.url@, "wss://"@))
                ==> r == Err::<(), ConfigError>(ConfigError::CoordinatorUrlScheme),
            (starts_with_spec(self.coordinator.url@, "ws://"@) || starts_with_spec(self.coordinator.url@, "wss://"@))
                && self.resources.max_gpu_percent > 100 ==> r == Err::<(), ConfigError>(ConfigError::GpuPercentOutOfRange),
            (starts_with_spec(self.coordinator.url@, "ws://"@) || starts_with_spec(self.coordinator.url@, "wss://"@))
                && self.resources.max_gpu_percent <= 100 && !valid_level_name(lower_of(self.logging.level@))
                ==> r == Err::<(), ConfigError>(ConfigError::InvalidLogLevel),
    {
        if self.coordinator.url.as_str().is_empty() {
            proof {
                reveal_strlit("ws://");
                reveal_strlit("wss://");
            }
            return Err(ConfigError::EmptyCoordinatorUrl);
        }
        if !starts_with(self.coordinator.url.as_str(), "ws://") && !starts_with(self.coordinator.url.as_str(), "wss://") {
            return Err(ConfigError::CoordinatorUrlScheme);
        }
        if self.resources.max_gpu_percent > 100 {
            return Err(ConfigError::GpuPercentOutOfRange);
        }
        let l = lowercase(self.logging.level.as_str());
        if !is_valid_level_name(l.as_str()) {
            return Err(ConfigError::InvalidLogLevel);
        }
        Ok(())
    }

    /// Expands `~` and environment variables in the storage, plugin and
    /// log file paths.
    pub fn expand_paths(&mut self)
        ensures
            nothing_to_expand(old(self).storage.data_dir@) ==> final(self).storage.data_dir@ == old(self).storage.data_dir@,
            nothing_to_expand(old(self).storage.model_dir@) ==> final(self).storage.model_dir@ == old(self).storage.model_dir@,
            nothing_to_expand(old(self).storage.temp_dir@) ==> final(self).storage.temp_dir@ == old(self).storage.temp_dir@,
            nothing_to_expand(old(self).plugins.plugin_dir@) ==> final(self).plugins.plugin_dir@ == old(self).plugins.plugin_dir@,
            final(self).logging.file is Some <==> old(self).logging.file is Some,
            final(self).coordinator.url@ == old(self).coordinator.url@,
            final(self).resources == old(self).resources,
            final(self).logging.level@ == old(self).logging.level@,
    {
        self.storage.data_dir = expand_path(self.storage.data_dir.as_str());
        self.storage.model_dir = expand_path(self.storage.model_dir.as_str());
        self.storage.temp_dir = expand_path(self.storage.temp_dir.as_str());
        self.plugins.plugin_dir = expand_path(self.plugins.plugin_dir.as_str());
        let file = match &self.logging.file {
            Some(f) => Some(expand_path(f.as_str())),
            None => None,
        };
        self.logging.file = file;
    }

    /// The data directory.
    pub fn data_dir(&self) -> (r: &str)
        ensures
            r@ == self.storage.data_dir@,
    {
        self.storage.data_dir.as_str()
    }

    /// The model directory.
    pub fn model_dir(&self) -> (r: &str)
        ensures
            r@ == self.storage.model_dir@,
    {
        self.storage.model_dir.as_str()
    }

    /// The plugin directory.
    pub fn plugin_dir(&self) -> (r: &str)
        ensures
            r@ == self.plugins.plugin_dir@,
    {
        self.plugins.plugin_dir.as_str()
    }

    /// The log level the settings ask for; unknown names mean info.
    pub fn log_level(&self) -> (r: LogLevel)
        ensures
            r == level_of_name(lower_of(self.logging.level@)),
    {
        crate::logging::parse_level(self.logging.level.as_str())
    }
}

/// The commented configuration file written by `config init`.
pub const DEFAULT_CONFIG_TOML: &'static str = r#"# AI4All Worker Configuration
# https://github.com/ai4all/worker

[worker]
# Unique worker identifier (auto-generated if not set)
# id = "worker-abc123"

# Human-readable worker name
# name = "My Worker"

# Tags for filtering work assignments
tags = []

[coordinator]
# Coordinator WebSocket URL
url = "wss://coordinator.ai4all.network"

# Reconnection interval in milliseconds
reconnect_interval_ms = 5000

# Maximum reconnection attempts (0 = infinite)
max_reconnect_attempts = 0

# Connection timeout in milliseconds
connect_timeout_ms = 30000

# Heartbeat interval in milliseconds
heartbeat_interval_ms = 30000

[resources]
# Maximum memory usage in MB
max_memory_mb = 8192

# Maximum GPU memory usage in MB (0 = no limit)
max_gpu_memory_mb = 0

# Maximum GPU utilization percentage (1-100)
max_gpu_percent = 75

# Maximum CPU threads to use (0 = auto-detect)
max_threads = 0

# Enable GPU acceleration
enable_gpu = true

[logging]
# Log level: trace, debug, info, warn, error
level = "info"

# Log file path (comment out to disable file logging)
# file = "~/.ai4all/worker/logs/worker.log"

# Maximum log file size in MB before rotation
max_file_size_mb = 100

# Number of rotated log files to keep
max_files = 5

# Enable JSON formatted logging
json_format = false

[storage]
# Base data directory
data_dir = "~/.ai4all/worker"

# Model cache directory
model_dir = "~/.ai4all/worker/models"

# Temporary files directory
temp_dir = "~/.ai4all/worker/temp"

[peer]
# Enable peer-to-peer mesh networking
enabled = true

# TCP listen port for peer connections (0 = auto-assign)
listen_port = 0

# Maximum number of peer connections
max_peers = 32

# Ping interval in milliseconds
ping_interval_ms = 15000

# Timeout before a peer is considered stale (milliseconds)
stale_timeout_ms = 60000

# Auto-connect to discovered peers
auto_connect = true

[openai]
# Enable OpenAI-compatible API backend
enabled = true

# API base URL (OpenAI, Ollama, vLLM, LM Studio, etc.)
base_url = "http://localhost:11434/v1"

# API key (leave empty for local servers like Ollama)
api_key = ""

# Default model identifier
default_model = "llama3"

# Request timeout in seconds
timeout_secs = 120

# Maximum retries on transient failures
max_retries = 2
"#;

/// The text of a fresh configuration file, with every setting at its
/// default and commented.
pub fn generate_default_config() -> (r: String)
    ensures
        r@ == DEFAULT_CONFIG_TOML@,
{
    DEFAULT_CONFIG_TOML.to_owned()
}

} // verus!
