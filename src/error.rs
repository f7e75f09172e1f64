//! Numeric error codes, their text form and the process exit codes they
//! map to.

use vstd::prelude::*;
use crate::text::{decimal, u64_to_decimal};

verus! {

/// Error codes, grouped by family in hundreds: configuration (1xx), I/O
/// (2xx), connection (3xx), protocol (4xx), execution (5xx), model (6xx),
/// resource (7xx), GPU and plugins (8xx), internal (9xx).
#[derive(Debug, Clone, Copy, PartialEq, Eq, Structural)]
pub enum ErrorCode {
    ConfigNotFound,
    ConfigParseError,
    ConfigValidation,
    ConfigPermission,
    IoRead,
    IoWrite,
    IoPermission,
    IoNotFound,
    ConnectionFailed,
    ConnectionTimeout,
    ConnectionRefused,
    ConnectionLost,
    TlsError,
    ProtocolVersion,
    ProtocolMalformed,
    ProtocolUnexpected,
    AuthenticationFailed,
    ExecutionFailed,
    ExecutionTimeout,
    ExecutionCancelled,
    ExecutionOom,
    ModelNotFound,
    ModelLoadFailed,
    ModelIncompatible,
    ModelCorrupted,
    ResourceMemory,
    ResourceGpu,
    ResourceDisk,
    ResourceCpu,
    GpuNotFound,
    GpuDetectionFailed,
    GpuMemoryInsufficient,
    PluginNotFound,
    PluginDownloadFailed,
    PluginLoadFailed,
    PluginChecksumMismatch,
    PluginIncompatible,
    VulkanError,
    InternalError,
    NotImplemented,
    NotSupported,
}

impl ErrorCode {
    /// The number of the code.
    pub open spec fn number(self) -> u16 {
        match self {
            ErrorCode::ConfigNotFound => 100,
            ErrorCode::ConfigParseError => 101,
            ErrorCode::ConfigValidation => 102,
            ErrorCode::ConfigPermission => 103,
            ErrorCode::IoRead => 200,
            ErrorCode::IoWrite => 201,
            ErrorCode::IoPermission => 202,
            ErrorCode::IoNotFound => 203,
            ErrorCode::ConnectionFailed => 300,
            ErrorCode::ConnectionTimeout => 301,
            ErrorCode::ConnectionRefused => 302,
            ErrorCode::ConnectionLost => 303,
            ErrorCode::TlsError => 304,
            ErrorCode::ProtocolVersion => 400,
            ErrorCode::ProtocolMalformed => 401,
            ErrorCode::ProtocolUnexpected => 402,
            ErrorCode::AuthenticationFailed => 403,
            ErrorCode::ExecutionFailed => 500,
            ErrorCode::ExecutionTimeout => 501,
            ErrorCode::ExecutionCancelled => 502,
            ErrorCode::ExecutionOom => 503,
            ErrorCode::ModelNotFound => 600,
            ErrorCode::ModelLoadFailed => 601,
            ErrorCode::ModelIncompatible => 602,
            ErrorCode::ModelCorrupted => 603,
            ErrorCode::ResourceMemory => 700,
            ErrorCode::ResourceGpu => 701,
            ErrorCode::ResourceDisk => 702,
            ErrorCode::ResourceCpu => 703,
            ErrorCode::GpuNotFound => 810,
            ErrorCode::GpuDetectionFailed => 811,
            ErrorCode::GpuMemoryInsufficient => 812,
            ErrorCode::PluginNotFound => 820,
            ErrorCode::PluginDownloadFailed => 821,
            ErrorCode::PluginLoadFailed => 822,
            ErrorCode::PluginChecksumMismatch => 823,
            ErrorCode::PluginIncompatible => 824,
            ErrorCode::VulkanError => 830,
            ErrorCode::InternalError => 900,
            ErrorCode::NotImplemented => 901,
            ErrorCode::NotSupported => 902,
        }
    }

    /// The text form: `E` and the number.
    pub open spec fn text(self) -> Seq<char> {
        seq!['E'] + decimal(self.number() as nat)
    }

    /// Exit code of the family: ten times the hundreds digit, 1 outside
    /// the known families.
    pub open spec fn exit_code_spec(self) -> i32 {
        let n = self.number();
        if 100 <= n <= 999 { (n / 100 * 10) as i32 } else { 1 }
    }

    /// The number of the code.
    pub fn code(&self) -> (r: u16)
        ensures
            r == self.number(),
    {
        match self {
            ErrorCode::ConfigNotFound => 100,
            ErrorCode::ConfigParseError => 101,
            ErrorCode::ConfigValidation => 102,
            ErrorCode::ConfigPermission => 103,
            ErrorCode::IoRead => 200,
            ErrorCode::IoWrite => 201,
            ErrorCode::IoPermission => 202,
            ErrorCode::IoNotFound => 203,
            ErrorCode::ConnectionFailed => 300,
            ErrorCode::ConnectionTimeout => 301,
            ErrorCode::ConnectionRefused => 302,
            ErrorCode::ConnectionLost => 303,
            ErrorCode::TlsError => 304,
            ErrorCode::ProtocolVersion => 400,
            ErrorCode::ProtocolMalformed => 401,
            ErrorCode::ProtocolUnexpected => 402,
            ErrorCode::AuthenticationFailed => 403,
            ErrorCode::ExecutionFailed => 500,
            ErrorCode::ExecutionTimeout => 501,
            ErrorCode::ExecutionCancelled => 502,
            ErrorCode::ExecutionOom => 503,
            ErrorCode::ModelNotFound => 600,
            ErrorCode::ModelLoadFailed => 601,
            ErrorCode::ModelIncompatible => 602,
            ErrorCode::ModelCorrupted => 603,
            ErrorCode::ResourceMemory => 700,
            ErrorCode::ResourceGpu => 701,
            ErrorCode::ResourceDisk => 702,
            ErrorCode::ResourceCpu => 703,
            ErrorCode::GpuNotFound => 810,
            ErrorCode::GpuDetectionFailed => 811,
            ErrorCode::GpuMemoryInsufficient => 812,
            ErrorCode::PluginNotFound => 820,
            ErrorCode::PluginDownloadFailed => 821,
            ErrorCode::PluginLoadFailed => 822,
            ErrorCode::PluginChecksumMismatch => 823,
            ErrorCode::PluginIncompatible => 824,
            ErrorCode::VulkanError => 830,
            ErrorCode::InternalError => 900,
            ErrorCode::NotImplemented => 901,
            ErrorCode::NotSupported => 902,
        }
    }

    /// The text form, such as `E100`.
    pub fn as_str(&self) -> (r: String)
        ensures
            r@ == self.text(),
    {
        let mut s = "E".to_owned();
        let d = u64_to_decimal(self.code() as u64);
        s.append(d.as_str());
        proof { reveal_strlit("E"); }
        assert(s@ =~= self.text());
        s
    }

    /// The process exit code for this error's family.
    pub fn exit_code(&self) -> (r: i32)
        ensures
            r == self.exit_code_spec(),
    {
        let n = self.code();
        if 100 <= n && n <= 999 {
            (n / 100 * 10) as i32
        } else {
            1
        }
    }
}

/// What kind of I/O failure occurred, as far as the error code tells.
#[derive(Debug, Clone, Copy, PartialEq, Eq, Structural)]
pub enum IoErrorKind {
    NotFound,
    PermissionDenied,
    Other,
}

/// Errors of the worker, each with a code, a retry and a fatality
/// classification, a message and, for some, a hint for the user.
#[derive(Debug, Clone)]
pub enum Error {
    ConfigNotFound { path: String, source: Option<String> },
    ConfigParse { message: String, source: Option<String> },
    ConfigValidation { message: String, field: Option<String> },
    Config(String),
    IoRead { path: String, source: String },
    IoWrite { path: String, source: String },
    Io { kind: IoErrorKind, message: String },
    Toml(String),
    WebSocket(String),
    ConnectionFailed { url: String, message: String },
    ConnectionTimeout { url: String, timeout_secs: u64 },
    ConnectionLost { message: String },
    Connection(String),
    ProtocolVersion { expected: String, actual: String },
    ProtocolMalformed { message: String },
    AuthenticationFailed { message: String },
    Protocol(String),
    ExecutionFailed { task_id: Option<String>, message: String },
    TaskTimeout { task_id: String, timeout_secs: u64 },
    Execution(String),
    Timeout(String),
    ModelNotFound { model_id: String },
    ModelLoadFailed { model_id: String, message: String },
    ModelIncompatible { model_id: String, reason: String },
    Model(String),
    MemoryLimit { requested_mb: u64, available_mb: u64 },
    GpuError { message: String, device_id: Option<u32> },
    ResourceLimit(String),
    GpuNotFound { message: String },
    GpuDetectionFailed { message: String },
    GpuMemoryInsufficient { required_mb: u64, available_mb: u64 },
    PluginNotFound { name: String },
    PluginDownloadFailed { name: String, message: String, url: Option<String> },
    PluginLoadFailed { name: String, message: String, path: Option<String> },
    PluginChecksumMismatch { name: String, expected: String, actual: String },
    PluginIncompatible { name: String, reason: String },
    VulkanError { message: String, error_code: Option<i32> },
    NotSupported(String),
    Internal(String),
}

impl Error {
    /// The error code of each kind of error.
    pub open spec fn code_spec(&self) -> ErrorCode {
        match self {
            Error::ConfigNotFound { .. } => ErrorCode::ConfigNotFound,
            Error::ConfigParse { .. } => ErrorCode::ConfigParseError,
            Error::ConfigValidation { .. } => ErrorCode::ConfigValidation,
            Error::Config(_) => ErrorCode::ConfigValidation,
            Error::IoRead { .. } => ErrorCode::IoRead,
            Error::IoWrite { .. } => ErrorCode::IoWrite,
            Error::Io { kind, .. } => match kind {
                IoErrorKind::NotFound => ErrorCode::IoNotFound,
                IoErrorKind::PermissionDenied => ErrorCode::IoPermission,
                IoErrorKind::Other => ErrorCode::IoRead,
            },
            Error::Toml(_) => ErrorCode::ConfigParseError,
            Error::WebSocket(_) => ErrorCode::ConnectionFailed,
            Error::ConnectionFailed { .. } => ErrorCode::ConnectionFailed,
            Error::ConnectionTimeout { .. } => ErrorCode::ConnectionTimeout,
            Error::ConnectionLost { .. } => ErrorCode::ConnectionLost,
            Error::Connection(_) => ErrorCode::ConnectionFailed,
            Error::ProtocolVersion { .. } => ErrorCode::ProtocolVersion,
            Error::ProtocolMalformed { .. } => ErrorCode::ProtocolMalformed,
            Error::AuthenticationFailed { .. } => ErrorCode::AuthenticationFailed,
            Error::Protocol(_) => ErrorCode::ProtocolMalformed,
            Error::ExecutionFailed { .. } => ErrorCode::ExecutionFailed,
            Error::TaskTimeout { .. } => ErrorCode::ExecutionTimeout,
            Error::Execution(_) => ErrorCode::ExecutionFailed,
            Error::Timeout(_) => ErrorCode::ExecutionTimeout,
            Error::ModelNotFound { .. } => ErrorCode::ModelNotFound,
            Error::ModelLoadFailed { .. } => ErrorCode::ModelLoadFailed,
            Error::ModelIncompatible { .. } => ErrorCode::ModelIncompatible,
            Error::Model(_) => ErrorCode::ModelLoadFailed,
            Error::MemoryLimit { .. } => ErrorCode::ResourceMemory,
            Error::GpuError { .. } => ErrorCode::ResourceGpu,
            Error::ResourceLimit(_) => ErrorCode::ResourceMemory,
            Error::GpuNotFound { .. } => ErrorCode::GpuNotFound,
            Error::GpuDetectionFailed { .. } => ErrorCode::GpuDetectionFailed,
            Error::GpuMemoryInsufficient { .. } => ErrorCode::GpuMemoryInsufficient,
            Error::PluginNotFound { .. } => ErrorCode::PluginNotFound,
            Error::PluginDownloadFailed { .. } => ErrorCode::PluginDownloadFailed,
            Error::PluginLoadFailed { .. } => ErrorCode::PluginLoadFailed,
            Error::PluginChecksumMismatch { .. } => ErrorCode::PluginChecksumMismatch,
            Error::PluginIncompatible { .. } => ErrorCode::PluginIncompatible,
            Error::VulkanError { .. } => ErrorCode::VulkanError,
            Error::NotSupported(_) => ErrorCode::NotSupported,
            Error::Internal(_) => ErrorCode::InternalError,
        }
    }

    /// Connection failures, timeouts and I/O failures are worth retrying.
    pub open spec fn retryable_spec(&self) -> bool {
        match self {
            Error::IoRead { .. } => true,
            Error::IoWrite { .. } => true,
            Error::Io { .. } => true,
            Error::ConnectionFailed { .. } => true,
            Error::ConnectionTimeout { .. } => true,
            Error::ConnectionLost { .. } => true,
            Error::Connection(_) => true,
            Error::TaskTimeout { .. } => true,
            Error::Timeout(_) => true,
            _ => false,
        }
    }

    /// Configuration, authentication, protocol-version and internal errors end the worker.
    pub open spec fn fatal_spec(&self) -> bool {
        match self {
            Error::ConfigNotFound { .. } => true,
            Error::ConfigParse { .. } => true,
            Error::ConfigValidation { .. } => true,
            Error::Config(_) => true,
            Error::ProtocolVersion { .. } => true,
            Error::AuthenticationFailed { .. } => true,
            Error::Internal(_) => true,
            _ => false,
        }
    }

    /// The hint shown with each kind of error, if any.
    pub open spec fn suggestion_spec(&self) -> Option<Seq<char>> {
        match self {
            Error::ConfigNotFound { .. } => Some("Run 'ai4all-worker config init' to create a default configuration file."@),
            Error::ConfigParse { .. } => Some("Check your configuration file syntax. Run 'ai4all-worker config validate' to see details."@),
            Error::ConfigValidation { .. } => Some("Review the configuration file and fix the invalid values. See documentation for valid options."@),
            Error::ConnectionFailed { .. } => Some("Check your network connection and verify the coordinator URL is correct."@),
            Error::ConnectionTimeout { .. } => Some("The coordinator may be down or unreachable. Check your firewall settings."@),
            Error::ConnectionLost { .. } => Some("Connection was interrupted. The worker will automatically attempt to reconnect."@),
            Error::ProtocolVersion { .. } => Some("Your worker version may be outdated. Run 'ai4all-worker --version' and check for updates."@),
            Error::AuthenticationFailed { .. } => Some("Verify your worker credentials. You may need to re-register with the coordinator."@),
            Error::ModelNotFound { .. } => Some("The requested model is not available. It may need to be downloaded first."@),
            Error::ModelLoadFailed { .. } => Some("The model file may be corrupted. Try re-downloading it."@),
            Error::ModelIncompatible { .. } => Some("This model requires hardware capabilities your system doesn't have."@),
            Error::MemoryLimit { .. } => Some("Reduce 'max_memory_mb' in config or close other applications to free memory."@),
            Error::GpuError { .. } => Some("Check that GPU drivers are installed correctly. Try 'ai4all-worker benchmark' to test."@),
            Error::GpuNotFound { .. } => Some("Ensure your system has a compatible GPU. Run 'ai4all-worker benchmark --gpu' to detect GPUs."@),
            Error::GpuDetectionFailed { .. } => Some("Install Vulkan drivers for your GPU. AMD: amdvlk, NVIDIA: nvidia-drivers, Intel: intel-vulkan."@),
            Error::GpuMemoryInsufficient { .. } => Some("Try a smaller model or use CPU-only mode with --disable-gpu."@),
            Error::PluginNotFound { .. } => Some("The required GPU plugin is not installed. It will be downloaded automatically on next run."@),
            Error::PluginDownloadFailed { .. } => Some("Check your internet connection. You can manually download plugins to ~/.ai4all/plugins/."@),
            Error::PluginLoadFailed { .. } => Some("The plugin file may be corrupted. Delete it and restart to re-download."@),
            Error::PluginChecksumMismatch { .. } => Some("The downloaded plugin is corrupted. Delete it and try again."@),
            Error::VulkanError { .. } => Some("Update your GPU drivers and ensure Vulkan is properly installed."@),
            _ => None,
        }
    }

    /// The message of each kind of error.
    pub open spec fn message_spec(&self) -> Seq<char> {
        match self {
            Error::ConfigNotFound { path, .. } => "Configuration file not found: "@ + path@,
            Error::ConfigParse { message, .. } => "Failed to parse configuration: "@ + message@,
            Error::ConfigValidation { message, .. } => "Configuration validation failed: "@ + message@,
            Error::Config(f0) => "Configuration error: "@ + f0@,
            Error::IoRead { path, .. } => "Failed to read file: "@ + path@,
            Error::IoWrite { path, .. } => "Failed to write file: "@ + path@,
            Error::Io { message, .. } => "IO error: "@ + message@,
            Error::Toml(f0) => "TOML serialization error: "@ + f0@,
            Error::WebSocket(f0) => "WebSocket error: "@ + f0@,
            Error::ConnectionFailed { url, message } => "Failed to connect to "@ + url@ + ": "@ + message@,
            Error::ConnectionTimeout { url, timeout_secs } => "Connection to "@ + url@ + " timed out after "@ + decimal(timeout_secs as nat) + "s"@,
            Error::ConnectionLost { message } => "Lost connection to coordinator: "@ + message@,
            Error::Connection(f0) => "Connection error: "@ + f0@,
            Error::ProtocolVersion { expected, actual } => "Protocol version mismatch: expected "@ + expected@ + ", got "@ + actual@,
            Error::ProtocolMalformed { message } => "Malformed protocol message: "@ + message@,
            Error::AuthenticationFailed { message } => "Authentication failed: "@ + message@,
            Error::Protocol(f0) => "Protocol error: "@ + f0@,
            Error::ExecutionFailed { message, .. } => "Task execution failed: "@ + message@,
            Error::TaskTimeout { task_id, timeout_secs } => "Task "@ + task_id@ + " timed out after "@ + decimal(timeout_secs as nat) + "s"@,
            Error::Execution(f0) => "Execution error: "@ + f0@,
            Error::Timeout(f0) => "Task timeout: "@ + f0@,
            Error::ModelNotFound { model_id } => "Model not found: "@ + model_id@,
            Error::ModelLoadFailed { model_id, message } => "Failed to load model "@ + model_id@ + ": "@ + message@,
            Error::ModelIncompatible { model_id, reason } => "Model "@ + model_id@ + " incompatible: "@ + reason@,
            Error::Model(f0) => "Model error: "@ + f0@,
            Error::MemoryLimit { requested_mb, available_mb } => "Memory limit exceeded: requested "@ + decimal(requested_mb as nat) + "MB, available "@ + decimal(available_mb as nat) + "MB"@,
            Error::GpuError { message, .. } => "GPU error: "@ + message@,
            Error::ResourceLimit(f0) => "Resource limit exceeded: "@ + f0@,
            Error::GpuNotFound { message } => "No compatible GPU found: "@ + message@,
            Error::GpuDetectionFailed { message } => "GPU detection failed: "@ + message@,
            Error::GpuMemoryInsufficient { required_mb, available_mb } => "Insufficient GPU memory: need "@ + decimal(required_mb as nat) + "MB, have "@ + decimal(available_mb as nat) + "MB"@,
            Error::PluginNotFound { name } => "Plugin not found: "@ + name@,
            Error::PluginDownloadFailed { name, message, .. } => "Failed to download plugin "@ + name@ + ": "@ + message@,
            Error::PluginLoadFailed { name, message, .. } => "Failed to load plugin "@ + name@ + ": "@ + message@,
            Error::PluginChecksumMismatch { name, expected, actual } => "Plugin checksum mismatch for "@ + name@ + ": expected "@ + expected@ + ", got "@ + actual@,
            Error::PluginIncompatible { name, reason } => "Plugin "@ + name@ + " incompatible: "@ + reason@,
            Error::VulkanError { message, .. } => "Vulkan error: "@ + message@,
            Error::NotSupported(f0) => "Not supported: "@ + f0@,
            Error::Internal(f0) => "Internal error: "@ + f0@,
        }
    }

    /// The error code.
    pub fn code(&self) -> (r: ErrorCode)
        ensures
            r == self.code_spec(),
    {
        match self {
            Error::ConfigNotFound { .. } => ErrorCode::ConfigNotFound,
            Error::ConfigParse { .. } => ErrorCode::ConfigParseError,
            Error::ConfigValidation { .. } => ErrorCode::ConfigValidation,
            Error::Config(_) => ErrorCode::ConfigValidation,
            Error::IoRead { .. } => ErrorCode::IoRead,
            Error::IoWrite { .. } => ErrorCode::IoWrite,
            Error::Io { kind, .. } => match kind {
                IoErrorKind::NotFound => ErrorCode::IoNotFound,
                IoErrorKind::PermissionDenied => ErrorCode::IoPermission,
                IoErrorKind::Other => ErrorCode::IoRead,
            },
            Error::Toml(_) => ErrorCode::ConfigParseError,
            Error::WebSocket(_) => ErrorCode::ConnectionFailed,
            Error::ConnectionFailed { .. } => ErrorCode::ConnectionFailed,
            Error::ConnectionTimeout { .. } => ErrorCode::ConnectionTimeout,
            Error::ConnectionLost { .. } => ErrorCode::ConnectionLost,
            Error::Connection(_) => ErrorCode::ConnectionFailed,
            Error::ProtocolVersion { .. } => ErrorCode::ProtocolVersion,
            Error::ProtocolMalformed { .. } => ErrorCode::ProtocolMalformed,
            Error::AuthenticationFailed { .. } => ErrorCode::AuthenticationFailed,
            Error::Protocol(_) => ErrorCode::ProtocolMalformed,
            Error::ExecutionFailed { .. } => ErrorCode::ExecutionFailed,
            Error::TaskTimeout { .. } => ErrorCode::ExecutionTimeout,
            Error::Execution(_) => ErrorCode::ExecutionFailed,
            Error::Timeout(_) => ErrorCode::ExecutionTimeout,
            Error::ModelNotFound { .. } => ErrorCode::ModelNotFound,
            Error::ModelLoadFailed { .. } => ErrorCode::ModelLoadFailed,
            Error::ModelIncompatible { .. } => ErrorCode::ModelIncompatible,
            Error::Model(_) => ErrorCode::ModelLoadFailed,
            Error::MemoryLimit { .. } => ErrorCode::ResourceMemory,
            Error::GpuError { .. } => ErrorCode::ResourceGpu,
            Error::ResourceLimit(_) => ErrorCode::ResourceMemory,
            Error::GpuNotFound { .. } => ErrorCode::GpuNotFound,
            Error::GpuDetectionFailed { .. } => ErrorCode::GpuDetectionFailed,
            Error::GpuMemoryInsufficient { .. } => ErrorCode::GpuMemoryInsufficient,
            Error::PluginNotFound { .. } => ErrorCode::PluginNotFound,
            Error::PluginDownloadFailed { .. } => ErrorCode::PluginDownloadFailed,
            Error::PluginLoadFailed { .. } => ErrorCode::PluginLoadFailed,
            Error::PluginChecksumMismatch { .. } => ErrorCode::PluginChecksumMismatch,
            Error::PluginIncompatible { .. } => ErrorCode::PluginIncompatible,
            Error::VulkanError { .. } => ErrorCode::VulkanError,
            Error::NotSupported(_) => ErrorCode::NotSupported,
            Error::Internal(_) => ErrorCode::InternalError,
        }
    }

    /// Whether the operation is worth retrying.
    pub fn is_retryable(&self) -> (r: bool)
        ensures
            r == self.retryable_spec(),
    {
        match self {
            Error::IoRead { .. } => true,
            Error::IoWrite { .. } => true,
            Error::Io { .. } => true,
            Error::ConnectionFailed { .. } => true,
            Error::ConnectionTimeout { .. } => true,
            Error::ConnectionLost { .. } => true,
            Error::Connection(_) => true,
            Error::TaskTimeout { .. } => true,
            Error::Timeout(_) => true,
            _ => false,
        }
    }

    /// Whether the worker should stop.
    pub fn is_fatal(&self) -> (r: bool)
        ensures
            r == self.fatal_spec(),
    {
        match self {
            Error::ConfigNotFound { .. } => true,
            Error::ConfigParse { .. } => true,
            Error::ConfigValidation { .. } => true,
            Error::Config(_) => true,
            Error::ProtocolVersion { .. } => true,
            Error::AuthenticationFailed { .. } => true,
            Error::Internal(_) => true,
            _ => false,
        }
    }

    /// The process exit code of the error's family.
    pub fn exit_code(&self) -> (r: i32)
        ensures
            r == self.code_spec().exit_code_spec(),
    {
        self.code().exit_code()
    }

    /// A hint on how to fix the error, for the kinds that have one.
    pub fn suggestion(&self) -> (r: Option<&'static str>)
        ensures
            match r {
                Some(h) => self.suggestion_spec() == Some(h@),
                None => self.suggestion_spec() is None,
            },
    {
        match self {
            Error::ConfigNotFound { .. } => Some("Run 'ai4all-worker config init' to create a default configuration file."),
            Error::ConfigParse { .. } => Some("Check your configuration file syntax. Run 'ai4all-worker config validate' to see details."),
            Error::ConfigValidation { .. } => Some("Review the configuration file and fix the invalid values. See documentation for valid options."),
            Error::ConnectionFailed { .. } => Some("Check your network connection and verify the coordinator URL is correct."),
            Error::ConnectionTimeout { .. } => Some("The coordinator may be down or unreachable. Check your firewall settings."),
            Error::ConnectionLost { .. } => Some("Connection was interrupted. The worker will automatically attempt to reconnect."),
            Error::ProtocolVersion { .. } => Some("Your worker version may be outdated. Run 'ai4all-worker --version' and check for updates."),
            Error::AuthenticationFailed { .. } => Some("Verify your worker credentials. You may need to re-register with the coordinator."),
            Error::ModelNotFound { .. } => Some("The requested model is not available. It may need to be downloaded first."),
            Error::ModelLoadFailed { .. } => Some("The model file may be corrupted. Try re-downloading it."),
            Error::ModelIncompatible { .. } => Some("This model requires hardware capabilities your system doesn't have."),
            Error::MemoryLimit { .. } => Some("Reduce 'max_memory_mb' in config or close other applications to free memory."),
            Error::GpuError { .. } => Some("Check that GPU drivers are installed correctly. Try 'ai4all-worker benchmark' to test."),
            Error::GpuNotFound { .. } => Some("Ensure your system has a compatible GPU. Run 'ai4all-worker benchmark --gpu' to detect GPUs."),
            Error::GpuDetectionFailed { .. } => Some("Install Vulkan drivers for your GPU. AMD: amdvlk, NVIDIA: nvidia-drivers, Intel: intel-vulkan."),
            Error::GpuMemoryInsufficient { .. } => Some("Try a smaller model or use CPU-only mode with --disable-gpu."),
            Error::PluginNotFound { .. } => Some("The required GPU plugin is not installed. It will be downloaded automatically on next run."),
            Error::PluginDownloadFailed { .. } => Some("Check your internet connection. You can manually download plugins to ~/.ai4all/plugins/."),
            Error::PluginLoadFailed { .. } => Some("The plugin file may be corrupted. Delete it and restart to re-download."),
            Error::PluginChecksumMismatch { .. } => Some("The downloaded plugin is corrupted. Delete it and try again."),
            Error::VulkanError { .. } => Some("Update your GPU drivers and ensure Vulkan is properly installed."),
            _ => None,
        }
    }

    /// The error's message.
    pub fn to_string(&self) -> (r: String)
        ensures
            r@ == self.message_spec(),
    {
        match self {
            Error::ConfigNotFound { path, .. } => {
                let mut s = "Configuration file not found: ".to_owned();
                s.append(path.as_str());
                assert(s@ =~= self.message_spec());
                s
            },
            Error::ConfigParse { message, .. } => {
                let mut s = "Failed to parse configuration: ".to_owned();
                s.append(message.as_str());
                assert(s@ =~= self.message_spec());
                s
            },
            Error::ConfigValidation { message, .. } => {
                let mut s = "Configuration validation failed: ".to_owned();
                s.append(message.as_str());
                assert(s@ =~= self.message_spec());
                s
            },
            Error::Config(f0) => {
                let mut s = "Configuration error: ".to_owned();
                s.append(f0.as_str());
                assert(s@ =~= self.message_spec());
                s
            },
            Error::IoRead { path, .. } => {
                let mut s = "Failed to read file: ".to_owned();
                s.append(path.as_str());
                assert(s@ =~= self.message_spec());
                s
            },
            Error::IoWrite { path, .. } => {
                let mut s = "Failed to write file: ".to_owned();
                s.append(path.as_str());
                assert(s@ =~= self.message_spec());
                s
            },
            Error::Io { message, .. } => {
                let mut s = "IO error: ".to_owned();
                s.append(message.as_str());
                assert(s@ =~= self.message_spec());
                s
            },
            Error::Toml(f0) => {
                let mut s = "TOML serialization error: ".to_owned();
                s.append(f0.as_str());
                assert(s@ =~= self.message_spec());
                s
            },
            Error::WebSocket(f0) => {
                let mut s = "WebSocket error: ".to_owned();
                s.append(f0.as_str());
                assert(s@ =~= self.message_spec());
                s
            },
            Error::ConnectionFailed { url, message } => {
                let mut s = "Failed to connect to ".to_owned();
                s.append(url.as_str());
                s.append(": ");
                s.append(message.as_str());
                assert(s@ =~= self.message_spec());
                s
            },
            Error::ConnectionTimeout { url, timeout_secs } => {
                let mut s = "Connection to ".to_owned();
                s.append(url.as_str());
                s.append(" timed out after ");
                s.append(u64_to_decimal(*timeout_secs).as_str());
                s.append("s");
                assert(s@ =~= self.message_spec());
                s
            },
            Error::ConnectionLost { message } => {
                let mut s = "Lost connection to coordinator: ".to_owned();
                s.append(message.as_str());
                assert(s@ =~= self.message_spec());
                s
            },
            Error::Connection(f0) => {
                let mut s = "Connection error: ".to_owned();
                s.append(f0.as_str());
                assert(s@ =~= self.message_spec());
                s
            },
            Error::ProtocolVersion { expected, actual } => {
                let mut s = "Protocol version mismatch: expected ".to_owned();
                s.append(expected.as_str());
                s.append(", got ");
                s.append(actual.as_str());
                assert(s@ =~= self.message_spec());
                s
            },
            Error::ProtocolMalformed { message } => {
                let mut s = "Malformed protocol message: ".to_owned();
                s.append(message.as_str());
                assert(s@ =~= self.message_spec());
                s
            },
            Error::AuthenticationFailed { message } => {
                let mut s = "Authentication failed: ".to_owned();
                s.append(message.as_str());
                assert(s@ =~= self.message_spec());
                s
            },
            Error::Protocol(f0) => {
                let mut s = "Protocol error: ".to_owned();
                s.append(f0.as_str());
                assert(s@ =~= self.message_spec());
                s
            },
            Error::ExecutionFailed { message, .. } => {
                let mut s = "Task execution failed: ".to_owned();
                s.append(message.as_str());
                assert(s@ =~= self.message_spec());
                s
            },
            Error::TaskTimeout { task_id, timeout_secs } => {
                let mut s = "Task ".to_owned();
                s.append(task_id.as_str());
                s.append(" timed out after ");
                s.append(u64_to_decimal(*timeout_secs).as_str());
                s.append("s");
                assert(s@ =~= self.message_spec());
                s
            },
            Error::Execution(f0) => {
                let mut s = "Execution error: ".to_owned();
                s.append(f0.as_str());
                assert(s@ =~= self.message_spec());
                s
            },
            Error::Timeout(f0) => {
                let mut s = "Task timeout: ".to_owned();
                s.append(f0.as_str());
                assert(s@ =~= self.message_spec());
                s
            },
            Error::ModelNotFound { model_id } => {
                let mut s = "Model not found: ".to_owned();
                s.append(model_id.as_str());
                assert(s@ =~= self.message_spec());
                s
            },
            Error::ModelLoadFailed { model_id, message } => {
                let mut s = "Failed to load model ".to_owned();
                s.append(model_id.as_str());
                s.append(": ");
                s.append(message.as_str());
                assert(s@ =~= self.message_spec());
                s
            },
            Error::ModelIncompatible { model_id, reason } => {
                let mut s = "Model ".to_owned();
                s.append(model_id.as_str());
                s.append(" incompatible: ");
                s.append(reason.as_str());
                assert(s@ =~= self.message_spec());
                s
            },
            Error::Model(f0) => {
                let mut s = "Model error: ".to_owned();
                s.append(f0.as_str());
                assert(s@ =~= self.message_spec());
                s
            },
            Error::MemoryLimit { requested_mb, available_mb } => {
                let mut s = "Memory limit exceeded: requested ".to_owned();
                s.append(u64_to_decimal(*requested_mb).as_str());
                s.append("MB, available ");
                s.append(u64_to_decimal(*available_mb).as_str());
                s.append("MB");
                assert(s@ =~= self.message_spec());
                s
            },
            Error::GpuError { message, .. } => {
                let mut s = "GPU error: ".to_owned();
                s.append(message.as_str());
                assert(s@ =~= self.message_spec());
                s
            },
            Error::ResourceLimit(f0) => {
                let mut s = "Resource limit exceeded: ".to_owned();
                s.append(f0.as_str());
                assert(s@ =~= self.message_spec());
                s
            },
            Error::GpuNotFound { message } => {
                let mut s = "No compatible GPU found: ".to_owned();
                s.append(message.as_str());
                assert(s@ =~= self.message_spec());
                s
            },
            Error::GpuDetectionFailed { message } => {
                let mut s = "GPU detection failed: ".to_owned();
                s.append(message.as_str());
                assert(s@ =~= self.message_spec());
                s
            },
            Error::GpuMemoryInsufficient { required_mb, available_mb } => {
                let mut s = "Insufficient GPU memory: need ".to_owned();
                s.append(u64_to_decimal(*required_mb).as_str());
                s.append("MB, have ");
                s.append(u64_to_decimal(*available_mb).as_str());
                s.append("MB");
                assert(s@ =~= self.message_spec());
                s
            },
            Error::PluginNotFound { name } => {
                let mut s = "Plugin not found: ".to_owned();
                s.append(name.as_str());
                assert(s@ =~= self.message_spec());
                s
            },
            Error::PluginDownloadFailed { name, message, .. } => {
                let mut s = "Failed to download plugin ".to_owned();
                s.append(name.as_str());
                s.append(": ");
                s.append(message.as_str());
                assert(s@ =~= self.message_spec());
                s
            },
            Error::PluginLoadFailed { name, message, .. } => {
                let mut s = "Failed to load plugin ".to_owned();
                s.append(name.as_str());
                s.append(": ");
                s.append(message.as_str());
                assert(s@ =~= self.message_spec());
                s
            },
            Error::PluginChecksumMismatch { name, expected, actual } => {
                let mut s = "Plugin checksum mismatch for ".to_owned();
                s.append(name.as_str());
                s.append(": expected ");
                s.append(expected.as_str());
                s.append(", got ");
                s.append(actual.as_str());
                assert(s@ =~= self.message_spec());
                s
            },
            Error::PluginIncompatible { name, reason } => {
                let mut s = "Plugin ".to_owned();
                s.append(name.as_str());
                s.append(" incompatible: ");
                s.append(reason.as_str());
                assert(s@ =~= self.message_spec());
                s
            },
            Error::VulkanError { message, .. } => {
                let mut s = "Vulkan error: ".to_owned();
                s.append(message.as_str());
                assert(s@ =~= self.message_spec());
                s
            },
            Error::NotSupported(f0) => {
                let mut s = "Not supported: ".to_owned();
                s.append(f0.as_str());
                assert(s@ =~= self.message_spec());
                s
            },
            Error::Internal(f0) => {
                let mut s = "Internal error: ".to_owned();
                s.append(f0.as_str());
                assert(s@ =~= self.message_spec());
                s
            },
        }
    }

    /// The error as shown on a terminal: a red `Error [E<code>]` label, the
    /// message, and a yellow hint line where there is one.
    pub fn format_for_terminal(&self) -> (r: String)
        ensures
            r@ == "\x1b[31mError ["@ + self.code_spec().text() + "]\x1b[0m: "@ + self.message_spec() + "\n"@
                + match self.suggestion_spec() {
                    Some(h) => "\n\x1b[33mHint\x1b[0m: "@ + h + "\n"@,
                    None => Seq::<char>::empty(),
                },
    {
        let mut s = "\x1b[31mError [".to_owned();
        s.append(self.code().as_str().as_str());
        s.append("]\x1b[0m: ");
        s.append(self.to_string().as_str());
        s.append("\n");
        match self.suggestion() {
            Some(h) => {
                s.append("\n\x1b[33mHint\x1b[0m: ");
                s.append(h);
                s.append("\n");
            },
            None => {
                assert(s@ =~= s@ + Seq::<char>::empty());
            },
        }
        s
    }

    /// The error as logged: `[E<code>] <message>`, without colours.
    pub fn format_for_log(&self) -> (r: String)
        ensures
            r@ == "["@ + self.code_spec().text() + "] "@ + self.message_spec(),
    {
        let mut s = "[".to_owned();
        s.append(self.code().as_str().as_str());
        s.append("] ");
        s.append(self.to_string().as_str());
        s
    }

    /// A missing configuration file.
    pub fn config_not_found(path: &str) -> (r: Self)
        ensures
            match r { Error::ConfigNotFound { path: p, source } => p@ == path@ && source is None, _ => false },
    {
        Error::ConfigNotFound { path: path.to_owned(), source: None }
    }

    /// An unparsable configuration.
    pub fn config_parse(message: &str) -> (r: Self)
        ensures
            match r { Error::ConfigParse { message: m, source } => m@ == message@ && source is None, _ => false },
    {
        Error::ConfigParse { message: message.to_owned(), source: None }
    }

    /// An invalid configuration.
    pub fn config_validation(message: &str) -> (r: Self)
        ensures
            match r { Error::ConfigValidation { message: m, field } => m@ == message@ && field is None, _ => false },
    {
        Error::ConfigValidation { message: message.to_owned(), field: None }
    }

    /// An invalid value of one configuration field.
    pub fn config_field_invalid(field: &str, message: &str) -> (r: Self)
        ensures
            match r {
                Error::ConfigValidation { message: m, field: f } => m@ == message@ && f is Some && f.unwrap()@ == field@,
                _ => false,
            },
    {
        Error::ConfigValidation { message: message.to_owned(), field: Some(field.to_owned()) }
    }

    /// A failed connection.
    pub fn connection_failed(url: &str, message: &str) -> (r: Self)
        ensures
            match r { Error::ConnectionFailed { url: u, message: m } => u@ == url@ && m@ == message@, _ => false },
    {
        Error::ConnectionFailed { url: url.to_owned(), message: message.to_owned() }
    }

    /// A connection attempt that timed out.
    pub fn connection_timeout(url: &str, timeout_secs: u64) -> (r: Self)
        ensures
            match r { Error::ConnectionTimeout { url: u, timeout_secs: t } => u@ == url@ && t == timeout_secs, _ => false },
    {
        Error::ConnectionTimeout { url: url.to_owned(), timeout_secs }
    }

    /// A failed task execution.
    pub fn execution_failed(message: &str) -> (r: Self)
        ensures
            match r { Error::ExecutionFailed { task_id, message: m } => task_id is None && m@ == message@, _ => false },
    {
        Error::ExecutionFailed { task_id: None, message: message.to_owned() }
    }

    /// A model that is not available.
    pub fn model_not_found(model_id: &str) -> (r: Self)
        ensures
            match r { Error::ModelNotFound { model_id: m } => m@ == model_id@, _ => false },
    {
        Error::ModelNotFound { model_id: model_id.to_owned() }
    }

    /// A request for more memory than is available.
    pub fn memory_limit(requested_mb: u64, available_mb: u64) -> (r: Self)
        ensures
            match r { Error::MemoryLimit { requested_mb: q, available_mb: a } => q == requested_mb && a == available_mb, _ => false },
    {
        Error::MemoryLimit { requested_mb, available_mb }
    }

    /// An I/O failure of the given kind.
    pub fn io(kind: IoErrorKind, message: &str) -> (r: Self)
        ensures
            match r { Error::Io { kind: k, message: m } => k == kind && m@ == message@, _ => false },
    {
        Error::Io { kind, message: message.to_owned() }
    }
}

} // verus!
