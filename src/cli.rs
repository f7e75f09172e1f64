//! The commands the worker binary understands, as plain values. The
//! command-line parser fills them in.

use vstd::prelude::*;

verus! {

/// Parsed command line.
#[derive(Debug, Clone)]
pub struct Cli {
    /// Each `-v` raises the verbosity.
    pub verbose: u8,
    /// Errors only.
    pub quiet: bool,
    pub command: Commands,
}

/// Top-level commands.
#[derive(Debug, Clone)]
pub enum Commands {
    /// Run the worker.
    Run { config: Option<String>, persona: Option<String> },
    /// Measure local compute capability.
    Benchmark { iterations: u32, output: Option<String> },
    /// Print build information.
    Version,
    /// Pair this device with an account.
    Pair { api_url: String, name: String, force: bool },
    /// Work with the configuration file.
    Config { subcommand: ConfigSubcommand },
    /// Work with personas.
    Persona { subcommand: PersonaSubcommand },
}

/// Persona commands.
#[derive(Debug, Clone)]
pub enum PersonaSubcommand {
    List,
    Download { persona: String },
    Show,
    Activate { persona: String },
    Validate { persona: String },
}

/// Configuration commands.
#[derive(Debug, Clone)]
pub enum ConfigSubcommand {
    Show { config: Option<String> },
    Init { path: Option<String>, force: bool },
    Validate { config: Option<String> },
}

impl Cli {
    /// The log level the command line asks for, over the configured one.
    pub fn log_level(&self, settings: &crate::config::LoggingSettings) -> (r: crate::logging::LogLevel)
        ensures
            r == if self.quiet {
                crate::logging::LogLevel::Error
            } else if self.verbose == 0 {
                crate::logging::level_of_name(crate::text::lower_of(settings.level@))
            } else if self.verbose == 1 {
                crate::logging::LogLevel::Debug
            } else {
                crate::logging::LogLevel::Trace
            },
    {
        crate::logging::determine_level(settings, self.verbose, self.quiet)
    }
}

} // verus!
