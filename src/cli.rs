//! The agent's command line, as plain data.
use vstd::prelude::*;

verus! {

#[verifier::external_type_specification]
#[verifier::external_body]
pub struct ExPathBuf(std::path::PathBuf);

/// The parsed command line.
#[derive(Debug)]
pub struct Cli {
    pub command: Option<Commands>,
    /// Custom config file location.
    pub config_file: Option<std::path::PathBuf>,
}

/// The subcommands of the agent.
#[derive(Debug, PartialEq, Eq)]
pub enum Commands {
    /// Start the agent.
    Start,
    /// Create a TLS connection to a host and redirect it to stdin/stdout.
    Tunnel { host: String },
    /// Show the current configuration.
    Config,
    /// Reset data.
    Reset(Reset),
    /// Show the current version.
    Version,
}

/// The `reset` subcommand.
#[derive(Debug, Clone, Copy, PartialEq, Eq, Structural)]
pub struct Reset {
    pub command: ResetCommands,
}

/// What `reset` removes.
#[derive(Debug, Clone, Copy, PartialEq, Eq, Structural)]
pub enum ResetCommands {
    /// Delete saved credentials.
    Credentials,
    /// Uninstall all apps.
    Apps,
    /// Clear apps data.
    AppsData,
    /// Reset apps and their data.
    All,
}

/// Which stores a reset removes.
#[derive(Debug, Clone, Copy, PartialEq, Eq, Structural)]
pub struct ResetPlan {
    pub credentials: bool,
    pub apps: bool,
    pub apps_data: bool,
}

/// The stores that each reset command removes: `All` removes the apps and
/// their data, and keeps the credentials.
pub open spec fn spec_reset_plan(c: ResetCommands) -> ResetPlan {
    match c {
        ResetCommands::Credentials => ResetPlan { credentials: true, apps: false, apps_data: false },
        ResetCommands::Apps => ResetPlan { credentials: false, apps: true, apps_data: false },
        ResetCommands::AppsData => ResetPlan { credentials: false, apps: false, apps_data: true },
        ResetCommands::All => ResetPlan { credentials: false, apps: true, apps_data: true },
    }
}

impl Reset {
    /// The stores this reset removes.
    pub fn plan(&self) -> (r: ResetPlan)
        ensures
            r == spec_reset_plan(self.command),
    {
        match self.command {
            ResetCommands::Credentials => ResetPlan { credentials: true, apps: false, apps_data: false },
            ResetCommands::Apps => ResetPlan { credentials: false, apps: true, apps_data: false },
            ResetCommands::AppsData => ResetPlan { credentials: false, apps: false, apps_data: true },
            ResetCommands::All => ResetPlan { credentials: false, apps: true, apps_data: true },
        }
    }
}

} // verus!
