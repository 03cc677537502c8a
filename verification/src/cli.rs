//! The command line of the tool: its subcommands and their arguments.
//! Paths are held as the text the user gave.
use vstd::prelude::*;

verus! {

#[derive(Clone, Debug)]
pub struct Cli {
    pub command: Command,
}

#[derive(Clone, Debug)]
pub enum Command {
    /// Inspect the RTK SQLite database schema and diagnostics.
    Inspect(InspectArgs),
    /// Print or initialize the stable local machine ID.
    MachineId(MachineIdArgs),
    /// Update rtk-sync config.toml values.
    Config(ConfigArgs),
    /// Remove the rtk-sync state file and reset the checkpoint.
    Reset(ResetArgs),
    /// Sync one batch of events and exit.
    Once(SyncArgs),
    /// Show config, state, checkpoint, and pending event count.
    Status(StatusArgs),
    /// Download and install the latest rtk-sync release.
    Update(UpdateArgs),
    /// Run the background sync loop (used by the installed service).
    RunService(ServiceRunArgs),
    /// Install the background sync service.
    InstallService(ServiceArgs),
    /// Uninstall the background sync service.
    UninstallService(ServiceRemoveArgs),
}

#[derive(Clone, Debug)]
pub struct InspectArgs {
    pub config: Option<String>,
    pub db: Option<String>,
}

#[derive(Clone, Debug)]
pub struct MachineIdArgs {
    pub config: Option<String>,
    pub state: Option<String>,
    pub machine_id: Option<String>,
}

#[derive(Clone, Debug)]
pub struct ConfigArgs {
    pub config: Option<String>,
    pub endpoint: Option<String>,
    pub token: Option<String>,
    pub token_env: Option<String>,
    pub machine_id: Option<String>,
    pub batch_size: Option<usize>,
    pub interval: Option<u64>,
    pub allow_insecure_http: Option<bool>,
    pub db: Option<String>,
    pub state: Option<String>,
}

#[derive(Clone, Debug)]
pub struct ResetArgs {
    pub config: Option<String>,
    pub state: Option<String>,
}

#[derive(Clone, Debug)]
pub struct StatusArgs {
    pub config: Option<String>,
    pub db: Option<String>,
    pub state: Option<String>,
}

#[derive(Clone, Debug)]
pub struct SyncArgs {
    pub config: Option<String>,
    pub db: Option<String>,
    pub state: Option<String>,
    pub endpoint: Option<String>,
    pub token_env: Option<String>,
    pub machine_id: Option<String>,
    pub batch_size: Option<usize>,
    pub allow_insecure_http: bool,
    pub dry_run: bool,
}

#[derive(Clone, Debug)]
pub struct UpdateArgs {
    pub repo: String,
    pub install_dir: String,
    pub service_label: String,
    pub restart_service: bool,
}

#[derive(Clone, Debug)]
pub struct ServiceRunArgs {
    pub config: Option<String>,
}

#[derive(Clone, Debug)]
pub struct ServiceArgs {
    pub binary: Option<String>,
    pub config: Option<String>,
}

#[derive(Clone, Debug)]
pub struct ServiceRemoveArgs {
    pub config: Option<String>,
}

} // verus!
