//! The command line, as plain values.

use vstd::prelude::*;

verus! {

/// Output format of the `show` command.
#[derive(Clone, Copy, Debug, PartialEq, Eq, Structural)]
pub enum OutputFormat {
    /// Cloud-init YAML.
    CloudInit,
    /// Executable bash script.
    Bash,
}

/// Subcommands.
#[derive(Clone, Copy, Debug, PartialEq, Eq, Structural)]
pub enum Commands {
    /// Show the generated provisioning config.
    Show(OutputFormat),
}

/// Command-line arguments.
///
/// The path of the config file is not among them: only the code that opens the file needs it.
#[derive(Debug)]
pub struct Args {
    pub command: Option<Commands>,
    /// SSH destination (`user@host`), required unless `hetzner`.
    pub host: Option<String>,
    /// Create a Hetzner VPS first.
    pub hetzner: bool,
    /// SSH port.
    pub port: u16,
    /// Generate the script only, do not execute it.
    pub script_only: bool,
    /// Remove Tengu and all installed dependencies from the server.
    pub remove: bool,
    pub cf_api_key: Option<String>,
    pub cf_email: Option<String>,
    pub resend_api_key: Option<String>,
    pub domain_platform: Option<String>,
    pub domain_apps: Option<String>,
    pub ssh_key: Option<String>,
    pub notify_email: Option<String>,
    pub release: Option<String>,
    /// Show the path of the config file and exit.
    pub show_config: bool,
    /// Show the configuration without provisioning.
    pub dry_run: bool,
    /// Force recreation of the server (Hetzner only).
    pub force: bool,
    /// Server name (Hetzner only).
    pub name: Option<String>,
    /// Server type (Hetzner only).
    pub server_type: Option<String>,
    /// Datacenter location (Hetzner only).
    pub location: Option<String>,
    /// Image (Hetzner only).
    pub image: Option<String>,
}

} // verus!
