//! What a command line asks for, and the decisions of the removal and the direct flow.

use vstd::prelude::*;

use crate::args::{Args, Commands, OutputFormat};

verus! {

/// What a command line asks for.
#[derive(Debug)]
pub enum Route {
    /// Show the path of the configuration file.
    ConfigPath,
    /// Show the generated provisioning configuration.
    Show(OutputFormat),
    /// Remove Tengu from the host.
    Remove { host: String },
    /// Create a Hetzner server and provision it.
    Hetzner,
    /// Provision the host over SSH.
    Direct { host: String },
}

/// Why a command line cannot be followed.
#[derive(Clone, Copy, Debug, PartialEq, Eq, Structural)]
pub enum UsageError {
    /// Neither a host nor `--hetzner` is there.
    MissingDestination,
    /// `--remove` without a host.
    RemoveNeedsHost,
}

impl UsageError {
    pub open spec fn text(self) -> Seq<char> {
        match self {
            UsageError::MissingDestination =>
                "Missing SSH destination. Usage:\n  tengu-init user@host          Provision existing server\n  tengu-init --hetzner          Create Hetzner VPS and provision"@,
            UsageError::RemoveNeedsHost =>
                "--remove requires a host argument: tengu-init user@host --remove"@,
        }
    }

    pub fn message(self) -> (message: &'static str)
        ensures
            message@ == self.text(),
    {
        match self {
            UsageError::MissingDestination =>
                "Missing SSH destination. Usage:\n  tengu-init user@host          Provision existing server\n  tengu-init --hetzner          Create Hetzner VPS and provision",
            UsageError::RemoveNeedsHost =>
                "--remove requires a host argument: tengu-init user@host --remove",
        }
    }
}

/// What a command line asks for, or why it cannot be followed.
pub open spec fn route_of(args: Args) -> Result<Route, UsageError> {
    if args.show_config {
        Ok(Route::ConfigPath)
    } else if args.command is Some {
        match args.command->0 {
            Commands::Show(format) => Ok(Route::Show(format)),
        }
    } else if args.host is None && !args.hetzner {
        Err(UsageError::MissingDestination)
    } else if args.remove {
        match args.host {
            Some(host) => Ok(Route::Remove { host }),
            None => Err(UsageError::RemoveNeedsHost),
        }
    } else if args.hetzner {
        Ok(Route::Hetzner)
    } else {
        Ok(Route::Direct { host: args.host->0 })
    }
}

/// What a command line asks for, or why it cannot be followed.
pub fn route(args: &Args) -> (res: Result<Route, UsageError>)
    ensures
        res == route_of(*args),
{
    if args.show_config {
        return Ok(Route::ConfigPath);
    }
    if let Some(Commands::Show(format)) = args.command {
        return Ok(Route::Show(format));
    }
    match &args.host {
        Some(host) => {
            if args.remove {
                Ok(Route::Remove { host: host.clone() })
            } else if args.hetzner {
                Ok(Route::Hetzner)
            } else {
                Ok(Route::Direct { host: host.clone() })
            }
        },
        None => {
            if !args.hetzner {
                Err(UsageError::MissingDestination)
            } else if args.remove {
                Err(UsageError::RemoveNeedsHost)
            } else {
                Ok(Route::Hetzner)
            }
        },
    }
}

/// What the removal flow does next.
#[derive(Clone, Copy, Debug, PartialEq, Eq, Structural)]
pub enum RemovalStep {
    /// Ask whether to go on.
    Confirm,
    /// Stop without touching the host.
    Abort,
    /// Print the removal script and stop.
    PrintScript,
    /// Remove everything from the host.
    Remove,
}

/// What the removal flow does next; `confirmed` is the answer, once it was asked for. The question
/// is always asked: `--force` is about the recreation of a server only.
pub open spec fn next_removal_step(args: Args, confirmed: Option<bool>) -> RemovalStep {
    match confirmed {
        None => RemovalStep::Confirm,
        Some(false) => RemovalStep::Abort,
        Some(true) => if args.script_only {
            RemovalStep::PrintScript
        } else {
            RemovalStep::Remove
        },
    }
}

/// What the removal flow does next; `confirmed` is the answer, once it was asked for.
pub fn removal_step(args: &Args, confirmed: Option<bool>) -> (step: RemovalStep)
    ensures
        step == next_removal_step(*args, confirmed),
{
    match confirmed {
        None => RemovalStep::Confirm,
        Some(yes) => if !yes {
            RemovalStep::Abort
        } else if args.script_only {
            RemovalStep::PrintScript
        } else {
            RemovalStep::Remove
        },
    }
}

/// Nothing is removed from a host unless that is confirmed, and a script is not merely asked for.
pub proof fn law_removal_needs_consent(args: Args, confirmed: Option<bool>)
    requires
        next_removal_step(args, confirmed) == RemovalStep::Remove,
    ensures
        confirmed == Some(true),
        !args.script_only,
{
}

/// What the direct flow does once the configuration is resolved.
#[derive(Clone, Copy, Debug, PartialEq, Eq, Structural)]
pub enum DirectStep {
    /// Print the provisioning script and stop.
    PrintScript,
    /// Show the configuration and stop.
    ShowOnly,
    /// Show the configuration, provision the host and set up its tunnel.
    Provision,
}

/// What the direct flow does once the configuration is resolved.
pub open spec fn next_direct_step(args: Args) -> DirectStep {
    if args.script_only {
        DirectStep::PrintScript
    } else if args.dry_run {
        DirectStep::ShowOnly
    } else {
        DirectStep::Provision
    }
}

/// What the direct flow does once the configuration is resolved.
pub fn direct_step(args: &Args) -> (step: DirectStep)
    ensures
        step == next_direct_step(*args),
{
    if args.script_only {
        DirectStep::PrintScript
    } else if args.dry_run {
        DirectStep::ShowOnly
    } else {
        DirectStep::Provision
    }
}

/// A host is provisioned or removed from only if the command line names it.
pub proof fn law_host_is_named(args: Args)
    ensures
        route_of(args) is Ok ==> match route_of(args)->Ok_0 {
            Route::Remove { host } => args.host == Some(host) && args.remove,
            Route::Direct { host } => args.host == Some(host) && !args.remove && !args.hetzner,
            _ => true,
        },
{
}

} // verus!
