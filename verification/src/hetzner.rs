//! The Hetzner flow: the parameters of the server, and when it is created, recreated or left alone.

use vstd::prelude::*;

use crate::args::Args;
use crate::config::Config;
use crate::resolve::first_given;
use crate::text::text_or;

verus! {

use crate::resolve::prefer;
use crate::text::or_default;

/// Parameters of a Hetzner server.
#[derive(Debug)]
pub struct HetznerParams {
    pub name: String,
    pub server_type: String,
    pub location: String,
    pub image: String,
}

/// The parameters from the command line, else from the configuration file, else the defaults.
pub fn resolve_hetzner_params(args: &Args, config: &Config) -> (params: HetznerParams)
    ensures
        params.name@ == or_default(prefer(args.name, config.server.name), "tengu"@),
        params.server_type@ == or_default(
            prefer(args.server_type, config.server.server_type),
            "cax41"@,
        ),
        params.location@ == or_default(prefer(args.location, config.server.location), "hel1"@),
        params.image@ == or_default(prefer(args.image, config.server.image), "ubuntu-24.04"@),
{
    HetznerParams {
        name: text_or(&first_given(&args.name, &config.server.name), "tengu"),
        server_type: text_or(&first_given(&args.server_type, &config.server.server_type), "cax41"),
        location: text_or(&first_given(&args.location, &config.server.location), "hel1"),
        image: text_or(&first_given(&args.image, &config.server.image), "ubuntu-24.04"),
    }
}

/// How far the Hetzner flow has come.
#[derive(Clone, Copy, Debug, PartialEq, Eq, Structural)]
pub struct HetznerProgress {
    /// Whether a server of the name exists, once that was looked up.
    pub found: Option<bool>,
    /// The answer to the question whether to recreate it, once that was asked.
    pub confirmed: Option<bool>,
    /// Whether the existing server was deleted.
    pub deleted: bool,
}

/// What the Hetzner flow does next.
#[derive(Clone, Copy, Debug, PartialEq, Eq, Structural)]
pub enum HetznerStep {
    /// Show the cloud-init configuration and stop.
    Preview,
    /// Look up whether the server exists.
    LookUp,
    /// Ask whether to delete and recreate the server.
    ConfirmRecreate,
    /// Stop without touching the server.
    Abort,
    /// Delete the existing server.
    Delete,
    /// Create the server and follow its setup to the end.
    Create,
}

/// What the Hetzner flow does next.
pub open spec fn next_hetzner_step(args: Args, progress: HetznerProgress) -> HetznerStep {
    if args.dry_run {
        HetznerStep::Preview
    } else {
        match progress.found {
            None => HetznerStep::LookUp,
            Some(found) => if !found || progress.deleted {
                HetznerStep::Create
            } else if args.force {
                HetznerStep::Delete
            } else {
                match progress.confirmed {
                    None => HetznerStep::ConfirmRecreate,
                    Some(confirmed) => if confirmed {
                        HetznerStep::Delete
                    } else {
                        HetznerStep::Abort
                    },
                }
            },
        }
    }
}

/// What the Hetzner flow does next.
pub fn hetzner_step(args: &Args, progress: HetznerProgress) -> (step: HetznerStep)
    ensures
        step == next_hetzner_step(*args, progress),
{
    if args.dry_run {
        return HetznerStep::Preview;
    }
    match progress.found {
        None => HetznerStep::LookUp,
        Some(found) => {
            if !found || progress.deleted {
                return HetznerStep::Create;
            }
            if args.force {
                return HetznerStep::Delete;
            }
            match progress.confirmed {
                None => HetznerStep::ConfirmRecreate,
                Some(confirmed) => if confirmed {
                    HetznerStep::Delete
                } else {
                    HetznerStep::Abort
                },
            }
        },
    }
}

/// A server is deleted only if it exists and its recreation is forced or confirmed.
pub proof fn law_delete_needs_consent(args: Args, progress: HetznerProgress)
    requires
        next_hetzner_step(args, progress) == HetznerStep::Delete,
    ensures
        progress.found == Some(true),
        args.force || progress.confirmed == Some(true),
{
}

/// A server is created only where none of the name exists any more.
pub proof fn law_create_needs_free_name(args: Args, progress: HetznerProgress)
    requires
        next_hetzner_step(args, progress) == HetznerStep::Create,
    ensures
        progress.found == Some(false) || progress.deleted,
{
}

/// What was done is not done again: a server is looked up, asked about and deleted at most once.
pub proof fn law_no_step_is_repeated(args: Args, progress: HetznerProgress)
    ensures
        progress.found is Some ==> next_hetzner_step(args, progress) != HetznerStep::LookUp,
        progress.confirmed is Some ==> next_hetzner_step(args, progress)
            != HetznerStep::ConfirmRecreate,
        progress.deleted ==> next_hetzner_step(args, progress) != HetznerStep::Delete,
{
}

/// A dry run neither looks up, deletes nor creates a server.
pub proof fn law_dry_run_touches_no_server(args: Args, progress: HetznerProgress)
    requires
        args.dry_run,
    ensures
        next_hetzner_step(args, progress) == HetznerStep::Preview,
{
}

} // verus!
