//! Laws of the flows: what a command line asks for, and what is done to a server.

use vstd::prelude::*;

use crate::args::{Args, Commands};
use crate::config::{load_config, Config, ConfigFile, LoadError};
use crate::hetzner::{hetzner_step, resolve_hetzner_params, HetznerParams, HetznerProgress,
    HetznerStep};
use crate::plan::{direct_step, removal_step, route, DirectStep, RemovalStep, Route, UsageError};
use crate::resolve::ResolvedConfig;
use crate::tengu_config::{direct_tengu_config, show_tengu_config, ssh_user, tunnel_config,
    TenguConfig, TunnelConfig};
use crate::tunnel::{login_result, LoginError};

verus! {

use crate::tengu_config::law_user_before_at;

/// Showing the path goes before everything else, then the `show` command, then a missing
/// destination, then removal, then Hetzner; what is left is the direct flow.
pub proof fn law_route(args: &Args, res: Result<Route, UsageError>)
    requires
        call_ensures(route, (args,), res),
    ensures
        args.show_config <==> res == Ok::<Route, UsageError>(Route::ConfigPath),
        !args.show_config && args.command is Some ==> (res matches Ok(Route::Show(format))
            && args.command == Some(Commands::Show(format))),
        res is Ok && res->Ok_0 is Show ==> !args.show_config && args.command is Some,
        res is Err && res->Err_0 == UsageError::MissingDestination <==> !args.show_config
            && args.command is None && args.host is None && !args.hetzner,
        res is Err && res->Err_0 == UsageError::RemoveNeedsHost <==> !args.show_config
            && args.command is None && args.host is None && args.hetzner && args.remove,
        res is Ok && res->Ok_0 is Remove <==> !args.show_config && args.command is None
            && args.host is Some && args.remove,
        res is Ok && res->Ok_0 is Hetzner <==> !args.show_config && args.command is None
            && args.hetzner && !args.remove,
        res is Ok && res->Ok_0 is Direct <==> !args.show_config && args.command is None
            && args.host is Some && !args.hetzner && !args.remove,
        (res matches Ok(Route::Remove { host }) ==> args.host == Some(host)),
        (res matches Ok(Route::Direct { host }) ==> args.host == Some(host)),
{
}

/// A script that is asked for is printed, and a host is provisioned only if neither a script nor a
/// dry run is asked for.
pub proof fn law_direct_step(args: &Args, step: DirectStep)
    requires
        call_ensures(direct_step, (args,), step),
    ensures
        args.script_only <==> step == DirectStep::PrintScript,
        step == DirectStep::Provision <==> !args.script_only && !args.dry_run,
        step == DirectStep::ShowOnly <==> args.dry_run && !args.script_only,
{
}

/// A removal is asked about first, and goes on only if the answer is yes. A script is then printed
/// if one is asked for; otherwise the host is touched.
pub proof fn law_removal_step(args: &Args, confirmed: Option<bool>, step: RemovalStep)
    requires
        call_ensures(removal_step, (args, confirmed), step),
    ensures
        step == RemovalStep::Confirm <==> confirmed is None,
        step == RemovalStep::Abort <==> confirmed == Some(false),
        step == RemovalStep::PrintScript <==> confirmed == Some(true) && args.script_only,
        step == RemovalStep::Remove <==> confirmed == Some(true) && !args.script_only,
{
}

/// A dry run is a preview. Otherwise the server is looked up; one that is there, and not deleted
/// yet, is deleted if that is forced or confirmed, asked about if it is neither, and left alone if
/// the answer is no. It is created where none is left.
pub proof fn law_hetzner_step(args: &Args, progress: HetznerProgress, step: HetznerStep)
    requires
        call_ensures(hetzner_step, (args, progress), step),
    ensures
        step == HetznerStep::Preview <==> args.dry_run,
        step == HetznerStep::LookUp <==> !args.dry_run && progress.found is None,
        step == HetznerStep::Create <==> !args.dry_run && (progress.found == Some(false)
            || progress.found == Some(true) && progress.deleted),
        step == HetznerStep::Delete <==> !args.dry_run && progress.found == Some(true)
            && !progress.deleted && (args.force || progress.confirmed == Some(true)),
        step == HetznerStep::ConfirmRecreate <==> !args.dry_run && progress.found == Some(true)
            && !progress.deleted && !args.force && progress.confirmed is None,
        step == HetznerStep::Abort <==> !args.dry_run && progress.found == Some(true)
            && !progress.deleted && !args.force && progress.confirmed == Some(false),
{
}

/// Each parameter of a server is that of the command line, else that of the configuration file,
/// else the default.
pub proof fn law_hetzner_params(args: &Args, config: &Config, params: HetznerParams)
    requires
        call_ensures(resolve_hetzner_params, (args, config), params),
    ensures
        args.name is Some ==> params.name@ == args.name->0@,
        args.name is None && config.server.name is Some ==> params.name@ == config.server.name->0@,
        args.name is None && config.server.name is None ==> params.name@ == "tengu"@,
        args.server_type is Some ==> params.server_type@ == args.server_type->0@,
        args.server_type is None && config.server.server_type is Some ==> params.server_type@ == config.server.server_type->0@,
        args.server_type is None && config.server.server_type is None ==> params.server_type@ == "cax41"@,
        args.location is Some ==> params.location@ == args.location->0@,
        args.location is None && config.server.location is Some ==> params.location@ == config.server.location->0@,
        args.location is None && config.server.location is None ==> params.location@ == "hel1"@,
        args.image is Some ==> params.image@ == args.image->0@,
        args.image is None && config.server.image is Some ==> params.image@ == config.server.image->0@,
        args.image is None && config.server.image is None ==> params.image@ == "ubuntu-24.04"@,
{
}

/// A configuration file that parses is used as it is, one that is missing sets nothing, and one that
/// cannot be read or parsed is an error.
pub proof fn law_load_config(file: ConfigFile, res: Result<Config, LoadError>)
    requires
        call_ensures(load_config, (file,), res),
    ensures
        file is Parsed ==> res == Ok::<Config, LoadError>(file->Parsed_0),
        file is Unreadable <==> res == Err::<Config, LoadError>(LoadError::Read),
        file is Malformed <==> res == Err::<Config, LoadError>(LoadError::Parse),
        file is Missing ==> {
            &&& res is Ok
            &&& res->Ok_0.server.name is None
            &&& res->Ok_0.server.server_type is None
            &&& res->Ok_0.server.location is None
            &&& res->Ok_0.server.image is None
            &&& res->Ok_0.server.release is None
            &&& res->Ok_0.domains.platform is None
            &&& res->Ok_0.domains.apps is None
            &&& res->Ok_0.cloudflare.api_key is None
            &&& res->Ok_0.cloudflare.email is None
            &&& res->Ok_0.resend.api_key is None
            &&& res->Ok_0.ssh.public_key is None
            &&& res->Ok_0.notifications.email is None
        },
{
}

/// The default configuration sets nothing.
pub proof fn law_default_config(config: Config)
    requires
        call_ensures(<Config as Default>::default, (), config),
    ensures
        config.server.name is None,
        config.server.server_type is None,
        config.server.location is None,
        config.server.image is None,
        config.server.release is None,
        config.domains.platform is None,
        config.domains.apps is None,
        config.cloudflare.api_key is None,
        config.cloudflare.email is None,
        config.resend.api_key is None,
        config.ssh.public_key is None,
        config.notifications.email is None,
{
}

/// The message of a load error names the whole path.
pub proof fn law_load_message(error: LoadError, path: &str, message: String)
    requires
        call_ensures(LoadError::message, (error, path), message),
    ensures
        error == LoadError::Read ==> message@ == "Failed to read config: "@ + path@,
        error == LoadError::Parse ==> message@ == "Failed to parse config: "@ + path@,
{
}

/// A login authenticates exactly if it was run and ended with success.
pub proof fn law_login_result(exit: Option<bool>, res: Result<(), LoginError>)
    requires
        call_ensures(login_result, (exit,), res),
    ensures
        res is Ok <==> exit == Some(true),
        res is Err && res->Err_0 == LoginError::NotRun <==> exit is None,
        res is Err && res->Err_0 == LoginError::Failed <==> exit == Some(false),
{
}

/// The user of `user@rest` is `user`, whatever follows the first at sign, and that of a destination
/// without one is `chi`.
pub proof fn law_ssh_user(host: &str, user: String, before: Seq<char>, after: Seq<char>)
    requires
        call_ensures(ssh_user, (host,), user),
    ensures
        !before.contains('@') && host@ == before + seq!['@'] + after ==> user@ == before,
        !host@.contains('@') ==> user@ == "chi"@,
{
    if !before.contains('@') && host@ == before + seq!['@'] + after {
        law_user_before_at(before, after);
    }
}

/// The configuration of a host is made of the resolved values, each in its place, with the user of
/// the destination and the key, unless it is empty.
pub proof fn law_direct_config(
    host: &str,
    resolved: &ResolvedConfig,
    config: TenguConfig,
    before: Seq<char>,
    after: Seq<char>,
)
    requires
        call_ensures(direct_tengu_config, (host, resolved), config),
    ensures
        !before.contains('@') && host@ == before + seq!['@'] + after ==> config.user@ == before,
        !host@.contains('@') ==> config.user@ == "chi"@,
        config.domain_platform@ == resolved.domain_platform@,
        config.domain_apps@ == resolved.domain_apps@,
        config.cf_api_key@ == resolved.cf_api_key@,
        config.cf_email@ == resolved.cf_email@,
        config.resend_api_key@ == resolved.resend_api_key@,
        config.notify_email@ == resolved.notify_email@,
        config.release@ == resolved.release@,
        resolved.ssh_key@.len() == 0 ==> config.ssh_keys@.len() == 0,
        resolved.ssh_key@.len() > 0 ==> config.ssh_keys@.len() == 1 && config.ssh_keys@[0]@
            == resolved.ssh_key@,
{
    if !before.contains('@') && host@ == before + seq!['@'] + after {
        law_user_before_at(before, after);
    }
}

/// The configuration that is shown has what the file sets, and a stand-in for each value that it
/// does not set.
pub proof fn law_shown_config(config: &Config, res: TenguConfig)
    requires
        call_ensures(show_tengu_config, (config,), res),
    ensures
        config.server.name is Some ==> res.user@ == config.server.name->0@,
        config.server.name is None ==> res.user@ == "chi"@,
        config.domains.platform is Some ==> res.domain_platform@ == config.domains.platform->0@,
        config.domains.platform is None ==> res.domain_platform@ == "tengu.to"@,
        config.domains.apps is Some ==> res.domain_apps@ == config.domains.apps->0@,
        config.domains.apps is None ==> res.domain_apps@ == "tengu.host"@,
        config.cloudflare.api_key is Some ==> res.cf_api_key@ == config.cloudflare.api_key->0@,
        config.cloudflare.api_key is None ==> res.cf_api_key@ == "<CF_API_KEY>"@,
        config.cloudflare.email is Some ==> res.cf_email@ == config.cloudflare.email->0@,
        config.cloudflare.email is None ==> res.cf_email@ == "<CF_EMAIL>"@,
        config.resend.api_key is Some ==> res.resend_api_key@ == config.resend.api_key->0@,
        config.resend.api_key is None ==> res.resend_api_key@ == "<RESEND_API_KEY>"@,
        config.notifications.email is Some ==> res.notify_email@ == config.notifications.email->0@,
        config.notifications.email is None ==> res.notify_email@ == "admin@example.com"@,
        config.server.release is Some ==> res.release@ == config.server.release->0@,
        config.server.release is None ==> res.release@ == "v0.1.0-22879bf"@,
        config.ssh.public_key is Some ==> res.ssh_keys@.len() == 1 && res.ssh_keys@[0]@
            == config.ssh.public_key->0@,
        config.ssh.public_key is None ==> res.ssh_keys@.len() == 0,
{
}

/// The tunnel has the platform domain, and is named `tengu`.
pub proof fn law_tunnel_config(resolved: &ResolvedConfig, tunnel: TunnelConfig)
    requires
        call_ensures(tunnel_config, (resolved,), tunnel),
    ensures
        tunnel.domain_platform@ == resolved.domain_platform@,
        tunnel.tunnel_name@ == "tengu"@,
{
}

} // verus!
