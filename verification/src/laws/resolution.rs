//! Laws of the resolution of the configuration.

use vstd::prelude::*;

use crate::args::Args;
use crate::config::Config;
use crate::resolve::{first_given, needs_interactive, validate_email, Draft, EnvVars, Field, Reply,
    Request, ResolveError, ResolvedConfig, Tunnel};
use crate::tunnel::LoginError;

verus! {

use crate::resolve::{initial, law_given_value_wins, run};

/// Whether two optional strings have the same contents.
pub open spec fn same_text(left: Option<String>, right: Option<String>) -> bool {
    match (left, right) {
        (Some(a), Some(b)) => a@ == b@,
        (None, None) => true,
        _ => false,
    }
}

/// Of two sources the first counts, if it has a value.
pub proof fn law_first_source_counts(
    first: &Option<String>,
    second: &Option<String>,
    res: Option<String>,
)
    requires
        call_ensures(first_given, (first, second), res),
    ensures
        first is Some ==> res == *first,
        first is None ==> res == *second,
{
}

/// A resolution starts with the value of the command line for each field, else with that of the
/// environment, else with that of the configuration file, else without one. The tunnel is not
/// checked yet, and no key detected.
pub proof fn law_sources_in_order(
    args: &Args,
    env: &EnvVars,
    config: &Config,
    draft: Draft<String>,
)
    requires
        call_ensures(Draft::<String>::start, (args, env, config), draft),
    ensures
        args.cf_email is Some ==> draft.cf_email is Some && draft.cf_email->0@ == args.cf_email->0@,
        args.cf_email is None && env.cf_email is Some ==> draft.cf_email is Some && draft.cf_email->0@ == env.cf_email->0@,
        args.cf_email is None && env.cf_email is None && config.cloudflare.email is Some ==> draft.cf_email is Some && draft.cf_email->0@ == config.cloudflare.email->0@,
        args.cf_email is None && env.cf_email is None && config.cloudflare.email is None ==> draft.cf_email is None,
        args.cf_api_key is Some ==> draft.cf_api_key is Some && draft.cf_api_key->0@ == args.cf_api_key->0@,
        args.cf_api_key is None && env.cf_api_key is Some ==> draft.cf_api_key is Some && draft.cf_api_key->0@ == env.cf_api_key->0@,
        args.cf_api_key is None && env.cf_api_key is None && config.cloudflare.api_key is Some ==> draft.cf_api_key is Some && draft.cf_api_key->0@ == config.cloudflare.api_key->0@,
        args.cf_api_key is None && env.cf_api_key is None && config.cloudflare.api_key is None ==> draft.cf_api_key is None,
        args.resend_api_key is Some ==> draft.resend_api_key is Some && draft.resend_api_key->0@ == args.resend_api_key->0@,
        args.resend_api_key is None && env.resend_api_key is Some ==> draft.resend_api_key is Some && draft.resend_api_key->0@ == env.resend_api_key->0@,
        args.resend_api_key is None && env.resend_api_key is None && config.resend.api_key is Some ==> draft.resend_api_key is Some && draft.resend_api_key->0@ == config.resend.api_key->0@,
        args.resend_api_key is None && env.resend_api_key is None && config.resend.api_key is None ==> draft.resend_api_key is None,
        args.domain_platform is Some ==> draft.domain_platform is Some && draft.domain_platform->0@ == args.domain_platform->0@,
        args.domain_platform is None && config.domains.platform is Some ==> draft.domain_platform is Some && draft.domain_platform->0@ == config.domains.platform->0@,
        args.domain_platform is None && config.domains.platform is None ==> draft.domain_platform is None,
        args.domain_apps is Some ==> draft.domain_apps is Some && draft.domain_apps->0@ == args.domain_apps->0@,
        args.domain_apps is None && config.domains.apps is Some ==> draft.domain_apps is Some && draft.domain_apps->0@ == config.domains.apps->0@,
        args.domain_apps is None && config.domains.apps is None ==> draft.domain_apps is None,
        args.ssh_key is Some ==> draft.ssh_key is Some && draft.ssh_key->0@ == args.ssh_key->0@,
        args.ssh_key is None && env.ssh_public_key is Some ==> draft.ssh_key is Some && draft.ssh_key->0@ == env.ssh_public_key->0@,
        args.ssh_key is None && env.ssh_public_key is None && config.ssh.public_key is Some ==> draft.ssh_key is Some && draft.ssh_key->0@ == config.ssh.public_key->0@,
        args.ssh_key is None && env.ssh_public_key is None && config.ssh.public_key is None ==> draft.ssh_key is None,
        args.notify_email is Some ==> draft.notify_email is Some && draft.notify_email->0@ == args.notify_email->0@,
        args.notify_email is None && config.notifications.email is Some ==> draft.notify_email is Some && draft.notify_email->0@ == config.notifications.email->0@,
        args.notify_email is None && config.notifications.email is None ==> draft.notify_email is None,
        args.release is Some ==> draft.release is Some && draft.release->0@ == args.release->0@,
        args.release is None && config.server.release is Some ==> draft.release is Some && draft.release->0@ == config.server.release->0@,
        args.release is None && config.server.release is None ==> draft.release is None,
        draft.tunnel == Tunnel::Unchecked,
        draft.detected_key is None,
{
    let view = draft@;
    assert(view.cf_email is Some <==> draft.cf_email is Some);
    assert(view.cf_api_key is Some <==> draft.cf_api_key is Some);
    assert(view.resend_api_key is Some <==> draft.resend_api_key is Some);
    assert(view.domain_platform is Some <==> draft.domain_platform is Some);
    assert(view.domain_apps is Some <==> draft.domain_apps is Some);
    assert(view.ssh_key is Some <==> draft.ssh_key is Some);
    assert(view.notify_email is Some <==> draft.notify_email is Some);
    assert(view.release is Some <==> draft.release is Some);
}

/// Whatever is replied on the way, the resolved values are those of the command line, else of the
/// environment, else of the configuration file, where one of them has a value.
pub proof fn law_sources_beat_replies(
    args: Args,
    env: EnvVars,
    config: Config,
    replies: Seq<Reply<Seq<char>>>,
    draft: Draft<Seq<char>>,
)
    requires
        run(initial(args, env, config), replies) == Ok::<Draft<Seq<char>>, ResolveError>(draft),
    ensures
        args.cf_email is Some ==> draft.cf_email is Some && draft.cf_email->0 == args.cf_email->0@,
        args.cf_email is None && env.cf_email is Some ==> draft.cf_email is Some && draft.cf_email->0 == env.cf_email->0@,
        args.cf_email is None && env.cf_email is None && config.cloudflare.email is Some ==> draft.cf_email is Some && draft.cf_email->0 == config.cloudflare.email->0@,
        args.cf_api_key is Some ==> draft.cf_api_key is Some && draft.cf_api_key->0 == args.cf_api_key->0@,
        args.cf_api_key is None && env.cf_api_key is Some ==> draft.cf_api_key is Some && draft.cf_api_key->0 == env.cf_api_key->0@,
        args.cf_api_key is None && env.cf_api_key is None && config.cloudflare.api_key is Some ==> draft.cf_api_key is Some && draft.cf_api_key->0 == config.cloudflare.api_key->0@,
        args.resend_api_key is Some ==> draft.resend_api_key is Some && draft.resend_api_key->0 == args.resend_api_key->0@,
        args.resend_api_key is None && env.resend_api_key is Some ==> draft.resend_api_key is Some && draft.resend_api_key->0 == env.resend_api_key->0@,
        args.resend_api_key is None && env.resend_api_key is None && config.resend.api_key is Some ==> draft.resend_api_key is Some && draft.resend_api_key->0 == config.resend.api_key->0@,
        args.domain_platform is Some ==> draft.domain_platform is Some && draft.domain_platform->0 == args.domain_platform->0@,
        args.domain_platform is None && config.domains.platform is Some ==> draft.domain_platform is Some && draft.domain_platform->0 == config.domains.platform->0@,
        args.domain_apps is Some ==> draft.domain_apps is Some && draft.domain_apps->0 == args.domain_apps->0@,
        args.domain_apps is None && config.domains.apps is Some ==> draft.domain_apps is Some && draft.domain_apps->0 == config.domains.apps->0@,
        args.ssh_key is Some ==> draft.ssh_key is Some && draft.ssh_key->0 == args.ssh_key->0@,
        args.ssh_key is None && env.ssh_public_key is Some ==> draft.ssh_key is Some && draft.ssh_key->0 == env.ssh_public_key->0@,
        args.ssh_key is None && env.ssh_public_key is None && config.ssh.public_key is Some ==> draft.ssh_key is Some && draft.ssh_key->0 == config.ssh.public_key->0@,
        args.notify_email is Some ==> draft.notify_email is Some && draft.notify_email->0 == args.notify_email->0@,
        args.notify_email is None && config.notifications.email is Some ==> draft.notify_email is Some && draft.notify_email->0 == config.notifications.email->0@,
        args.release is Some ==> draft.release is Some && draft.release->0 == args.release->0@,
        args.release is None && config.server.release is Some ==> draft.release is Some && draft.release->0 == config.server.release->0@,
{
    if args.cf_email is Some || env.cf_email is Some || config.cloudflare.email is Some {
        law_given_value_wins(args, env, config, replies, Field::CfEmail);
    }
    if args.cf_api_key is Some || env.cf_api_key is Some || config.cloudflare.api_key is Some {
        law_given_value_wins(args, env, config, replies, Field::CfApiKey);
    }
    if args.resend_api_key is Some || env.resend_api_key is Some || config.resend.api_key is Some {
        law_given_value_wins(args, env, config, replies, Field::ResendApiKey);
    }
    if args.domain_platform is Some || config.domains.platform is Some {
        law_given_value_wins(args, env, config, replies, Field::DomainPlatform);
    }
    if args.domain_apps is Some || config.domains.apps is Some {
        law_given_value_wins(args, env, config, replies, Field::DomainApps);
    }
    if args.ssh_key is Some || env.ssh_public_key is Some || config.ssh.public_key is Some {
        law_given_value_wins(args, env, config, replies, Field::SshKey);
    }
    if args.notify_email is Some || config.notifications.email is Some {
        law_given_value_wins(args, env, config, replies, Field::NotifyEmail);
    }
    if args.release is Some || config.server.release is Some {
        law_given_value_wins(args, env, config, replies, Field::Release);
    }
}

/// The credential header is shown exactly if no source has the Cloudflare email.
pub proof fn law_header_without_email(args: &Args, env: &EnvVars, config: &Config, yes: bool)
    requires
        call_ensures(needs_interactive, (args, env, config), yes),
    ensures
        yes <==> args.cf_email is None && env.cf_email is None && config.cloudflare.email is None,
{
}

/// An email address is accepted exactly if it holds an at sign and a dot.
pub proof fn law_email_needs_at_and_dot(input: &str, res: Result<(), &'static str>)
    requires
        call_ensures(validate_email, (input,), res),
    ensures
        res is Ok <==> (exists|i: int| 0 <= i < input@.len() && input@[i] == '@') && (exists|i: int|
            0 <= i < input@.len() && input@[i] == '.'),
        res is Err ==> res->Err_0@ == "Please enter a valid email address"@,
{
    assert(input@.contains('@') <==> exists|i: int| 0 <= i < input@.len() && input@[i] == '@');
    assert(input@.contains('.') <==> exists|i: int| 0 <= i < input@.len() && input@[i] == '.');
}

/// The values are asked for in a fixed order, each only if it is missing and nothing before it is;
/// the tunnel comes after the Cloudflare key, and key detection before the prompt for the key.
pub proof fn law_requests_in_order(draft: &Draft<String>, request: Request<String>)
    requires
        call_ensures(Draft::<String>::request, (draft,), request),
    ensures
        ((draft.cf_email is None) ==> (request matches Request::Text { field, default } && field == Field::CfEmail && default is None)),
        (!(draft.cf_email is None) && (draft.cf_api_key is None) ==> (request == Request::<String>::Secret { field: Field::CfApiKey })),
        (!(draft.cf_email is None) && !(draft.cf_api_key is None) && (draft.tunnel == Tunnel::Unchecked) ==> (request == Request::<String>::CheckTunnelCert)),
        (!(draft.cf_email is None) && !(draft.cf_api_key is None) && !(draft.tunnel == Tunnel::Unchecked) && (draft.tunnel == Tunnel::LoginNeeded) ==> (request == Request::<String>::TunnelLogin)),
        (!(draft.cf_email is None) && !(draft.cf_api_key is None) && !(draft.tunnel == Tunnel::Unchecked) && !(draft.tunnel == Tunnel::LoginNeeded) && (draft.resend_api_key is None) ==> (request == Request::<String>::Secret { field: Field::ResendApiKey })),
        (!(draft.cf_email is None) && !(draft.cf_api_key is None) && !(draft.tunnel == Tunnel::Unchecked) && !(draft.tunnel == Tunnel::LoginNeeded) && !(draft.resend_api_key is None) && (draft.domain_platform is None) ==> (request matches Request::Text { field, default } && field == Field::DomainPlatform && default is Some && default->0@ == "tengu.to"@)),
        (!(draft.cf_email is None) && !(draft.cf_api_key is None) && !(draft.tunnel == Tunnel::Unchecked) && !(draft.tunnel == Tunnel::LoginNeeded) && !(draft.resend_api_key is None) && !(draft.domain_platform is None) && (draft.domain_apps is None) ==> (request matches Request::Text { field, default } && field == Field::DomainApps && default is Some && default->0@ == "tengu.host"@)),
        (!(draft.cf_email is None) && !(draft.cf_api_key is None) && !(draft.tunnel == Tunnel::Unchecked) && !(draft.tunnel == Tunnel::LoginNeeded) && !(draft.resend_api_key is None) && !(draft.domain_platform is None) && !(draft.domain_apps is None) && (draft.ssh_key is None && draft.detected_key is None) ==> (request == Request::<String>::DetectSshKey)),
        (!(draft.cf_email is None) && !(draft.cf_api_key is None) && !(draft.tunnel == Tunnel::Unchecked) && !(draft.tunnel == Tunnel::LoginNeeded) && !(draft.resend_api_key is None) && !(draft.domain_platform is None) && !(draft.domain_apps is None) && !(draft.ssh_key is None && draft.detected_key is None) && (draft.ssh_key is None) ==> (request matches Request::Text { field, default } && field == Field::SshKey && same_text(default, draft.detected_key->0))),
        (!(draft.cf_email is None) && !(draft.cf_api_key is None) && !(draft.tunnel == Tunnel::Unchecked) && !(draft.tunnel == Tunnel::LoginNeeded) && !(draft.resend_api_key is None) && !(draft.domain_platform is None) && !(draft.domain_apps is None) && !(draft.ssh_key is None && draft.detected_key is None) && !(draft.ssh_key is None) && (draft.notify_email is None) ==> (request matches Request::Text { field, default } && field == Field::NotifyEmail && same_text(default, draft.cf_email))),
        (!(draft.cf_email is None) && !(draft.cf_api_key is None) && !(draft.tunnel == Tunnel::Unchecked) && !(draft.tunnel == Tunnel::LoginNeeded) && !(draft.resend_api_key is None) && !(draft.domain_platform is None) && !(draft.domain_apps is None) && !(draft.ssh_key is None && draft.detected_key is None) && !(draft.ssh_key is None) && !(draft.notify_email is None) && (draft.release is None) ==> (request matches Request::Text { field, default } && field == Field::Release && default is Some && default->0@ == "v0.1.0-22879bf"@)),
        (!(draft.cf_email is None) && !(draft.cf_api_key is None) && !(draft.tunnel == Tunnel::Unchecked) && !(draft.tunnel == Tunnel::LoginNeeded) && !(draft.resend_api_key is None) && !(draft.domain_platform is None) && !(draft.domain_apps is None) && !(draft.ssh_key is None && draft.detected_key is None) && !(draft.ssh_key is None) && !(draft.notify_email is None) && !(draft.release is None) ==> request == Request::<String>::Nothing),
{
    let view = draft@;
    let shown = request@;
    assert(view.cf_email is Some <==> draft.cf_email is Some);
    assert(view.cf_api_key is Some <==> draft.cf_api_key is Some);
    assert(view.resend_api_key is Some <==> draft.resend_api_key is Some);
    assert(view.domain_platform is Some <==> draft.domain_platform is Some);
    assert(view.domain_apps is Some <==> draft.domain_apps is Some);
    assert(view.ssh_key is Some <==> draft.ssh_key is Some);
    assert(view.notify_email is Some <==> draft.notify_email is Some);
    assert(view.release is Some <==> draft.release is Some);
    assert(view.detected_key is Some <==> draft.detected_key is Some);
    assert(view.tunnel == draft.tunnel);
    assert(shown == view.pending());
}

/// Whether a request asks for the field.
pub open spec fn asks(request: Request<String>, field: Field) -> bool {
    ||| request matches Request::Text { field: asked, default } && asked == field
    ||| request matches Request::Secret { field: asked } && asked == field
}

/// A typed value becomes the value of the field that was asked for, as it was typed, and no other
/// value changes. Only an email address without an at sign or a dot is not taken.
pub proof fn law_typed_value_is_kept(
    draft: Draft<String>,
    request: Request<String>,
    reply: Reply<String>,
    res: Result<Draft<String>, ResolveError>,
)
    requires
        call_ensures(Draft::<String>::request, (&draft,), request),
        call_ensures(Draft::<String>::answer, (draft, reply), res),
        res is Ok,
    ensures
        asks(request, Field::CfEmail) && reply is Text && reply->Text_0@.contains('@') && reply->Text_0@.contains('.') ==> res->Ok_0.cf_email is Some
            && res->Ok_0.cf_email->0@ == reply->Text_0@,
        !(asks(request, Field::CfEmail) && reply is Text && reply->Text_0@.contains('@') && reply->Text_0@.contains('.')) ==> same_text(res->Ok_0.cf_email, draft.cf_email),
        asks(request, Field::CfApiKey) && reply is Text ==> res->Ok_0.cf_api_key is Some
            && res->Ok_0.cf_api_key->0@ == reply->Text_0@,
        !(asks(request, Field::CfApiKey) && reply is Text) ==> same_text(res->Ok_0.cf_api_key, draft.cf_api_key),
        asks(request, Field::ResendApiKey) && reply is Text ==> res->Ok_0.resend_api_key is Some
            && res->Ok_0.resend_api_key->0@ == reply->Text_0@,
        !(asks(request, Field::ResendApiKey) && reply is Text) ==> same_text(res->Ok_0.resend_api_key, draft.resend_api_key),
        asks(request, Field::DomainPlatform) && reply is Text ==> res->Ok_0.domain_platform is Some
            && res->Ok_0.domain_platform->0@ == reply->Text_0@,
        !(asks(request, Field::DomainPlatform) && reply is Text) ==> same_text(res->Ok_0.domain_platform, draft.domain_platform),
        asks(request, Field::DomainApps) && reply is Text ==> res->Ok_0.domain_apps is Some
            && res->Ok_0.domain_apps->0@ == reply->Text_0@,
        !(asks(request, Field::DomainApps) && reply is Text) ==> same_text(res->Ok_0.domain_apps, draft.domain_apps),
        asks(request, Field::SshKey) && reply is Text ==> res->Ok_0.ssh_key is Some
            && res->Ok_0.ssh_key->0@ == reply->Text_0@,
        !(asks(request, Field::SshKey) && reply is Text) ==> same_text(res->Ok_0.ssh_key, draft.ssh_key),
        asks(request, Field::NotifyEmail) && reply is Text ==> res->Ok_0.notify_email is Some
            && res->Ok_0.notify_email->0@ == reply->Text_0@,
        !(asks(request, Field::NotifyEmail) && reply is Text) ==> same_text(res->Ok_0.notify_email, draft.notify_email),
        asks(request, Field::Release) && reply is Text ==> res->Ok_0.release is Some
            && res->Ok_0.release->0@ == reply->Text_0@,
        !(asks(request, Field::Release) && reply is Text) ==> same_text(res->Ok_0.release, draft.release),
{
    let after = res->Ok_0;
    let shown = after@;
    let before = draft@;
    let typed = reply@;
    let asked = request@;
    assert(asked == before.pending());
    assert(shown.cf_email is Some <==> after.cf_email is Some);
    assert(before.cf_email is Some <==> draft.cf_email is Some);
    assert(shown.cf_api_key is Some <==> after.cf_api_key is Some);
    assert(before.cf_api_key is Some <==> draft.cf_api_key is Some);
    assert(shown.resend_api_key is Some <==> after.resend_api_key is Some);
    assert(before.resend_api_key is Some <==> draft.resend_api_key is Some);
    assert(shown.domain_platform is Some <==> after.domain_platform is Some);
    assert(before.domain_platform is Some <==> draft.domain_platform is Some);
    assert(shown.domain_apps is Some <==> after.domain_apps is Some);
    assert(before.domain_apps is Some <==> draft.domain_apps is Some);
    assert(shown.ssh_key is Some <==> after.ssh_key is Some);
    assert(before.ssh_key is Some <==> draft.ssh_key is Some);
    assert(shown.notify_email is Some <==> after.notify_email is Some);
    assert(before.notify_email is Some <==> draft.notify_email is Some);
    assert(shown.release is Some <==> after.release is Some);
    assert(before.release is Some <==> draft.release is Some);
}

/// A resolution fails exactly if a prompt fails, or if the login is run without success; the error
/// says which.
pub proof fn law_errors_of_resolution(
    draft: Draft<String>,
    request: Request<String>,
    reply: Reply<String>,
    res: Result<Draft<String>, ResolveError>,
)
    requires
        call_ensures(Draft::<String>::request, (&draft,), request),
        call_ensures(Draft::<String>::answer, (draft, reply), res),
    ensures
        forall|field: Field|
            reply is PromptFailed && #[trigger] asks(request, field) ==> res is Err && res->Err_0
                == ResolveError::Prompt(field),
        request is TunnelLogin && reply == Reply::<String>::LoginExit(None) ==> res is Err
            && res->Err_0 == ResolveError::Login(LoginError::NotRun),
        request is TunnelLogin && reply == Reply::<String>::LoginExit(Some(false)) ==> res is Err
            && res->Err_0 == ResolveError::Login(LoginError::Failed),
        res is Err ==> {
            ||| reply is PromptFailed && (request is Text || request is Secret)
            ||| request is TunnelLogin && reply is LoginExit && reply->LoginExit_0 != Some(true)
        },
{
    let before = draft@;
    let typed = reply@;
    let asked = request@;
    assert(asked == before.pending());
}

/// The tunnel is ready once its certificate is found or the login ended with success, needs a login
/// if the certificate is missing, and is as it was otherwise. A detected key is kept as it is.
pub proof fn law_tunnel_and_key_are_noted(
    draft: Draft<String>,
    request: Request<String>,
    reply: Reply<String>,
    res: Result<Draft<String>, ResolveError>,
)
    requires
        call_ensures(Draft::<String>::request, (&draft,), request),
        call_ensures(Draft::<String>::answer, (draft, reply), res),
        res is Ok,
    ensures
        request is CheckTunnelCert && reply == Reply::<String>::TunnelCert(true)
            ==> res->Ok_0.tunnel == Tunnel::Ready,
        request is CheckTunnelCert && reply == Reply::<String>::TunnelCert(false)
            ==> res->Ok_0.tunnel == Tunnel::LoginNeeded,
        request is TunnelLogin && reply is LoginExit ==> res->Ok_0.tunnel == Tunnel::Ready,
        !(request is CheckTunnelCert && reply is TunnelCert) && !(request is TunnelLogin
            && reply is LoginExit) ==> res->Ok_0.tunnel == draft.tunnel,
        request is DetectSshKey && reply is DetectedKey ==> res->Ok_0.detected_key is Some
            && same_text(res->Ok_0.detected_key->0, reply->DetectedKey_0),
        !(request is DetectSshKey && reply is DetectedKey) ==> {
            &&& res->Ok_0.detected_key is Some <==> draft.detected_key is Some
            &&& draft.detected_key is Some ==> same_text(
                res->Ok_0.detected_key->0,
                draft.detected_key->0,
            )
        },
{
    let after = res->Ok_0;
    let shown = after@;
    let before = draft@;
    let typed = reply@;
    let asked = request@;
    assert(asked == before.pending());
    assert(shown.tunnel == after.tunnel);
    assert(shown.detected_key is Some <==> after.detected_key is Some);
    assert(before.detected_key is Some <==> draft.detected_key is Some);
}

/// A resolution ends exactly if the tunnel is ready and no value is missing, and the values of the
/// draft are those of the configuration, each in its place.
pub proof fn law_configuration_is_complete(draft: Draft<String>, res: Option<ResolvedConfig>)
    requires
        call_ensures(Draft::<String>::finish, (draft,), res),
    ensures
        res is Some <==> {
            &&& draft.tunnel == Tunnel::Ready
            &&& draft.cf_email is Some
            &&& draft.cf_api_key is Some
            &&& draft.resend_api_key is Some
            &&& draft.domain_platform is Some
            &&& draft.domain_apps is Some
            &&& draft.ssh_key is Some
            &&& draft.notify_email is Some
            &&& draft.release is Some
        },
        res is Some ==> res->0.cf_email@ == draft.cf_email->0@,
        res is Some ==> res->0.cf_api_key@ == draft.cf_api_key->0@,
        res is Some ==> res->0.resend_api_key@ == draft.resend_api_key->0@,
        res is Some ==> res->0.domain_platform@ == draft.domain_platform->0@,
        res is Some ==> res->0.domain_apps@ == draft.domain_apps->0@,
        res is Some ==> res->0.ssh_key@ == draft.ssh_key->0@,
        res is Some ==> res->0.notify_email@ == draft.notify_email->0@,
        res is Some ==> res->0.release@ == draft.release->0@,
{
    let view = draft@;
    assert(view.cf_email is Some <==> draft.cf_email is Some);
    assert(view.cf_api_key is Some <==> draft.cf_api_key is Some);
    assert(view.resend_api_key is Some <==> draft.resend_api_key is Some);
    assert(view.domain_platform is Some <==> draft.domain_platform is Some);
    assert(view.domain_apps is Some <==> draft.domain_apps is Some);
    assert(view.ssh_key is Some <==> draft.ssh_key is Some);
    assert(view.notify_email is Some <==> draft.notify_email is Some);
    assert(view.release is Some <==> draft.release is Some);
    if res is Some {
        assert(view.value(Field::CfEmail) == Some(res->0.value(Field::CfEmail)));
        assert(view.value(Field::CfApiKey) == Some(res->0.value(Field::CfApiKey)));
        assert(view.value(Field::ResendApiKey) == Some(res->0.value(Field::ResendApiKey)));
        assert(view.value(Field::DomainPlatform) == Some(res->0.value(Field::DomainPlatform)));
        assert(view.value(Field::DomainApps) == Some(res->0.value(Field::DomainApps)));
        assert(view.value(Field::SshKey) == Some(res->0.value(Field::SshKey)));
        assert(view.value(Field::NotifyEmail) == Some(res->0.value(Field::NotifyEmail)));
        assert(view.value(Field::Release) == Some(res->0.value(Field::Release)));
    }
}

} // verus!
