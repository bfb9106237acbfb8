//! Resolution of the provisioning configuration.
//!
//! Each value comes from the first source that has it: command line, environment, configuration
//! file, interactive prompt. What the first three leave open is asked for, one request at a time:
//! a [`Draft`] says what it needs next, and takes the reply.

use vstd::prelude::*;

use crate::args::Args;
use crate::config::Config;
use crate::text::{contains_char, copy_opt};
use crate::tunnel::{login_result, LoginError};

verus! {

use crate::text::opt_text;

/// The release that is offered when none is given.
pub const DEFAULT_RELEASE: &'static str = "v0.1.0-22879bf";

/// The values that are resolved.
#[derive(Clone, Copy, Debug, PartialEq, Eq, Structural)]
pub enum Field {
    CfEmail,
    CfApiKey,
    ResendApiKey,
    DomainPlatform,
    DomainApps,
    SshKey,
    NotifyEmail,
    Release,
}

/// The environment variables that are looked at.
#[derive(Debug)]
pub struct EnvVars {
    /// `CF_EMAIL`
    pub cf_email: Option<String>,
    /// `CF_API_KEY`
    pub cf_api_key: Option<String>,
    /// `RESEND_API_KEY`
    pub resend_api_key: Option<String>,
    /// `SSH_PUBLIC_KEY`
    pub ssh_public_key: Option<String>,
}

/// Provisioning configuration with every value present.
#[derive(Debug)]
pub struct ResolvedConfig {
    pub domain_platform: String,
    pub domain_apps: String,
    pub cf_api_key: String,
    pub cf_email: String,
    pub resend_api_key: String,
    pub notify_email: String,
    pub ssh_key: String,
    pub release: String,
}

impl ResolvedConfig {
    /// The value of a field.
    pub open spec fn value(self, field: Field) -> Seq<char> {
        match field {
            Field::CfEmail => self.cf_email@,
            Field::CfApiKey => self.cf_api_key@,
            Field::ResendApiKey => self.resend_api_key@,
            Field::DomainPlatform => self.domain_platform@,
            Field::DomainApps => self.domain_apps@,
            Field::SshKey => self.ssh_key@,
            Field::NotifyEmail => self.notify_email@,
            Field::Release => self.release@,
        }
    }
}

/// The first of two sources that has a value.
pub open spec fn prefer<A>(first: Option<A>, second: Option<A>) -> Option<A> {
    if first is Some {
        first
    } else {
        second
    }
}

/// The first of two sources that has a value.
pub fn first_given(first: &Option<String>, second: &Option<String>) -> (res: Option<String>)
    ensures
        res == prefer(*first, *second),
{
    if first.is_some() {
        copy_opt(first)
    } else {
        copy_opt(second)
    }
}

/// What command line, environment and configuration file have for a field, in that order.
pub open spec fn given(args: Args, env: EnvVars, config: Config, field: Field) -> Option<Seq<char>> {
    opt_text(
        match field {
            Field::CfEmail => prefer(prefer(args.cf_email, env.cf_email), config.cloudflare.email),
            Field::CfApiKey => prefer(
                prefer(args.cf_api_key, env.cf_api_key),
                config.cloudflare.api_key,
            ),
            Field::ResendApiKey => prefer(
                prefer(args.resend_api_key, env.resend_api_key),
                config.resend.api_key,
            ),
            Field::DomainPlatform => prefer(args.domain_platform, config.domains.platform),
            Field::DomainApps => prefer(args.domain_apps, config.domains.apps),
            Field::SshKey => prefer(prefer(args.ssh_key, env.ssh_public_key), config.ssh.public_key),
            Field::NotifyEmail => prefer(args.notify_email, config.notifications.email),
            Field::Release => prefer(args.release, config.server.release),
        },
    )
}

/// Whether the credential header is shown: no source has the Cloudflare email.
pub fn needs_interactive(args: &Args, env: &EnvVars, config: &Config) -> (yes: bool)
    ensures
        yes == (given(*args, *env, *config, Field::CfEmail) is None),
{
    args.cf_email.is_none() && env.cf_email.is_none() && config.cloudflare.email.is_none()
}

/// What counts as an email address at the prompt.
pub open spec fn valid_email(input: Seq<char>) -> bool {
    input.contains('@') && input.contains('.')
}

/// Checks an email address that was typed at the prompt.
pub fn validate_email(input: &str) -> (res: Result<(), &'static str>)
    ensures
        res is Ok <==> valid_email(input@),
        res is Err ==> res->Err_0@ == "Please enter a valid email address"@,
{
    if contains_char(input, '@') && contains_char(input, '.') {
        Ok(())
    } else {
        Err("Please enter a valid email address")
    }
}

/// Whether Cloudflare tunnel authentication is in place.
#[derive(Clone, Copy, Debug, PartialEq, Eq, Structural)]
pub enum Tunnel {
    Unchecked,
    LoginNeeded,
    Ready,
}

/// Why the configuration could not be resolved.
#[derive(Clone, Copy, Debug, PartialEq, Eq, Structural)]
pub enum ResolveError {
    /// The prompt for the field failed.
    Prompt(Field),
    /// Tunnel authentication failed.
    Login(LoginError),
}

impl ResolveError {
    pub open spec fn text(self) -> Seq<char> {
        match self {
            ResolveError::Prompt(Field::CfEmail) => "Failed to read Cloudflare email"@,
            ResolveError::Prompt(Field::CfApiKey) => "Failed to read Cloudflare API key"@,
            ResolveError::Prompt(Field::ResendApiKey) => "Failed to read Resend API key"@,
            ResolveError::Prompt(Field::DomainPlatform) => "Failed to read platform domain"@,
            ResolveError::Prompt(Field::DomainApps) => "Failed to read apps domain"@,
            ResolveError::Prompt(Field::SshKey) => "Failed to read SSH public key"@,
            ResolveError::Prompt(Field::NotifyEmail) => "Failed to read notification email"@,
            ResolveError::Prompt(Field::Release) => "Failed to read release tag"@,
            ResolveError::Login(error) => error.text(),
        }
    }

    pub fn message(self) -> (message: &'static str)
        ensures
            message@ == self.text(),
    {
        match self {
            ResolveError::Prompt(Field::CfEmail) => "Failed to read Cloudflare email",
            ResolveError::Prompt(Field::CfApiKey) => "Failed to read Cloudflare API key",
            ResolveError::Prompt(Field::ResendApiKey) => "Failed to read Resend API key",
            ResolveError::Prompt(Field::DomainPlatform) => "Failed to read platform domain",
            ResolveError::Prompt(Field::DomainApps) => "Failed to read apps domain",
            ResolveError::Prompt(Field::SshKey) => "Failed to read SSH public key",
            ResolveError::Prompt(Field::NotifyEmail) => "Failed to read notification email",
            ResolveError::Prompt(Field::Release) => "Failed to read release tag",
            ResolveError::Login(error) => error.message(),
        }
    }
}

impl Field {
    /// The prompt for the field.
    pub open spec fn prompt_text(self) -> Seq<char> {
        match self {
            Field::CfEmail => "Cloudflare email"@,
            Field::CfApiKey => "Cloudflare API key"@,
            Field::ResendApiKey => "Resend API key"@,
            Field::DomainPlatform => "Platform domain"@,
            Field::DomainApps => "Apps domain"@,
            Field::SshKey => "SSH public key"@,
            Field::NotifyEmail => "Notification email"@,
            Field::Release => "Tengu release"@,
        }
    }

    /// The prompt for the field.
    pub fn prompt(self) -> (prompt: &'static str)
        ensures
            prompt@ == self.prompt_text(),
    {
        match self {
            Field::CfEmail => "Cloudflare email",
            Field::CfApiKey => "Cloudflare API key",
            Field::ResendApiKey => "Resend API key",
            Field::DomainPlatform => "Platform domain",
            Field::DomainApps => "Apps domain",
            Field::SshKey => "SSH public key",
            Field::NotifyEmail => "Notification email",
            Field::Release => "Tengu release",
        }
    }
}

/// What a draft needs next.
pub enum Request<T> {
    /// Ask for the field in the open, offering a default. The email is checked with
    /// [`validate_email`].
    Text { field: Field, default: Option<T> },
    /// Ask for the field without echo.
    Secret { field: Field },
    /// Look for the certificate of `cloudflared`.
    CheckTunnelCert,
    /// Run `cloudflared tunnel login`.
    TunnelLogin,
    /// Look for an SSH public key in the home directory.
    DetectSshKey,
    /// Nothing: every value is there.
    Nothing,
}

/// The reply to a request.
pub enum Reply<T> {
    /// What was typed at a prompt.
    Text(T),
    /// The prompt failed.
    PromptFailed,
    /// Whether the certificate exists.
    TunnelCert(bool),
    /// Whether the login ended with success, or `None` if it could not be run.
    LoginExit(Option<bool>),
    /// The SSH public key that was found, if any.
    DetectedKey(Option<T>),
}

/// A configuration under resolution.
pub struct Draft<T> {
    pub cf_email: Option<T>,
    pub cf_api_key: Option<T>,
    pub tunnel: Tunnel,
    pub resend_api_key: Option<T>,
    pub domain_platform: Option<T>,
    pub domain_apps: Option<T>,
    /// What key detection found, once it ran.
    pub detected_key: Option<Option<T>>,
    pub ssh_key: Option<T>,
    pub notify_email: Option<T>,
    pub release: Option<T>,
}

impl View for Request<String> {
    type V = Request<Seq<char>>;

    open spec fn view(&self) -> Request<Seq<char>> {
        match *self {
            Request::Text { field, default } => Request::Text { field, default: opt_text(default) },
            Request::Secret { field } => Request::Secret { field },
            Request::CheckTunnelCert => Request::CheckTunnelCert,
            Request::TunnelLogin => Request::TunnelLogin,
            Request::DetectSshKey => Request::DetectSshKey,
            Request::Nothing => Request::Nothing,
        }
    }
}

impl View for Reply<String> {
    type V = Reply<Seq<char>>;

    open spec fn view(&self) -> Reply<Seq<char>> {
        match *self {
            Reply::Text(text) => Reply::Text(text@),
            Reply::PromptFailed => Reply::PromptFailed,
            Reply::TunnelCert(found) => Reply::TunnelCert(found),
            Reply::LoginExit(exit) => Reply::LoginExit(exit),
            Reply::DetectedKey(key) => Reply::DetectedKey(opt_text(key)),
        }
    }
}

impl View for Draft<String> {
    type V = Draft<Seq<char>>;

    open spec fn view(&self) -> Draft<Seq<char>> {
        Draft {
            cf_email: opt_text(self.cf_email),
            cf_api_key: opt_text(self.cf_api_key),
            tunnel: self.tunnel,
            resend_api_key: opt_text(self.resend_api_key),
            domain_platform: opt_text(self.domain_platform),
            domain_apps: opt_text(self.domain_apps),
            detected_key: match self.detected_key {
                Some(key) => Some(opt_text(key)),
                None => None,
            },
            ssh_key: opt_text(self.ssh_key),
            notify_email: opt_text(self.notify_email),
            release: opt_text(self.release),
        }
    }
}

impl Draft<Seq<char>> {
    /// The value of a field, once it is there.
    pub open spec fn value(self, field: Field) -> Option<Seq<char>> {
        match field {
            Field::CfEmail => self.cf_email,
            Field::CfApiKey => self.cf_api_key,
            Field::ResendApiKey => self.resend_api_key,
            Field::DomainPlatform => self.domain_platform,
            Field::DomainApps => self.domain_apps,
            Field::SshKey => self.ssh_key,
            Field::NotifyEmail => self.notify_email,
            Field::Release => self.release,
        }
    }

    /// The draft with the value of one field set.
    pub open spec fn with(self, field: Field, text: Seq<char>) -> Draft<Seq<char>> {
        match field {
            Field::CfEmail => Draft { cf_email: Some(text), ..self },
            Field::CfApiKey => Draft { cf_api_key: Some(text), ..self },
            Field::ResendApiKey => Draft { resend_api_key: Some(text), ..self },
            Field::DomainPlatform => Draft { domain_platform: Some(text), ..self },
            Field::DomainApps => Draft { domain_apps: Some(text), ..self },
            Field::SshKey => Draft { ssh_key: Some(text), ..self },
            Field::NotifyEmail => Draft { notify_email: Some(text), ..self },
            Field::Release => Draft { release: Some(text), ..self },
        }
    }

    /// What the draft needs next. The order of the requests is fixed.
    pub open spec fn pending(self) -> Request<Seq<char>> {
        if self.cf_email is None {
            Request::Text { field: Field::CfEmail, default: None }
        } else if self.cf_api_key is None {
            Request::Secret { field: Field::CfApiKey }
        } else if self.tunnel == Tunnel::Unchecked {
            Request::CheckTunnelCert
        } else if self.tunnel == Tunnel::LoginNeeded {
            Request::TunnelLogin
        } else if self.resend_api_key is None {
            Request::Secret { field: Field::ResendApiKey }
        } else if self.domain_platform is None {
            Request::Text { field: Field::DomainPlatform, default: Some("tengu.to"@) }
        } else if self.domain_apps is None {
            Request::Text { field: Field::DomainApps, default: Some("tengu.host"@) }
        } else if self.ssh_key is None && self.detected_key is None {
            Request::DetectSshKey
        } else if self.ssh_key is None {
            Request::Text { field: Field::SshKey, default: self.detected_key->0 }
        } else if self.notify_email is None {
            Request::Text { field: Field::NotifyEmail, default: self.cf_email }
        } else if self.release is None {
            Request::Text { field: Field::Release, default: Some(DEFAULT_RELEASE@) }
        } else {
            Request::Nothing
        }
    }

    /// The draft after a reply. A reply that does not fit the pending request, and an email that
    /// is not valid, leave it as it is.
    pub open spec fn answered(self, reply: Reply<Seq<char>>) -> Result<Draft<Seq<char>>, ResolveError> {
        match (self.pending(), reply) {
            (Request::Text { field, default }, Reply::Text(text)) => Ok(
                if field == Field::CfEmail && !valid_email(text) {
                    self
                } else {
                    self.with(field, text)
                },
            ),
            (Request::Secret { field }, Reply::Text(text)) => Ok(self.with(field, text)),
            (Request::Text { field, default }, Reply::PromptFailed) => Err(
                ResolveError::Prompt(field),
            ),
            (Request::Secret { field }, Reply::PromptFailed) => Err(ResolveError::Prompt(field)),
            (Request::CheckTunnelCert, Reply::TunnelCert(found)) => Ok(
                Draft {
                    tunnel: if found {
                        Tunnel::Ready
                    } else {
                        Tunnel::LoginNeeded
                    },
                    ..self
                },
            ),
            (Request::TunnelLogin, Reply::LoginExit(Some(true))) => Ok(
                Draft { tunnel: Tunnel::Ready, ..self },
            ),
            (Request::TunnelLogin, Reply::LoginExit(Some(false))) => Err(
                ResolveError::Login(LoginError::Failed),
            ),
            (Request::TunnelLogin, Reply::LoginExit(None)) => Err(
                ResolveError::Login(LoginError::NotRun),
            ),
            (Request::DetectSshKey, Reply::DetectedKey(key)) => Ok(
                Draft { detected_key: Some(key), ..self },
            ),
            _ => Ok(self),
        }
    }
}

/// The draft that holds what the sources give and nothing else.
pub open spec fn initial(args: Args, env: EnvVars, config: Config) -> Draft<Seq<char>> {
    Draft {
        cf_email: given(args, env, config, Field::CfEmail),
        cf_api_key: given(args, env, config, Field::CfApiKey),
        tunnel: Tunnel::Unchecked,
        resend_api_key: given(args, env, config, Field::ResendApiKey),
        domain_platform: given(args, env, config, Field::DomainPlatform),
        domain_apps: given(args, env, config, Field::DomainApps),
        detected_key: None,
        ssh_key: given(args, env, config, Field::SshKey),
        notify_email: given(args, env, config, Field::NotifyEmail),
        release: given(args, env, config, Field::Release),
    }
}

impl Draft<String> {
    /// Starts a resolution with what command line, environment and configuration file give.
    pub fn start(args: &Args, env: &EnvVars, config: &Config) -> (draft: Draft<String>)
        ensures
            draft@ == initial(*args, *env, *config),
    {
        Draft {
            cf_email: first_given(&first_given(&args.cf_email, &env.cf_email), &config.cloudflare.email),
            cf_api_key: first_given(
                &first_given(&args.cf_api_key, &env.cf_api_key),
                &config.cloudflare.api_key,
            ),
            tunnel: Tunnel::Unchecked,
            resend_api_key: first_given(
                &first_given(&args.resend_api_key, &env.resend_api_key),
                &config.resend.api_key,
            ),
            domain_platform: first_given(&args.domain_platform, &config.domains.platform),
            domain_apps: first_given(&args.domain_apps, &config.domains.apps),
            detected_key: None,
            ssh_key: first_given(
                &first_given(&args.ssh_key, &env.ssh_public_key),
                &config.ssh.public_key,
            ),
            notify_email: first_given(&args.notify_email, &config.notifications.email),
            release: first_given(&args.release, &config.server.release),
        }
    }

    /// What the draft needs next.
    pub fn request(&self) -> (request: Request<String>)
        ensures
            request@ == self@.pending(),
    {
        if self.cf_email.is_none() {
            return Request::Text { field: Field::CfEmail, default: None };
        }
        if self.cf_api_key.is_none() {
            return Request::Secret { field: Field::CfApiKey };
        }
        match self.tunnel {
            Tunnel::Unchecked => return Request::CheckTunnelCert,
            Tunnel::LoginNeeded => return Request::TunnelLogin,
            Tunnel::Ready => {},
        }
        if self.resend_api_key.is_none() {
            return Request::Secret { field: Field::ResendApiKey };
        }
        if self.domain_platform.is_none() {
            return Request::Text {
                field: Field::DomainPlatform,
                default: Some("tengu.to".to_owned()),
            };
        }
        if self.domain_apps.is_none() {
            return Request::Text { field: Field::DomainApps, default: Some("tengu.host".to_owned()) };
        }
        if self.ssh_key.is_none() {
            return match &self.detected_key {
                None => Request::DetectSshKey,
                Some(key) => Request::Text { field: Field::SshKey, default: copy_opt(key) },
            };
        }
        if self.notify_email.is_none() {
            return Request::Text { field: Field::NotifyEmail, default: copy_opt(&self.cf_email) };
        }
        if self.release.is_none() {
            return Request::Text { field: Field::Release, default: Some(DEFAULT_RELEASE.to_owned()) };
        }
        Request::Nothing
    }

    /// The draft with the value of one field set.
    fn set(self, field: Field, text: String) -> (draft: Draft<String>)
        ensures
            draft@ == self@.with(field, text@),
    {
        match field {
            Field::CfEmail => Draft { cf_email: Some(text), ..self },
            Field::CfApiKey => Draft { cf_api_key: Some(text), ..self },
            Field::ResendApiKey => Draft { resend_api_key: Some(text), ..self },
            Field::DomainPlatform => Draft { domain_platform: Some(text), ..self },
            Field::DomainApps => Draft { domain_apps: Some(text), ..self },
            Field::SshKey => Draft { ssh_key: Some(text), ..self },
            Field::NotifyEmail => Draft { notify_email: Some(text), ..self },
            Field::Release => Draft { release: Some(text), ..self },
        }
    }

    /// Takes the reply to the pending request.
    pub fn answer(self, reply: Reply<String>) -> (res: Result<Draft<String>, ResolveError>)
        ensures
            match res {
                Ok(draft) => Ok::<Draft<Seq<char>>, ResolveError>(draft@) == self@.answered(reply@),
                Err(error) => Err::<Draft<Seq<char>>, ResolveError>(error) == self@.answered(reply@),
            },
    {
        match (self.request(), reply) {
            (Request::Text { field, default }, Reply::Text(text)) => {
                if field == Field::CfEmail && validate_email(&text).is_err() {
                    Ok(self)
                } else {
                    Ok(self.set(field, text))
                }
            },
            (Request::Secret { field }, Reply::Text(text)) => Ok(self.set(field, text)),
            (Request::Text { field, default }, Reply::PromptFailed) => Err(
                ResolveError::Prompt(field),
            ),
            (Request::Secret { field }, Reply::PromptFailed) => Err(ResolveError::Prompt(field)),
            (Request::CheckTunnelCert, Reply::TunnelCert(found)) => {
                let tunnel = if found {
                    Tunnel::Ready
                } else {
                    Tunnel::LoginNeeded
                };
                Ok(Draft { tunnel, ..self })
            },
            (Request::TunnelLogin, Reply::LoginExit(exit)) => match login_result(exit) {
                Ok(_) => Ok(Draft { tunnel: Tunnel::Ready, ..self }),
                Err(error) => Err(ResolveError::Login(error)),
            },
            (Request::DetectSshKey, Reply::DetectedKey(key)) => Ok(
                Draft { detected_key: Some(key), ..self },
            ),
            _ => Ok(self),
        }
    }

    /// The resolved configuration, once nothing is pending.
    pub fn finish(self) -> (res: Option<ResolvedConfig>)
        ensures
            res is Some <==> self@.pending() == Request::<Seq<char>>::Nothing,
            res is Some ==> forall|field: Field| #[trigger]
                self@.value(field) == Some(res->0.value(field)),
    {
        if !matches!(self.tunnel, Tunnel::Ready) {
            return None;
        }
        match (
            self.domain_platform,
            self.domain_apps,
            self.cf_api_key,
            self.cf_email,
            self.resend_api_key,
            self.notify_email,
            self.ssh_key,
            self.release,
        ) {
            (
                Some(domain_platform),
                Some(domain_apps),
                Some(cf_api_key),
                Some(cf_email),
                Some(resend_api_key),
                Some(notify_email),
                Some(ssh_key),
                Some(release),
            ) => Some(
                ResolvedConfig {
                    domain_platform,
                    domain_apps,
                    cf_api_key,
                    cf_email,
                    resend_api_key,
                    notify_email,
                    ssh_key,
                    release,
                },
            ),
            _ => None,
        }
    }
}

/// The draft after a list of replies, or the error that ended the resolution.
pub open spec fn run(draft: Draft<Seq<char>>, replies: Seq<Reply<Seq<char>>>) -> Result<
    Draft<Seq<char>>,
    ResolveError,
>
    decreases replies.len(),
{
    if replies.len() == 0 {
        Ok(draft)
    } else {
        match run(draft, replies.drop_last()) {
            Ok(before) => before.answered(replies.last()),
            Err(error) => Err(error),
        }
    }
}

/// Whether a request asks for the value of a field.
pub open spec fn asks_for(request: Request<Seq<char>>, field: Field) -> bool {
    match request {
        Request::Text { field: asked, default } => asked == field,
        Request::Secret { field: asked } => asked == field,
        _ => false,
    }
}

/// Priority: a value that command line, environment or configuration file give is the one that is
/// resolved, and is never asked for, whatever is replied to other requests.
pub proof fn law_given_value_wins(
    args: Args,
    env: EnvVars,
    config: Config,
    replies: Seq<Reply<Seq<char>>>,
    field: Field,
)
    requires
        given(args, env, config, field) is Some,
        run(initial(args, env, config), replies) is Ok,
    ensures
        run(initial(args, env, config), replies)->Ok_0.value(field) == given(args, env, config, field),
        !asks_for(run(initial(args, env, config), replies)->Ok_0.pending(), field),
    decreases replies.len(),
{
    if replies.len() > 0 {
        law_given_value_wins(args, env, config, replies.drop_last(), field);
    }
}

/// Whether reply number `at` is `text` and answers a request for the field.
pub open spec fn typed_at(
    start: Draft<Seq<char>>,
    replies: Seq<Reply<Seq<char>>>,
    at: int,
    field: Field,
    text: Seq<char>,
) -> bool {
    &&& 0 <= at < replies.len()
    &&& replies[at] == Reply::Text(text)
    &&& run(start, replies.take(at)) is Ok
    &&& asks_for(run(start, replies.take(at))->Ok_0.pending(), field)
}

/// A value that no source gives is one that was typed at the prompt for it.
pub proof fn law_other_values_are_typed(
    args: Args,
    env: EnvVars,
    config: Config,
    replies: Seq<Reply<Seq<char>>>,
    field: Field,
)
    requires
        given(args, env, config, field) is None,
        run(initial(args, env, config), replies) is Ok,
        run(initial(args, env, config), replies)->Ok_0.value(field) is Some,
    ensures
        exists|at: int|
            typed_at(
                initial(args, env, config),
                replies,
                at,
                field,
                run(initial(args, env, config), replies)->Ok_0.value(field)->0,
            ),
    decreases replies.len(),
{
    if replies.len() > 0 {
        let start = initial(args, env, config);
        let shorter = replies.drop_last();
        let before = run(start, shorter)->Ok_0;
        let text = run(start, replies)->Ok_0.value(field)->0;
        if before.value(field) == Some(text) {
            law_other_values_are_typed(args, env, config, shorter, field);
            let at = choose|at: int| typed_at(start, shorter, at, field, text);
            assert(shorter.take(at) =~= replies.take(at));
            assert(typed_at(start, replies, at, field, text));
        } else {
            assert(replies.take(replies.len() - 1) =~= shorter);
            assert(typed_at(start, replies, replies.len() - 1, field, text));
        }
    }
}

/// The Cloudflare email is either given or a valid address.
pub proof fn law_typed_email_is_valid(
    args: Args,
    env: EnvVars,
    config: Config,
    replies: Seq<Reply<Seq<char>>>,
)
    requires
        given(args, env, config, Field::CfEmail) is None,
        run(initial(args, env, config), replies) is Ok,
        run(initial(args, env, config), replies)->Ok_0.cf_email is Some,
    ensures
        valid_email(run(initial(args, env, config), replies)->Ok_0.cf_email->0),
    decreases replies.len(),
{
    if replies.len() > 0 {
        let before = run(initial(args, env, config), replies.drop_last())->Ok_0;
        if before.cf_email is Some {
            law_typed_email_is_valid(args, env, config, replies.drop_last());
        }
    }
}

/// No configuration is resolved before tunnel authentication is in place: the certificate was
/// found, or the login ended with success.
pub proof fn law_tunnel_comes_first(
    args: Args,
    env: EnvVars,
    config: Config,
    replies: Seq<Reply<Seq<char>>>,
)
    requires
        run(initial(args, env, config), replies) is Ok,
        run(initial(args, env, config), replies)->Ok_0.tunnel == Tunnel::Ready,
    ensures
        replies.contains(Reply::TunnelCert(true)) || replies.contains(Reply::LoginExit(Some(true))),
    decreases replies.len(),
{
    if replies.len() > 0 {
        let shorter = replies.drop_last();
        let before = run(initial(args, env, config), shorter)->Ok_0;
        if before.tunnel == Tunnel::Ready {
            law_tunnel_comes_first(args, env, config, shorter);
            let proof_of_tunnel: Reply<Seq<char>> = if shorter.contains(Reply::TunnelCert(true)) {
                Reply::TunnelCert(true)
            } else {
                Reply::LoginExit(Some(true))
            };
            let at = choose|at: int| 0 <= at < shorter.len() && shorter[at] == proof_of_tunnel;
            assert(replies[at] == proof_of_tunnel);
        } else {
            let last = replies.last();
            assert(replies[replies.len() - 1] == last);
            assert(last == Reply::<Seq<char>>::TunnelCert(true) || last == Reply::<
                Seq<char>,
            >::LoginExit(Some(true)));
        }
    }
}

/// One if a value is missing.
pub open spec fn missing<A>(value: Option<A>) -> nat {
    if value is None {
        1
    } else {
        0
    }
}

impl Draft<Seq<char>> {
    /// How many more requests the draft can make before it is complete.
    pub open spec fn outstanding(self) -> nat {
        missing(self.cf_email) + missing(self.cf_api_key) + (match self.tunnel {
            Tunnel::Unchecked => 2nat,
            Tunnel::LoginNeeded => 1nat,
            Tunnel::Ready => 0nat,
        }) + missing(self.resend_api_key) + missing(self.domain_platform) + missing(
            self.domain_apps,
        ) + (if self.ssh_key is None {
            1 + missing(self.detected_key)
        } else {
            0
        }) + missing(self.notify_email) + missing(self.release)
    }
}

/// Every reply that changes the draft brings it closer to completion, and a draft with nothing
/// outstanding is complete. So a resolution asks for a bounded number of things.
pub proof fn law_resolution_makes_progress(draft: Draft<Seq<char>>, reply: Reply<Seq<char>>)
    ensures
        draft.answered(reply) is Ok ==> draft.answered(reply)->Ok_0 == draft || draft.answered(
            reply,
        )->Ok_0.outstanding() < draft.outstanding(),
        draft.outstanding() == 0 <==> draft.pending() == Request::<Seq<char>>::Nothing,
        draft.outstanding() <= 11,
{
}

/// With every value given and the tunnel authenticated, nothing is asked for.
pub proof fn law_complete_sources_need_no_prompt(args: Args, env: EnvVars, config: Config)
    requires
        forall|field: Field| (#[trigger] given(args, env, config, field)) is Some,
    ensures
        initial(args, env, config).pending() == Request::<Seq<char>>::CheckTunnelCert,
        run(initial(args, env, config), seq![Reply::TunnelCert(true)]) is Ok,
        run(initial(args, env, config), seq![Reply::TunnelCert(true)])->Ok_0.pending() == Request::<
            Seq<char>,
        >::Nothing,
{
    let replies = seq![Reply::<Seq<char>>::TunnelCert(true)];
    assert(replies.drop_last() =~= Seq::<Reply<Seq<char>>>::empty());
    reveal_with_fuel(run, 2);
    assert(given(args, env, config, Field::CfEmail) is Some);
    assert(given(args, env, config, Field::CfApiKey) is Some);
    assert(given(args, env, config, Field::ResendApiKey) is Some);
    assert(given(args, env, config, Field::DomainPlatform) is Some);
    assert(given(args, env, config, Field::DomainApps) is Some);
    assert(given(args, env, config, Field::SshKey) is Some);
    assert(given(args, env, config, Field::NotifyEmail) is Some);
    assert(given(args, env, config, Field::Release) is Some);
}

} // verus!
