use tengu_init::args::Args;
use tengu_init::config::Config;
use tengu_init::resolve::{
    first_given, needs_interactive, validate_email, Draft, EnvVars, Field, Reply, Request,
    ResolveError, ResolvedConfig, DEFAULT_RELEASE,
};
use tengu_init::tunnel::{cloudflared_login_command, login_result, LoginError};

fn no_args() -> Args {
    Args {
        command: None,
        host: None,
        hetzner: false,
        port: 22,
        script_only: false,
        remove: false,
        cf_api_key: None,
        cf_email: None,
        resend_api_key: None,
        domain_platform: None,
        domain_apps: None,
        ssh_key: None,
        notify_email: None,
        release: None,
        show_config: false,
        dry_run: false,
        force: false,
        name: None,
        server_type: None,
        location: None,
        image: None,
    }
}

fn no_env() -> EnvVars {
    EnvVars { cf_email: None, cf_api_key: None, resend_api_key: None, ssh_public_key: None }
}

fn some(text: &str) -> Option<String> {
    Some(text.to_string())
}

fn full_args() -> Args {
    Args {
        cf_email: some("a@b.c"),
        cf_api_key: some("key"),
        resend_api_key: some("re"),
        domain_platform: some("p.example"),
        domain_apps: some("a.example"),
        ssh_key: some("ssh-ed25519 AAAA"),
        notify_email: some("n@b.c"),
        release: some("v1"),
        ..no_args()
    }
}

/// What a request looks like on the screen: its kind, its prompt and its default.
fn describe(request: Request<String>) -> (String, String, Option<String>) {
    match request {
        Request::Text { field, default } => ("text".into(), field.prompt().into(), default),
        Request::Secret { field } => ("secret".into(), field.prompt().into(), None),
        Request::CheckTunnelCert => ("cert".into(), String::new(), None),
        Request::TunnelLogin => ("login".into(), String::new(), None),
        Request::DetectSshKey => ("detect".into(), String::new(), None),
        Request::Nothing => ("nothing".into(), String::new(), None),
    }
}

fn step(draft: Draft<String>, kind: &str, prompt: &str, default: Option<&str>, reply: Reply<String>) -> Draft<String> {
    assert_eq!(
        describe(draft.request()),
        (kind.to_string(), prompt.to_string(), default.map(|d| d.to_string()))
    );
    match draft.answer(reply) {
        Ok(next) => next,
        Err(error) => panic!("{}", error.message()),
    }
}

fn text(reply: &str) -> Reply<String> {
    Reply::Text(reply.to_string())
}

fn error_of(result: Result<Draft<String>, ResolveError>) -> ResolveError {
    match result {
        Ok(_) => panic!("no error"),
        Err(error) => error,
    }
}

#[test]
fn first_source_with_a_value_counts() {
    assert_eq!(first_given(&some("a"), &some("b")), some("a"));
    assert_eq!(first_given(&None, &some("b")), some("b"));
    assert_eq!(first_given(&some(""), &some("b")), some(""));
    assert_eq!(first_given(&None, &None), None);
}

#[test]
fn everything_is_asked_for_in_order() {
    let draft = Draft::start(&no_args(), &no_env(), &Config::default());
    let draft = step(draft, "text", "Cloudflare email", None, text("me@example.com"));
    let draft = step(draft, "secret", "Cloudflare API key", None, text("cf-key"));
    let draft = step(draft, "cert", "", None, Reply::TunnelCert(false));
    let draft = step(draft, "login", "", None, Reply::LoginExit(Some(true)));
    let draft = step(draft, "secret", "Resend API key", None, text("re-key"));
    let draft = step(draft, "text", "Platform domain", Some("tengu.to"), text("tengu.to"));
    let draft = step(draft, "text", "Apps domain", Some("tengu.host"), text("apps.example"));
    let draft = step(draft, "detect", "", None, Reply::DetectedKey(some("ssh-rsa B")));
    let draft = step(draft, "text", "SSH public key", Some("ssh-rsa B"), text("ssh-rsa B"));
    let draft = step(draft, "text", "Notification email", Some("me@example.com"), text("n@example.com"));
    let draft = step(draft, "text", "Tengu release", Some("v0.1.0-22879bf"), text("v2"));
    assert_eq!(describe(draft.request()).0, "nothing");
    let config: ResolvedConfig = draft.finish().unwrap();
    assert_eq!(config.cf_email, "me@example.com");
    assert_eq!(config.cf_api_key, "cf-key");
    assert_eq!(config.resend_api_key, "re-key");
    assert_eq!(config.domain_platform, "tengu.to");
    assert_eq!(config.domain_apps, "apps.example");
    assert_eq!(config.ssh_key, "ssh-rsa B");
    assert_eq!(config.notify_email, "n@example.com");
    assert_eq!(config.release, "v2");
}

#[test]
fn no_detected_key_means_no_default() {
    let args = Args { ssh_key: None, ..full_args() };
    let draft = Draft::start(&args, &no_env(), &Config::default());
    let draft = step(draft, "cert", "", None, Reply::TunnelCert(true));
    let draft = step(draft, "detect", "", None, Reply::DetectedKey(None));
    let draft = step(draft, "text", "SSH public key", None, text("k"));
    assert_eq!(draft.finish().unwrap().ssh_key, "k");
}

#[test]
fn complete_sources_need_no_prompt() {
    let draft = Draft::start(&full_args(), &no_env(), &Config::default());
    let draft = step(draft, "cert", "", None, Reply::TunnelCert(true));
    assert_eq!(describe(draft.request()).0, "nothing");
    let config = draft.finish().unwrap();
    assert_eq!(config.release, "v1");
    assert_eq!(config.notify_email, "n@b.c");
}

#[test]
fn command_line_beats_environment_beats_file() {
    let mut config = Config::default();
    config.cloudflare.email = some("file@x.y");
    config.cloudflare.api_key = some("file-key");
    config.resend.api_key = some("file-re");
    config.domains.platform = some("file-platform");
    config.domains.apps = some("file-apps");
    config.ssh.public_key = some("file-ssh");
    config.notifications.email = some("file-notify");
    config.server.release = some("file-release");
    let env = EnvVars {
        cf_email: some("env@x.y"),
        cf_api_key: some("env-key"),
        resend_api_key: None,
        ssh_public_key: some("env-ssh"),
    };
    let args = Args { cf_email: some("args@x.y"), domain_apps: some("args-apps"), ..no_args() };
    let draft = Draft::start(&args, &env, &config);
    let draft = step(draft, "cert", "", None, Reply::TunnelCert(true));
    let resolved = draft.finish().unwrap();
    assert_eq!(resolved.cf_email, "args@x.y");
    assert_eq!(resolved.cf_api_key, "env-key");
    assert_eq!(resolved.resend_api_key, "file-re");
    assert_eq!(resolved.domain_platform, "file-platform");
    assert_eq!(resolved.domain_apps, "args-apps");
    assert_eq!(resolved.ssh_key, "env-ssh");
    assert_eq!(resolved.notify_email, "file-notify");
    assert_eq!(resolved.release, "file-release");
}

#[test]
fn invalid_email_is_asked_for_again() {
    let draft = Draft::start(&no_args(), &no_env(), &Config::default());
    let draft = step(draft, "text", "Cloudflare email", None, text("nobody"));
    let draft = step(draft, "text", "Cloudflare email", None, text("a@b"));
    let draft = step(draft, "text", "Cloudflare email", None, text("a@b.c"));
    assert_eq!(describe(draft.request()).1, "Cloudflare API key");
}

#[test]
fn given_email_is_not_checked() {
    let args = Args { cf_email: some("nobody"), ..full_args() };
    let draft = Draft::start(&args, &no_env(), &Config::default());
    let draft = step(draft, "cert", "", None, Reply::TunnelCert(true));
    assert_eq!(draft.finish().unwrap().cf_email, "nobody");
}

#[test]
fn reply_that_does_not_fit_changes_nothing() {
    let draft = Draft::start(&full_args(), &no_env(), &Config::default());
    let draft = step(draft, "cert", "", None, text("what"));
    let draft = step(draft, "cert", "", None, Reply::PromptFailed);
    assert_eq!(describe(draft.request()).0, "cert");
    assert!(draft.finish().is_none());
}

#[test]
fn unfinished_draft_gives_nothing() {
    let draft = Draft::start(&no_args(), &no_env(), &Config::default());
    assert!(draft.finish().is_none());
}

#[test]
fn failed_prompts_end_the_resolution() {
    let cases: [(Field, &str); 8] = [
        (Field::CfEmail, "Failed to read Cloudflare email"),
        (Field::CfApiKey, "Failed to read Cloudflare API key"),
        (Field::ResendApiKey, "Failed to read Resend API key"),
        (Field::DomainPlatform, "Failed to read platform domain"),
        (Field::DomainApps, "Failed to read apps domain"),
        (Field::SshKey, "Failed to read SSH public key"),
        (Field::NotifyEmail, "Failed to read notification email"),
        (Field::Release, "Failed to read release tag"),
    ];
    for (field, message) in cases {
        let mut args = full_args();
        match field {
            Field::CfEmail => args.cf_email = None,
            Field::CfApiKey => args.cf_api_key = None,
            Field::ResendApiKey => args.resend_api_key = None,
            Field::DomainPlatform => args.domain_platform = None,
            Field::DomainApps => args.domain_apps = None,
            Field::SshKey => args.ssh_key = None,
            Field::NotifyEmail => args.notify_email = None,
            Field::Release => args.release = None,
        }
        let mut draft = Draft::start(&args, &no_env(), &Config::default());
        loop {
            let reply = match draft.request() {
                Request::CheckTunnelCert => Reply::TunnelCert(true),
                Request::DetectSshKey => Reply::DetectedKey(None),
                _ => break,
            };
            draft = draft.answer(reply).ok().unwrap();
        }
        let error = error_of(draft.answer(Reply::PromptFailed));
        assert_eq!(error, ResolveError::Prompt(field));
        assert_eq!(error.message(), message);
    }
}

#[test]
fn failed_login_ends_the_resolution() {
    for (exit, error, message) in [
        (None, LoginError::NotRun, "Failed to run cloudflared - is it installed?"),
        (Some(false), LoginError::Failed, "cloudflared tunnel login failed"),
    ] {
        let draft = Draft::start(&full_args(), &no_env(), &Config::default());
        let draft = step(draft, "cert", "", None, Reply::TunnelCert(false));
        let found = error_of(draft.answer(Reply::LoginExit(exit)));
        assert_eq!(found, ResolveError::Login(error));
        assert_eq!(found.message(), message);
        assert_eq!(login_result(exit), Err(error));
    }
    assert_eq!(login_result(Some(true)), Ok(()));
}

#[test]
fn header_is_shown_if_no_source_has_the_email() {
    let config = Config::default();
    assert!(needs_interactive(&no_args(), &no_env(), &config));
    assert!(!needs_interactive(&full_args(), &no_env(), &config));
    let env = EnvVars { cf_email: some("e"), ..no_env() };
    assert!(!needs_interactive(&no_args(), &env, &config));
    let mut config = Config::default();
    config.cloudflare.email = some("f");
    assert!(!needs_interactive(&no_args(), &no_env(), &config));
}

#[test]
fn email_needs_at_and_dot() {
    assert_eq!(validate_email("a@b.c"), Ok(()));
    assert_eq!(validate_email(".@"), Ok(()));
    assert_eq!(validate_email("a@b"), Err("Please enter a valid email address"));
    assert_eq!(validate_email("a.b"), Err("Please enter a valid email address"));
    assert_eq!(validate_email(""), Err("Please enter a valid email address"));
}

#[test]
fn default_release_tag() {
    assert_eq!(DEFAULT_RELEASE, "v0.1.0-22879bf");
}

#[test]
fn login_command_line() {
    let (program, args) = cloudflared_login_command();
    assert_eq!(program, "cloudflared");
    assert_eq!(args, vec!["tunnel", "login"]);
}
