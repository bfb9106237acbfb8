use tengu_init::args::{Args, Commands, OutputFormat};
use tengu_init::config::{load_config, Config, ConfigFile, LoadError};
use tengu_init::hetzner::{hetzner_step, resolve_hetzner_params, HetznerProgress, HetznerStep};
use tengu_init::paths::{cloudflared_cert_path, config_path, detect_ssh_key, ssh_key_candidates};
use tengu_init::plan::{
    direct_step, removal_step, route, DirectStep, RemovalStep, Route, UsageError,
};
use tengu_init::resolve::ResolvedConfig;
use tengu_init::tengu_config::{direct_tengu_config, show_tengu_config, ssh_user, tunnel_config};

fn args() -> Args {
    Args {
        command: None,
        host: None,
        hetzner: false,
        port: 22,
        script_only: false,
        remove: false,
        cf_api_key: None,
        cf_email: None,
        resend_api_key: None,
        domain_platform: None,
        domain_apps: None,
        ssh_key: None,
        notify_email: None,
        release: None,
        show_config: false,
        dry_run: false,
        force: false,
        name: None,
        server_type: None,
        location: None,
        image: None,
    }
}

fn some(text: &str) -> Option<String> {
    Some(text.to_string())
}

fn resolved() -> ResolvedConfig {
    ResolvedConfig {
        domain_platform: "p.example".into(),
        domain_apps: "a.example".into(),
        cf_api_key: "cf".into(),
        cf_email: "me@p.example".into(),
        resend_api_key: "re".into(),
        notify_email: "n@p.example".into(),
        ssh_key: "ssh-rsa A".into(),
        release: "v1".into(),
    }
}

#[test]
fn config_file_lies_in_the_home_directory() {
    assert_eq!(config_path(some("/home/u")), "/home/u/.config/tengu/init.toml");
    assert_eq!(config_path(None), "./tengu/init.toml");
}

#[test]
fn paths_join_like_unix_paths() {
    assert_eq!(config_path(some("/x/")), "/x/.config/tengu/init.toml");
    assert_eq!(config_path(some("")), ".config/tengu/init.toml");
    assert_eq!(config_path(some("/")), "/.config/tengu/init.toml");
    for home in ["/x", "/x/", "", "rel", "/", "a//", "\u{fc}"] {
        let joined = std::path::PathBuf::from(home).join(".config").join("tengu").join("init.toml");
        assert_eq!(config_path(some(home)), joined.to_str().unwrap());
    }
}

#[test]
fn tunnel_certificate_path() {
    assert_eq!(cloudflared_cert_path(some("/home/u")), "/home/u/.cloudflared/cert.pem");
    assert_eq!(cloudflared_cert_path(None), ".cloudflared/cert.pem");
}

#[test]
fn key_candidates_prefer_ed25519() {
    assert_eq!(
        ssh_key_candidates(some("/h")),
        vec!["/h/.ssh/id_ed25519.pub", "/h/.ssh/id_rsa.pub"]
    );
    assert!(ssh_key_candidates(None).is_empty());
}

#[test]
fn first_readable_key_is_taken() {
    assert_eq!(detect_ssh_key(&vec![some(" ssh-ed25519 A\n"), some("b")]), some("ssh-ed25519 A"));
    assert_eq!(detect_ssh_key(&vec![None, some("ssh-rsa B\r\n")]), some("ssh-rsa B"));
    assert_eq!(detect_ssh_key(&vec![some(" \t\n"), some("c")]), some("c"));
    assert_eq!(detect_ssh_key(&vec![some("\u{3000}x\u{2003}y\u{85}"), None]), some("x\u{2003}y"));
    assert_eq!(detect_ssh_key(&vec![some(""), None]), None);
    assert_eq!(detect_ssh_key(&vec![]), None);
}

#[test]
fn white_space_is_that_of_std() {
    for code in 0..0x11_0000u32 {
        if let Some(c) = char::from_u32(code) {
            assert_eq!(tengu_init::text::is_white_space(c), c.is_whitespace(), "{:x}", code);
        }
    }
}

#[test]
fn missing_file_sets_nothing() {
    let config = load_config(ConfigFile::Missing).unwrap();
    assert_eq!(config.server.name, None);
    assert_eq!(config.cloudflare.email, None);
    assert_eq!(config.notifications.email, None);
}

#[test]
fn parsed_file_is_used() {
    let mut config = Config::default();
    config.server.name = some("n");
    let loaded = load_config(ConfigFile::Parsed(config)).unwrap();
    assert_eq!(loaded.server.name, some("n"));
}

#[test]
fn bad_file_is_an_error() {
    let read = load_config(ConfigFile::Unreadable).unwrap_err();
    assert_eq!(read, LoadError::Read);
    assert_eq!(read.message("/c"), "Failed to read config: /c");
    let parse = load_config(ConfigFile::Malformed).unwrap_err();
    assert_eq!(parse, LoadError::Parse);
    assert_eq!(parse.message("/c"), "Failed to parse config: /c");
}

#[test]
fn hetzner_defaults() {
    let params = resolve_hetzner_params(&args(), &Config::default());
    assert_eq!(params.name, "tengu");
    assert_eq!(params.server_type, "cax41");
    assert_eq!(params.location, "hel1");
    assert_eq!(params.image, "ubuntu-24.04");
}

#[test]
fn hetzner_params_prefer_the_command_line() {
    let mut config = Config::default();
    config.server.name = some("file-name");
    config.server.server_type = some("file-type");
    config.server.location = some("file-location");
    config.server.image = some("file-image");
    let args = Args { name: some("n"), location: some("l"), ..args() };
    let params = resolve_hetzner_params(&args, &config);
    assert_eq!(params.name, "n");
    assert_eq!(params.server_type, "file-type");
    assert_eq!(params.location, "l");
    assert_eq!(params.image, "file-image");
}

fn progress(found: Option<bool>, confirmed: Option<bool>, deleted: bool) -> HetznerProgress {
    HetznerProgress { found, confirmed, deleted }
}

#[test]
fn hetzner_flow_recreates_only_with_consent() {
    let a = args();
    assert_eq!(hetzner_step(&a, progress(None, None, false)), HetznerStep::LookUp);
    assert_eq!(hetzner_step(&a, progress(Some(false), None, false)), HetznerStep::Create);
    assert_eq!(hetzner_step(&a, progress(Some(true), None, false)), HetznerStep::ConfirmRecreate);
    assert_eq!(hetzner_step(&a, progress(Some(true), Some(false), false)), HetznerStep::Abort);
    assert_eq!(hetzner_step(&a, progress(Some(true), Some(true), false)), HetznerStep::Delete);
    assert_eq!(hetzner_step(&a, progress(Some(true), Some(true), true)), HetznerStep::Create);
    let forced = Args { force: true, ..args() };
    assert_eq!(hetzner_step(&forced, progress(Some(true), None, false)), HetznerStep::Delete);
}

#[test]
fn hetzner_dry_run_only_previews() {
    let dry = Args { dry_run: true, force: true, ..args() };
    assert_eq!(hetzner_step(&dry, progress(None, None, false)), HetznerStep::Preview);
    assert_eq!(hetzner_step(&dry, progress(Some(true), Some(true), false)), HetznerStep::Preview);
}

fn name_of(route: Result<Route, UsageError>) -> String {
    match route {
        Ok(Route::ConfigPath) => "path".to_string(),
        Ok(Route::Show(OutputFormat::Bash)) => "show bash".to_string(),
        Ok(Route::Show(OutputFormat::CloudInit)) => "show cloud-init".to_string(),
        Ok(Route::Remove { host }) => format!("remove {}", host),
        Ok(Route::Hetzner) => "hetzner".to_string(),
        Ok(Route::Direct { host }) => format!("direct {}", host),
        Err(error) => error.message().to_string(),
    }
}

#[test]
fn routes_of_command_lines() {
    let h = some("u@h");
    assert_eq!(name_of(route(&Args { host: h.clone(), ..args() })), "direct u@h");
    assert_eq!(name_of(route(&Args { hetzner: true, ..args() })), "hetzner");
    assert_eq!(name_of(route(&Args { hetzner: true, host: h.clone(), ..args() })), "hetzner");
    assert_eq!(name_of(route(&Args { remove: true, host: h.clone(), ..args() })), "remove u@h");
    assert_eq!(
        name_of(route(&Args { remove: true, hetzner: true, host: h.clone(), ..args() })),
        "remove u@h"
    );
    let show = Some(Commands::Show(OutputFormat::Bash));
    assert_eq!(name_of(route(&Args { command: show, remove: true, ..args() })), "show bash");
    let show = Some(Commands::Show(OutputFormat::CloudInit));
    assert_eq!(name_of(route(&Args { command: show, ..args() })), "show cloud-init");
    assert_eq!(name_of(route(&Args { command: show, show_config: true, ..args() })), "path");
}

#[test]
fn routes_that_lack_a_host() {
    assert_eq!(
        name_of(route(&args())),
        "Missing SSH destination. Usage:\n  tengu-init user@host          Provision existing server\n  tengu-init --hetzner          Create Hetzner VPS and provision"
    );
    assert_eq!(
        name_of(route(&Args { remove: true, ..args() })),
        UsageError::MissingDestination.message()
    );
    assert_eq!(
        name_of(route(&Args { remove: true, hetzner: true, ..args() })),
        "--remove requires a host argument: tengu-init user@host --remove"
    );
}

#[test]
fn removal_asks_first() {
    let a = args();
    assert_eq!(removal_step(&a, None), RemovalStep::Confirm);
    assert_eq!(removal_step(&a, Some(false)), RemovalStep::Abort);
    assert_eq!(removal_step(&a, Some(true)), RemovalStep::Remove);
    let script = Args { script_only: true, ..args() };
    assert_eq!(removal_step(&script, None), RemovalStep::Confirm);
    assert_eq!(removal_step(&script, Some(true)), RemovalStep::PrintScript);
    let forced = Args { force: true, ..args() };
    assert_eq!(removal_step(&forced, None), RemovalStep::Confirm);
    assert_eq!(removal_step(&forced, Some(false)), RemovalStep::Abort);
    assert_eq!(removal_step(&forced, Some(true)), RemovalStep::Remove);
}

#[test]
fn direct_flow_may_stop_early() {
    assert_eq!(direct_step(&args()), DirectStep::Provision);
    assert_eq!(direct_step(&Args { dry_run: true, ..args() }), DirectStep::ShowOnly);
    assert_eq!(
        direct_step(&Args { dry_run: true, script_only: true, ..args() }),
        DirectStep::PrintScript
    );
}

#[test]
fn user_of_a_destination() {
    assert_eq!(ssh_user("root@1.2.3.4"), "root");
    assert_eq!(ssh_user("a@b@c"), "a");
    assert_eq!(ssh_user("@h"), "");
    assert_eq!(ssh_user("host"), "chi");
    assert_eq!(ssh_user(""), "chi");
}

#[test]
fn direct_config_copies_the_resolved_one() {
    let config = direct_tengu_config("root@h", &resolved());
    assert_eq!(config.user, "root");
    assert_eq!(config.domain_platform, "p.example");
    assert_eq!(config.domain_apps, "a.example");
    assert_eq!(config.cf_api_key, "cf");
    assert_eq!(config.cf_email, "me@p.example");
    assert_eq!(config.resend_api_key, "re");
    assert_eq!(config.notify_email, "n@p.example");
    assert_eq!(config.ssh_keys, vec!["ssh-rsa A"]);
    assert_eq!(config.release, "v1");
    let keyless = ResolvedConfig { ssh_key: String::new(), ..resolved() };
    assert!(direct_tengu_config("h", &keyless).ssh_keys.is_empty());
}

#[test]
fn shown_config_has_stand_ins() {
    let config = show_tengu_config(&Config::default());
    assert_eq!(config.user, "chi");
    assert_eq!(config.domain_platform, "tengu.to");
    assert_eq!(config.domain_apps, "tengu.host");
    assert_eq!(config.cf_api_key, "<CF_API_KEY>");
    assert_eq!(config.cf_email, "<CF_EMAIL>");
    assert_eq!(config.resend_api_key, "<RESEND_API_KEY>");
    assert_eq!(config.notify_email, "admin@example.com");
    assert!(config.ssh_keys.is_empty());
    assert_eq!(config.release, "v0.1.0-22879bf");
}

#[test]
fn shown_config_takes_what_the_file_sets() {
    let mut file = Config::default();
    file.server.name = some("box");
    file.ssh.public_key = some("");
    file.server.release = some("v9");
    let config = show_tengu_config(&file);
    assert_eq!(config.user, "box");
    assert_eq!(config.ssh_keys, vec![""]);
    assert_eq!(config.release, "v9");
}

#[test]
fn tunnel_is_named_tengu() {
    let tunnel = tunnel_config(&resolved());
    assert_eq!(tunnel.domain_platform, "p.example");
    assert_eq!(tunnel.tunnel_name, "tengu");
}

#[test]
fn hetzner_flow_ends() {
    for (force, exists, answer) in [
        (false, false, false),
        (false, true, false),
        (false, true, true),
        (true, true, false),
        (true, false, true),
    ] {
        let args = Args { force, ..args() };
        let mut state = progress(None, None, false);
        let mut steps: Vec<HetznerStep> = Vec::new();
        loop {
            let step = hetzner_step(&args, state);
            assert!(!steps.contains(&step));
            steps.push(step);
            match step {
                HetznerStep::LookUp => state.found = Some(exists),
                HetznerStep::ConfirmRecreate => state.confirmed = Some(answer),
                HetznerStep::Delete => state.deleted = true,
                _ => break,
            }
        }
        let aborted = exists && !force && !answer;
        let last = if aborted { HetznerStep::Abort } else { HetznerStep::Create };
        assert_eq!(steps.last(), Some(&last));
        assert_eq!(steps.contains(&HetznerStep::Delete), exists && !aborted);
    }
}
