//! The configuration that a provisioning manifest is made from.

use vstd::prelude::*;

use crate::config::Config;
use crate::resolve::{ResolvedConfig, DEFAULT_RELEASE};
use crate::text::{chars_of, find_char, text_or};

verus! {

use crate::text::{find_from, find_from_is_first, or_default};

/// The configuration of a Tengu server.
#[derive(Debug)]
pub struct TenguConfig {
    pub user: String,
    pub domain_platform: String,
    pub domain_apps: String,
    pub cf_api_key: String,
    pub cf_email: String,
    pub resend_api_key: String,
    pub notify_email: String,
    pub ssh_keys: Vec<String>,
    pub release: String,
}

/// The tunnel of a Tengu server.
#[derive(Debug)]
pub struct TunnelConfig {
    pub domain_platform: String,
    pub tunnel_name: String,
}

/// The user of an SSH destination: what stands before the first `@`, or `chi` if there is none.
pub open spec fn user_of(host: Seq<char>) -> Seq<char> {
    if host.contains('@') {
        host.take(find_from(host, '@', 0))
    } else {
        "chi"@
    }
}

/// The user of an SSH destination: what stands before the first `@`, or `chi` if there is none.
pub fn ssh_user(host: &str) -> (user: String)
    ensures
        user@ == user_of(host@),
{
    let chars = chars_of(host);
    let at = find_char(&chars, '@', 0);
    proof {
        find_from_is_first(host@, '@', 0);
    }
    if at < chars.len() {
        proof {
            assert(host@.take(at as int) =~= host@.subrange(0, at as int));
        }
        host.substring_char(0, at).to_owned()
    } else {
        "chi".to_owned()
    }
}

/// The configuration for provisioning a host over SSH.
pub fn direct_tengu_config(host: &str, resolved: &ResolvedConfig) -> (config: TenguConfig)
    ensures
        config.user@ == user_of(host@),
        config.domain_platform == resolved.domain_platform,
        config.domain_apps == resolved.domain_apps,
        config.cf_api_key == resolved.cf_api_key,
        config.cf_email == resolved.cf_email,
        config.resend_api_key == resolved.resend_api_key,
        config.notify_email == resolved.notify_email,
        config.release == resolved.release,
        config.ssh_keys@ == if resolved.ssh_key@.len() == 0 {
            Seq::<String>::empty()
        } else {
            seq![resolved.ssh_key]
        },
{
    let mut ssh_keys: Vec<String> = Vec::new();
    if !resolved.ssh_key.as_str().is_empty() {
        ssh_keys.push(resolved.ssh_key.clone());
    }
    TenguConfig {
        user: ssh_user(host),
        domain_platform: resolved.domain_platform.clone(),
        domain_apps: resolved.domain_apps.clone(),
        cf_api_key: resolved.cf_api_key.clone(),
        cf_email: resolved.cf_email.clone(),
        resend_api_key: resolved.resend_api_key.clone(),
        notify_email: resolved.notify_email.clone(),
        ssh_keys,
        release: resolved.release.clone(),
    }
}

/// The configuration that the `show` command renders: what the file sets, and stand-ins for the
/// rest.
pub fn show_tengu_config(config: &Config) -> (res: TenguConfig)
    ensures
        res.user@ == or_default(config.server.name, "chi"@),
        res.domain_platform@ == or_default(config.domains.platform, "tengu.to"@),
        res.domain_apps@ == or_default(config.domains.apps, "tengu.host"@),
        res.cf_api_key@ == or_default(config.cloudflare.api_key, "<CF_API_KEY>"@),
        res.cf_email@ == or_default(config.cloudflare.email, "<CF_EMAIL>"@),
        res.resend_api_key@ == or_default(config.resend.api_key, "<RESEND_API_KEY>"@),
        res.notify_email@ == or_default(config.notifications.email, "admin@example.com"@),
        res.ssh_keys@ == match config.ssh.public_key {
            Some(key) => seq![key],
            None => Seq::<String>::empty(),
        },
        res.release@ == or_default(config.server.release, DEFAULT_RELEASE@),
{
    let mut ssh_keys: Vec<String> = Vec::new();
    if let Some(key) = &config.ssh.public_key {
        ssh_keys.push(key.clone());
    }
    TenguConfig {
        user: text_or(&config.server.name, "chi"),
        domain_platform: text_or(&config.domains.platform, "tengu.to"),
        domain_apps: text_or(&config.domains.apps, "tengu.host"),
        cf_api_key: text_or(&config.cloudflare.api_key, "<CF_API_KEY>"),
        cf_email: text_or(&config.cloudflare.email, "<CF_EMAIL>"),
        resend_api_key: text_or(&config.resend.api_key, "<RESEND_API_KEY>"),
        notify_email: text_or(&config.notifications.email, "admin@example.com"),
        ssh_keys,
        release: text_or(&config.server.release, DEFAULT_RELEASE),
    }
}

/// The tunnel that is set up after a host was provisioned.
pub fn tunnel_config(resolved: &ResolvedConfig) -> (tunnel: TunnelConfig)
    ensures
        tunnel.domain_platform == resolved.domain_platform,
        tunnel.tunnel_name@ == "tengu"@,
{
    TunnelConfig {
        domain_platform: resolved.domain_platform.clone(),
        tunnel_name: "tengu".to_owned(),
    }
}

/// The user of `user@host` is `user`, whatever the host is.
pub proof fn law_user_before_at(user: Seq<char>, host: Seq<char>)
    requires
        !user.contains('@'),
    ensures
        user_of(user + seq!['@'] + host) == user,
{
    let destination = user + seq!['@'] + host;
    assert(destination[user.len() as int] == '@');
    find_from_is_first(destination, '@', 0);
    let at = find_from(destination, '@', 0);
    if at < user.len() {
        assert(destination[at] == user[at]);
    }
    assert(at == user.len());
    assert(destination.take(at) =~= user);
}

} // verus!
