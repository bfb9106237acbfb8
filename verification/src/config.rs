//! The configuration file (`init.toml`) and the outcome of loading it.

use vstd::prelude::*;

verus! {

/// The `[server]` section.
#[derive(Debug)]
pub struct ServerConfig {
    pub name: Option<String>,
    /// The key `type` of the file.
    pub server_type: Option<String>,
    pub location: Option<String>,
    pub image: Option<String>,
    pub release: Option<String>,
}

/// The `[domains]` section.
#[derive(Debug)]
pub struct DomainsConfig {
    pub platform: Option<String>,
    pub apps: Option<String>,
}

/// The `[cloudflare]` section.
#[derive(Debug)]
pub struct CloudflareConfig {
    pub api_key: Option<String>,
    pub email: Option<String>,
}

/// The `[resend]` section.
#[derive(Debug)]
pub struct ResendConfig {
    pub api_key: Option<String>,
}

/// The `[ssh]` section.
#[derive(Debug)]
pub struct SshConfig {
    pub public_key: Option<String>,
}

/// The `[notifications]` section.
#[derive(Debug)]
pub struct NotificationsConfig {
    pub email: Option<String>,
}

/// The configuration file.
#[derive(Debug)]
pub struct Config {
    pub server: ServerConfig,
    pub domains: DomainsConfig,
    pub cloudflare: CloudflareConfig,
    pub resend: ResendConfig,
    pub ssh: SshConfig,
    pub notifications: NotificationsConfig,
}

impl Config {
    /// Whether the file sets nothing at all.
    pub open spec fn is_unset(self) -> bool {
        &&& self.server.name is None
        &&& self.server.server_type is None
        &&& self.server.location is None
        &&& self.server.image is None
        &&& self.server.release is None
        &&& self.domains.platform is None
        &&& self.domains.apps is None
        &&& self.cloudflare.api_key is None
        &&& self.cloudflare.email is None
        &&& self.resend.api_key is None
        &&& self.ssh.public_key is None
        &&& self.notifications.email is None
    }
}

impl Default for Config {
    /// The configuration of a file that sets nothing.
    fn default() -> (config: Config)
        ensures
            config.is_unset(),
    {
        Config {
            server: ServerConfig {
                name: None,
                server_type: None,
                location: None,
                image: None,
                release: None,
            },
            domains: DomainsConfig { platform: None, apps: None },
            cloudflare: CloudflareConfig { api_key: None, email: None },
            resend: ResendConfig { api_key: None },
            ssh: SshConfig { public_key: None },
            notifications: NotificationsConfig { email: None },
        }
    }
}

/// What came of looking for the configuration file.
pub enum ConfigFile {
    /// There is no file at the path.
    Missing,
    /// The file could not be read.
    Unreadable,
    /// The file was read but is not a valid configuration.
    Malformed,
    /// The file was read and parsed.
    Parsed(Config),
}

/// Why no configuration could be loaded.
#[derive(Clone, Copy, Debug, PartialEq, Eq, Structural)]
pub enum LoadError {
    Read,
    Parse,
}

impl LoadError {
    /// The message for a file at the path that displays as `path`.
    pub open spec fn text(self, path: Seq<char>) -> Seq<char> {
        match self {
            LoadError::Read => "Failed to read config: "@ + path,
            LoadError::Parse => "Failed to parse config: "@ + path,
        }
    }

    /// The message for a file at the path that displays as `path`.
    pub fn message(self, path: &str) -> (message: String)
        ensures
            message@ == self.text(path@),
    {
        match self {
            LoadError::Read => "Failed to read config: ".to_owned().concat(path),
            LoadError::Parse => "Failed to parse config: ".to_owned().concat(path),
        }
    }
}

/// The configuration to work with: that of the file, or an unset one if there is no file.
pub fn load_config(file: ConfigFile) -> (res: Result<Config, LoadError>)
    ensures
        match file {
            ConfigFile::Missing => res is Ok && res->Ok_0.is_unset(),
            ConfigFile::Unreadable => res == Err::<Config, LoadError>(LoadError::Read),
            ConfigFile::Malformed => res == Err::<Config, LoadError>(LoadError::Parse),
            ConfigFile::Parsed(config) => res == Ok::<Config, LoadError>(config),
        },
{
    match file {
        ConfigFile::Missing => Ok(Config::default()),
        ConfigFile::Unreadable => Err(LoadError::Read),
        ConfigFile::Malformed => Err(LoadError::Parse),
        ConfigFile::Parsed(config) => Ok(config),
    }
}

} // verus!
