//! Service configuration, and where it is read from.

use vstd::prelude::*;

verus! {

/// The whole service configuration.
#[derive(Debug)]
pub struct AppConfig {
    pub server: ServerConfig,
    pub auth: AuthConfig,
}

/// How requests are authenticated.
#[derive(Debug)]
pub struct AuthConfig {
    /// The public key that verifies user tokens.
    pub pk: String,
}

/// How the server runs and reaches its database.
#[derive(Debug)]
pub struct ServerConfig {
    pub port: u16,
    pub db_url: String,
    pub db_user: Option<String>,
    pub db_password: Option<String>,
    pub db_name: String,
    pub base_dir: String,
}

/// Where the configuration is read from.
pub enum ConfigSource {
    /// `analytics.yml` in the working directory.
    LocalFile,
    /// `/etc/config/analytics.yml`.
    SystemFile,
    /// The file named by the `ANALYTICS_CONFIG` environment variable.
    EnvPath(String),
}

/// Chooses where the configuration is read from: the local file if it
/// opened, else the system file if it opened, else the path that
/// `ANALYTICS_CONFIG` holds; `None` when none of them is available.
pub fn choose_config_source(
    local_opened: bool,
    system_opened: bool,
    env_path: Option<String>,
) -> (src: Option<ConfigSource>)
    ensures
        local_opened ==> src == Some(ConfigSource::LocalFile),
        !local_opened && system_opened ==> src == Some(ConfigSource::SystemFile),
        !local_opened && !system_opened ==> match env_path {
            Some(p) => src matches Some(ConfigSource::EnvPath(q)) && q@ == p@,
            None => src is None,
        },
{
    if local_opened {
        Some(ConfigSource::LocalFile)
    } else if system_opened {
        Some(ConfigSource::SystemFile)
    } else {
        match env_path {
            Some(path) => Some(ConfigSource::EnvPath(path)),
            None => None,
        }
    }
}

} // verus!
