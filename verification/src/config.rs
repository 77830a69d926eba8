//! Which API key and base URL the command line uses.
//!
//! The key comes from the `--api-key` flag, else the `UPDOWN_API_KEY`
//! environment variable, else `api_key` in `~/.config/updown/config.toml`.
//! The base URL is `https://updown.io` unless `UPDOWN_BASE_URL` overrides it.
//! Reading the environment and the file is the caller's part; this module decides.

use vstd::prelude::*;
use vstd::string::*;

verus! {

/// Resolved settings for talking to the API.
pub struct Config {
    /// The key sent in the `X-API-KEY` header.
    pub api_key: String,
    /// Scheme and host that request paths are appended to.
    pub base_url: String,
}

/// Why no configuration could be resolved.
pub enum ConfigError {
    /// None of the three sources supplied an API key.
    NoApiKey,
}

impl ConfigError {
    /// The message shown for this error.
    pub fn message(&self) -> (m: String)
        ensures
            m@ == "No API key found. Pass --api-key, set UPDOWN_API_KEY, or add api_key to ~/.config/updown/config.toml"@,
    {
        String::from_str("No API key found. Pass --api-key, set UPDOWN_API_KEY, or add api_key to ~/.config/updown/config.toml")
    }
}

/// The first of the three key sources that is present, in priority order.
pub open spec fn chosen_key(flag: Option<String>, env: Option<String>, file: Option<String>) -> Option<String> {
    if flag is Some {
        flag
    } else if env is Some {
        env
    } else {
        file
    }
}

/// The base URL: the override when one is set, else `https://updown.io`.
pub open spec fn chosen_base_url(env_base_url: Option<String>) -> Seq<char> {
    match env_base_url {
        Some(u) => u@,
        None => "https://updown.io"@,
    }
}

impl Config {
    /// Resolves the settings from the flag, the environment and the config file.
    pub fn resolve(
        flag_key: Option<String>,
        env_key: Option<String>,
        file_key: Option<String>,
        env_base_url: Option<String>,
    ) -> (r: Result<Config, ConfigError>)
        ensures
            match chosen_key(flag_key, env_key, file_key) {
                Some(k) => r matches Ok(c) && c.api_key@ == k@ && c.base_url@ == chosen_base_url(env_base_url),
                None => r matches Err(ConfigError::NoApiKey),
            },
    {
        let key = match flag_key {
            Some(k) => Some(k),
            None => match env_key {
                Some(k) => Some(k),
                None => file_key,
            },
        };
        let base_url = match env_base_url {
            Some(u) => u,
            None => String::from_str("https://updown.io"),
        };
        match key {
            Some(api_key) => Ok(Config { api_key, base_url }),
            None => Err(ConfigError::NoApiKey),
        }
    }
}

/// Priority of the key sources: the flag beats the environment, which beats the file.
pub proof fn law_key_priority(flag: Option<String>, env: Option<String>, file: Option<String>)
    ensures
        flag is Some ==> chosen_key(flag, env, file) == flag,
        flag is None && env is Some ==> chosen_key(flag, env, file) == env,
        flag is None && env is None ==> chosen_key(flag, env, file) == file,
{
}

} // verus!
