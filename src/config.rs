//! Startup configuration: the target path and the initial session credential,
//! both required.

use vstd::prelude::*;
use vstd::string::*;

verus! {

/// The validated startup configuration.
pub struct Config {
    /// Endpoint prefix, without a query string.
    pub path: String,
    /// Initial session credential.
    pub session_id: String,
}

/// A required configuration value that was not supplied.
#[derive(Clone, Copy, Debug, PartialEq, Eq, Structural)]
pub enum ConfigError {
    MissingUrlPath,
    MissingSessionId,
}

/// Name of the environment variable that `e` reports as missing.
pub open spec fn variable_name_of(e: ConfigError) -> Seq<char> {
    match e {
        ConfigError::MissingUrlPath => "URL_PATH"@,
        ConfigError::MissingSessionId => "SESSION_ID"@,
    }
}

/// The diagnostic line for the missing variable `name`.
pub open spec fn missing_message_of(name: Seq<char>) -> Seq<char> {
    "ERROR: Must define "@ + name + " environment variable!"@
}

impl ConfigError {
    /// Name of the environment variable that is missing.
    pub fn variable_name(&self) -> (r: &'static str)
        ensures
            r@ == variable_name_of(*self),
    {
        match self {
            ConfigError::MissingUrlPath => "URL_PATH",
            ConfigError::MissingSessionId => "SESSION_ID",
        }
    }

    /// The diagnostic line that names the missing variable.
    pub fn message(&self) -> (r: String)
        ensures
            r@ == missing_message_of(variable_name_of(*self)),
    {
        let mut msg = "ERROR: Must define ".to_owned();
        msg.append(self.variable_name());
        msg.append(" environment variable!");
        msg
    }
}

/// Validates the startup values. The target path is checked first, so when
/// both are absent the path is the one reported.
pub fn config_from(url_path: Option<String>, session_id: Option<String>) -> (r: Result<
    Config,
    ConfigError,
>)
    ensures
        url_path.is_none() ==> r == Err::<Config, ConfigError>(ConfigError::MissingUrlPath),
        url_path.is_some() && session_id.is_none() ==> r == Err::<Config, ConfigError>(
            ConfigError::MissingSessionId,
        ),
        r.is_ok() <==> (url_path.is_some() && session_id.is_some()),
        r matches Ok(c) ==> c.path@ == url_path.unwrap()@ && c.session_id@
            == session_id.unwrap()@,
{
    match url_path {
        None => Err(ConfigError::MissingUrlPath),
        Some(path) => match session_id {
            None => Err(ConfigError::MissingSessionId),
            Some(session_id) => Ok(Config { path, session_id }),
        },
    }
}

} // verus!
