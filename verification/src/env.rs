//! Configuration taken from the process environment.
//!
//! Reading the environment is left to the caller, who hands over what it
//! found as an [`Environment`]. Everything that is decided from those values
//! is decided here.

use vstd::prelude::*;
use vstd::string::*;

use crate::text::{parse_u32, parsed_u32};
use crate::types::error::BjigError;

verus! {

/// Name of the variable that holds the path of the tool's binary.
pub const ENV_BJIG_CLI_BIN_PATH: &'static str = "BJIG_CLI_BIN_PATH";

/// Name of the variable that holds the serial port.
pub const ENV_BJIG_CLI_PORT: &'static str = "BJIG_CLI_PORT";

/// Name of the variable that holds the baud rate.
pub const ENV_BJIG_CLI_BAUD: &'static str = "BJIG_CLI_BAUD";

/// Name of the variable that holds the path of the module configuration.
pub const ENV_BJIG_CLI_MODULE_CONFIG: &'static str = "BJIG_CLI_MODULE_CONFIG";

/// Baud rate used where none is given anywhere.
pub const DEFAULT_BAUD: u32 = 38400;

/// Module configuration file used where none is named.
pub const DEFAULT_MODULE_CONFIG: &'static str = "module-config.yml";

/// Path of the tool's binary where none is named.
pub const DEFAULT_BJIG_BINARY: &'static str = "./bin/bjig";

/// The values of the four variables as they were found: `None` for one
/// that is not set or does not hold text.
#[derive(Debug, Clone)]
pub struct Environment {
    /// Value of `BJIG_CLI_BIN_PATH`.
    pub bin_path: Option<String>,
    /// Value of `BJIG_CLI_PORT`.
    pub port: Option<String>,
    /// Value of `BJIG_CLI_BAUD`, as written.
    pub baud: Option<String>,
    /// Value of `BJIG_CLI_MODULE_CONFIG`.
    pub module_config: Option<String>,
}

/// The characters of an optional string.
pub open spec fn text_of(value: Option<String>) -> Option<Seq<char>> {
    match value {
        Some(text) => Some(text@),
        None => None,
    }
}

/// The characters of an optional string slice.
pub open spec fn text_of_str(value: Option<&str>) -> Option<Seq<char>> {
    match value {
        Some(text) => Some(text@),
        None => None,
    }
}

impl Environment {
    /// An environment in which none of the variables is set.
    pub fn empty() -> (env: Environment)
        ensures
            env.bin_path.is_none(),
            env.port.is_none(),
            env.baud.is_none(),
            env.module_config.is_none(),
    {
        Environment { bin_path: None, port: None, baud: None, module_config: None }
    }

    /// The baud rate that the environment gives: the value of the variable
    /// where it is set and reads as a `u32`.
    pub open spec fn baud_rate(self) -> Option<u32> {
        match self.baud {
            Some(text) => parsed_u32(text@),
            None => None,
        }
    }
}

/// The port to use: the one given for this call, else the configured
/// default, else the one from the environment.
pub open spec fn resolved_port(
    explicit: Option<Seq<char>>,
    default: Option<Seq<char>>,
    from_env: Option<Seq<char>>,
) -> Option<Seq<char>> {
    if explicit.is_some() {
        explicit
    } else if default.is_some() {
        default
    } else {
        from_env
    }
}

/// The baud rate to use: the one given for this call, else the configured
/// default, else the one from the environment, else `DEFAULT_BAUD`.
pub open spec fn resolved_baud(
    explicit: Option<u32>,
    default: Option<u32>,
    from_env: Option<u32>,
) -> u32 {
    if explicit.is_some() {
        explicit.unwrap()
    } else if default.is_some() {
        default.unwrap()
    } else if from_env.is_some() {
        from_env.unwrap()
    } else {
        DEFAULT_BAUD
    }
}

/// Path of the tool's binary: from the environment, else the default.
pub fn get_bjig_binary_path(env: &Environment) -> (path: String)
    ensures
        path@ == match env.bin_path {
            Some(text) => text@,
            None => DEFAULT_BJIG_BINARY@,
        },
{
    match &env.bin_path {
        Some(text) => text.clone(),
        None => String::from_str(DEFAULT_BJIG_BINARY),
    }
}

/// The serial port named in the environment.
pub fn get_port_from_env(env: &Environment) -> (port: Option<String>)
    ensures
        text_of(port) == text_of(env.port),
{
    match &env.port {
        Some(text) => Some(text.clone()),
        None => None,
    }
}

/// The baud rate named in the environment, if it reads as a number.
pub fn get_baud_from_env(env: &Environment) -> (baud: Option<u32>)
    ensures
        baud == env.baud_rate(),
{
    match &env.baud {
        Some(text) => parse_u32(text.as_str()),
        None => None,
    }
}

/// Path of the module configuration: from the environment, else the
/// default.
pub fn get_module_config_from_env(env: &Environment) -> (path: String)
    ensures
        path@ == match env.module_config {
            Some(text) => text@,
            None => DEFAULT_MODULE_CONFIG@,
        },
{
    match &env.module_config {
        Some(text) => text.clone(),
        None => String::from_str(DEFAULT_MODULE_CONFIG),
    }
}

/// Picks the serial port: explicit, then default, then environment. With
/// none of the three there is no port to use.
pub fn resolve_port(explicit: Option<&str>, default: Option<&str>, env: &Environment) -> (port:
    Result<String, BjigError>)
    ensures
        match resolved_port(text_of_str(explicit), text_of_str(default), text_of(env.port)) {
            Some(text) => port matches Ok(chosen) && chosen@ == text,
            None => port == Err::<String, BjigError>(BjigError::PortNotConfigured),
        },
{
    match explicit {
        Some(text) => Ok(String::from_str(text)),
        None => match default {
            Some(text) => Ok(String::from_str(text)),
            None => match get_port_from_env(env) {
                Some(text) => Ok(text),
                None => Err(BjigError::PortNotConfigured),
            },
        },
    }
}

/// Picks the baud rate: explicit, then default, then environment, then
/// `DEFAULT_BAUD`.
pub fn resolve_baud(explicit: Option<u32>, default: Option<u32>, env: &Environment) -> (baud: u32)
    ensures
        baud == resolved_baud(explicit, default, env.baud_rate()),
{
    match explicit {
        Some(value) => value,
        None => match default {
            Some(value) => value,
            None => match get_baud_from_env(env) {
                Some(value) => value,
                None => DEFAULT_BAUD,
            },
        },
    }
}

} // verus!
