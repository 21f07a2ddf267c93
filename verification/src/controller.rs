//! The controller: where the tool is, and the port and baud rate that its
//! commands fall back on.

use vstd::prelude::*;
use vstd::string::*;

use crate::commands::module::ModuleCommands;
use crate::commands::monitor::MonitorCommand;
use crate::commands::router::RouterCommands;
use crate::env::{
    get_baud_from_env, get_bjig_binary_path, get_port_from_env, text_of, text_of_str, Environment,
    DEFAULT_BJIG_BINARY,
};
use crate::executor::{is_command_line, CommandExecutor};
use crate::types::error::BjigError;

verus! {

/// Entry point to every command of the tool.
#[derive(Debug)]
pub struct BjigController {
    /// Path of the tool's binary.
    pub bjig_path: String,
    /// Port used by commands that name none.
    pub default_port: Option<String>,
    /// Baud rate used by commands that name none.
    pub default_baud: Option<u32>,
    /// Path of the module configuration file, if one was named.
    pub module_config_path: Option<String>,
}

impl BjigController {
    /// A controller for the binary at `bjig_path`, with no defaults yet.
    /// `binary_present` says whether a file exists at that path; without
    /// one there is no controller.
    pub fn new(bjig_path: &str, binary_present: bool) -> (created: Result<
        BjigController,
        BjigError,
    >)
        ensures
            binary_present ==> (created matches Ok(controller) && controller.bjig_path@
                == bjig_path@ && controller.default_port.is_none()
                && controller.default_baud.is_none() && controller.module_config_path.is_none()),
            !binary_present ==> (created matches Err(BjigError::BinaryNotFound(path)) && path@
                == bjig_path@),
    {
        if !binary_present {
            return Err(BjigError::BinaryNotFound(String::from_str(bjig_path)));
        }
        Ok(
            BjigController {
                bjig_path: String::from_str(bjig_path),
                default_port: None,
                default_baud: None,
                module_config_path: None,
            },
        )
    }

    /// A controller configured from the environment: the binary's path,
    /// or the default path where none is set, and the port and baud rate
    /// as defaults where they are set. `binary_present` says whether a file
    /// exists at that path.
    pub fn from_env(env: &Environment, binary_present: bool) -> (created: Result<
        BjigController,
        BjigError,
    >)
        ensures
            binary_present ==> (created matches Ok(controller) && controller.bjig_path@
                == binary_path(*env) && text_of(controller.default_port) == text_of(env.port)
                && controller.default_baud == env.baud_rate()
                && controller.module_config_path.is_none()),
            !binary_present ==> (created matches Err(BjigError::BinaryNotFound(path)) && path@
                == binary_path(*env)),
    {
        let bjig_path = get_bjig_binary_path(env);
        let mut controller = match BjigController::new(bjig_path.as_str(), binary_present) {
            Ok(controller) => controller,
            Err(error) => {
                return Err(error);
            },
        };
        match get_port_from_env(env) {
            Some(port) => {
                controller.default_port = Some(port);
            },
            None => {},
        }
        match get_baud_from_env(env) {
            Some(baud) => {
                controller.default_baud = Some(baud);
            },
            None => {},
        }
        Ok(controller)
    }

    /// The same controller with `port` as its default port.
    pub fn with_port(self, port: &str) -> (updated: BjigController)
        ensures
            text_of(updated.default_port) == Some(port@),
            updated.bjig_path == self.bjig_path,
            updated.default_baud == self.default_baud,
            updated.module_config_path == self.module_config_path,
    {
        let mut updated = self;
        updated.default_port = Some(String::from_str(port));
        updated
    }

    /// The same controller with `baud` as its default baud rate.
    pub fn with_baud(self, baud: u32) -> (updated: BjigController)
        ensures
            updated.default_baud == Some(baud),
            updated.bjig_path == self.bjig_path,
            updated.default_port == self.default_port,
            updated.module_config_path == self.module_config_path,
    {
        let mut updated = self;
        updated.default_baud = Some(baud);
        updated
    }

    /// The same controller with `path` as its module configuration file.
    pub fn with_module_config_path(self, path: &str) -> (updated: BjigController)
        ensures
            text_of(updated.module_config_path) == Some(path@),
            updated.bjig_path == self.bjig_path,
            updated.default_port == self.default_port,
            updated.default_baud == self.default_baud,
    {
        let mut updated = self;
        updated.module_config_path = Some(String::from_str(path));
        updated
    }

    /// Whether `result` is the argument list that this controller builds
    /// for `subcommand`, or `PortNotConfigured` where it has no port.
    pub open spec fn builds(
        self,
        subcommand: Seq<Seq<char>>,
        port: Option<Seq<char>>,
        baud: Option<u32>,
        env: Environment,
        result: Result<Vec<String>, BjigError>,
    ) -> bool {
        is_command_line(
            text_of(self.default_port),
            self.default_baud,
            subcommand,
            port,
            baud,
            env,
            result,
        )
    }

    /// An executor with this controller's binary and defaults.
    pub fn executor(&self) -> (executor: CommandExecutor<'_>)
        ensures
            executor.bjig_path@ == self.bjig_path@,
            text_of_str(executor.default_port) == text_of(self.default_port),
            executor.default_baud == self.default_baud,
    {
        let default_port = match &self.default_port {
            Some(port) => Some(port.as_str()),
            None => None,
        };
        CommandExecutor::new(self.bjig_path.as_str(), default_port, self.default_baud)
    }

    /// The router's commands.
    pub fn router(&self) -> (commands: RouterCommands<'_>)
        ensures
            commands.controller() == *self,
    {
        RouterCommands::new(self)
    }

    /// The commands of the module `module_id` of kind `sensor_id`.
    pub fn module(&self, sensor_id: &str, module_id: &str) -> (commands: ModuleCommands<'_>)
        ensures
            commands.controller() == *self,
            commands.sensor_id() == sensor_id@,
            commands.module_id() == module_id@,
    {
        ModuleCommands::new(self, sensor_id, module_id)
    }

    /// The monitor command.
    pub fn monitor(&self) -> (command: MonitorCommand<'_>)
        ensures
            command.controller() == *self,
    {
        MonitorCommand::new(self)
    }
}

/// The path of the tool's binary that an environment gives: the value of
/// the variable, or the default path.
pub open spec fn binary_path(env: Environment) -> Seq<char> {
    match env.bin_path {
        Some(text) => text@,
        None => DEFAULT_BJIG_BINARY@,
    }
}

} // verus!
