//! The commands of one sensor module: the argument list that each one
//! starts the tool with.

use vstd::prelude::*;
use vstd::string::*;

use crate::commands::router::is_file_command_line;
use crate::controller::BjigController;
use crate::env::{resolved_port, text_of, text_of_str, Environment};
use crate::executor::{arg_texts, json_text, str_texts, CommandExecutor};
use crate::text::{decimal_digits, decimal_string};
use crate::types::error::BjigError;

verus! {

/// How long a module is given to answer where the caller names no time, in
/// seconds.
pub const DEFAULT_RESPONSE_TIMEOUT_SECS: u64 = 30;

/// The commands of one module, for one controller.
#[derive(Debug)]
pub struct ModuleCommands<'a> {
    controller: &'a BjigController,
    sensor_id: String,
    module_id: String,
}

/// The words that every module command begins with: the command's name and
/// which module it is for.
pub open spec fn module_words(verb: Seq<char>, sensor_id: Seq<char>, module_id: Seq<char>) -> Seq<
    Seq<char>,
> {
    seq!["module"@, verb, "--sensor-id"@, sensor_id, "--module-id"@, module_id]
}

/// The words of a module command that waits for an answer: the time it
/// waits, in seconds, comes last.
pub open spec fn timed_words(
    verb: Seq<char>,
    sensor_id: Seq<char>,
    module_id: Seq<char>,
    timeout_secs: u64,
) -> Seq<Seq<char>> {
    module_words(verb, sensor_id, module_id) + seq![
        "--response-timeout"@,
        decimal_digits(timeout_secs as nat),
    ]
}

/// The words of a module command that sends a JSON document: the document
/// as text, then the time to wait.
pub open spec fn data_words(
    verb: Seq<char>,
    sensor_id: Seq<char>,
    module_id: Seq<char>,
    data: Seq<char>,
    timeout_secs: u64,
) -> Seq<Seq<char>> {
    module_words(verb, sensor_id, module_id) + seq![
        "--data"@,
        data,
        "--response-timeout"@,
        decimal_digits(timeout_secs as nat),
    ]
}

/// The words of a firmware update of a module.
pub open spec fn firmware_words(
    sensor_id: Seq<char>,
    module_id: Seq<char>,
    file_path: Seq<char>,
) -> Seq<Seq<char>> {
    module_words("dfu"@, sensor_id, module_id) + seq!["--file"@, file_path]
}

impl<'a> ModuleCommands<'a> {
    /// The controller through which the module is reached.
    pub closed spec fn controller(self) -> BjigController {
        *self.controller
    }

    /// The kind of sensor, as the tool names it.
    pub closed spec fn sensor_id(self) -> Seq<char> {
        self.sensor_id@
    }

    /// The module's id.
    pub closed spec fn module_id(self) -> Seq<char> {
        self.module_id@
    }

    /// The commands of module `module_id` of kind `sensor_id`.
    pub fn new(controller: &'a BjigController, sensor_id: &str, module_id: &str) -> (commands:
        ModuleCommands<'a>)
        ensures
            commands.controller() == *controller,
            commands.sensor_id() == sensor_id@,
            commands.module_id() == module_id@,
    {
        ModuleCommands {
            controller,
            sensor_id: String::from_str(sensor_id),
            module_id: String::from_str(module_id),
        }
    }

    /// An executor with the controller's binary and defaults.
    pub fn executor(&self) -> (executor: CommandExecutor<'_>)
        ensures
            executor.bjig_path@ == self.controller().bjig_path@,
            text_of_str(executor.default_port) == text_of(self.controller().default_port),
            executor.default_baud == self.controller().default_baud,
    {
        self.controller.executor()
    }

    fn timed_args(
        &self,
        verb: &str,
        timeout_secs: u64,
        port: Option<&str>,
        baud: Option<u32>,
        env: &Environment,
    ) -> (result: Result<Vec<String>, BjigError>)
        ensures
            self.controller().builds(
                timed_words(verb@, self.sensor_id(), self.module_id(), timeout_secs),
                text_of_str(port),
                baud,
                *env,
                result,
            ),
    {
        let timeout = decimal_string(timeout_secs);
        let words = vec![
            "module",
            verb,
            "--sensor-id",
            self.sensor_id.as_str(),
            "--module-id",
            self.module_id.as_str(),
            "--response-timeout",
            timeout.as_str(),
        ];
        assert(str_texts(words@) =~= timed_words(
            verb@,
            self.sensor_id(),
            self.module_id(),
            timeout_secs,
        ));
        self.executor().build_args(words.as_slice(), port, baud, env)
    }

    fn data_args(
        &self,
        verb: &str,
        data: &str,
        timeout_secs: u64,
        port: Option<&str>,
        baud: Option<u32>,
        env: &Environment,
    ) -> (result: Result<Vec<String>, BjigError>)
        ensures
            self.controller().builds(
                data_words(verb@, self.sensor_id(), self.module_id(), data@, timeout_secs),
                text_of_str(port),
                baud,
                *env,
                result,
            ),
    {
        let timeout = decimal_string(timeout_secs);
        let words = vec![
            "module",
            verb,
            "--sensor-id",
            self.sensor_id.as_str(),
            "--module-id",
            self.module_id.as_str(),
            "--data",
            data,
            "--response-timeout",
            timeout.as_str(),
        ];
        assert(str_texts(words@) =~= data_words(
            verb@,
            self.sensor_id(),
            self.module_id(),
            data@,
            timeout_secs,
        ));
        self.executor().build_args(words.as_slice(), port, baud, env)
    }

    /// Arguments that ask the module for its data at once.
    pub fn instant_uplink_args(
        &self,
        timeout_secs: u64,
        port: Option<&str>,
        baud: Option<u32>,
        env: &Environment,
    ) -> (result: Result<Vec<String>, BjigError>)
        ensures
            self.controller().builds(
                timed_words("instant-uplink"@, self.sensor_id(), self.module_id(), timeout_secs),
                text_of_str(port),
                baud,
                *env,
                result,
            ),
    {
        self.timed_args("instant-uplink", timeout_secs, port, baud, env)
    }

    /// Arguments that ask the module for its parameters.
    pub fn get_parameter_args(
        &self,
        timeout_secs: u64,
        port: Option<&str>,
        baud: Option<u32>,
        env: &Environment,
    ) -> (result: Result<Vec<String>, BjigError>)
        ensures
            self.controller().builds(
                timed_words("get-parameter"@, self.sensor_id(), self.module_id(), timeout_secs),
                text_of_str(port),
                baud,
                *env,
                result,
            ),
    {
        self.timed_args("get-parameter", timeout_secs, port, baud, env)
    }

    /// Arguments that set the module's parameters to a JSON document.
    /// The document is written as text with `json_text`; what stands behind
    /// `--data` in the list is that text.
    pub fn set_parameter_args(
        &self,
        data: &serde_json::Value,
        timeout_secs: u64,
        port: Option<&str>,
        baud: Option<u32>,
        env: &Environment,
    ) -> (result: Result<Vec<String>, BjigError>)
        ensures
            result matches Ok(args) ==> args@.len() == 14 && self.controller().builds(
                data_words(
                    "set-parameter"@,
                    self.sensor_id(),
                    self.module_id(),
                    args@[11]@,
                    timeout_secs,
                ),
                text_of_str(port),
                baud,
                *env,
                result,
            ),
            result matches Err(error) ==> error is JsonParseError || (error
                == BjigError::PortNotConfigured && resolved_port(
                text_of_str(port),
                text_of(self.controller().default_port),
                text_of(env.port),
            ).is_none()),
    {
        let text = match json_text(data) {
            Ok(text) => text,
            Err(error) => {
                return Err(error);
            },
        };
        let result = self.set_parameter_text_args(text.as_str(), timeout_secs, port, baud, env);
        proof {
            match &result {
                Ok(args) => {
                    let words = data_words(
                        "set-parameter"@,
                        self.sensor_id(),
                        self.module_id(),
                        text@,
                        timeout_secs,
                    );
                    assert(words.len() == 10);
                    assert(words[7] == text@);
                    assert(arg_texts(args@).len() == 14);
                    assert(arg_texts(args@)[11] == text@);
                    assert(args@[11]@ == text@);
                },
                Err(_) => {},
            }
        }
        result
    }

    /// Arguments that set the module's parameters to a JSON document.
    /// `data` is the document as text.
    pub fn set_parameter_text_args(
        &self,
        data: &str,
        timeout_secs: u64,
        port: Option<&str>,
        baud: Option<u32>,
        env: &Environment,
    ) -> (result: Result<Vec<String>, BjigError>)
        ensures
            self.controller().builds(
                data_words(
                    "set-parameter"@,
                    self.sensor_id(),
                    self.module_id(),
                    data@,
                    timeout_secs,
                ),
                text_of_str(port),
                baud,
                *env,
                result,
            ),
    {
        self.data_args("set-parameter", data, timeout_secs, port, baud, env)
    }

    /// Arguments that restart the module.
    pub fn restart_args(
        &self,
        timeout_secs: u64,
        port: Option<&str>,
        baud: Option<u32>,
        env: &Environment,
    ) -> (result: Result<Vec<String>, BjigError>)
        ensures
            self.controller().builds(
                timed_words("restart"@, self.sensor_id(), self.module_id(), timeout_secs),
                text_of_str(port),
                baud,
                *env,
                result,
            ),
    {
        self.timed_args("restart", timeout_secs, port, baud, env)
    }

    /// Arguments that update the module's firmware from the file at
    /// `firmware_path`. `file_present` says whether that file exists.
    pub fn dfu_args(
        &self,
        firmware_path: &str,
        file_present: bool,
        port: Option<&str>,
        baud: Option<u32>,
        env: &Environment,
    ) -> (result: Result<Vec<String>, BjigError>)
        ensures
            is_file_command_line(
                self.controller(),
                firmware_words(self.sensor_id(), self.module_id(), firmware_path@),
                firmware_path@,
                file_present,
                text_of_str(port),
                baud,
                *env,
                result,
            ),
    {
        if !file_present {
            return Err(BjigError::FileNotFound(String::from_str(firmware_path)));
        }
        let words = vec![
            "module",
            "dfu",
            "--sensor-id",
            self.sensor_id.as_str(),
            "--module-id",
            self.module_id.as_str(),
            "--file",
            firmware_path,
        ];
        assert(str_texts(words@) =~= firmware_words(
            self.sensor_id(),
            self.module_id(),
            firmware_path@,
        ));
        self.executor().build_args(words.as_slice(), port, baud, env)
    }

    /// Arguments that send the module a control command, a JSON document.
    /// The document is written as text with `json_text`; what stands behind
    /// `--data` in the list is that text.
    pub fn control_args(
        &self,
        data: &serde_json::Value,
        timeout_secs: u64,
        port: Option<&str>,
        baud: Option<u32>,
        env: &Environment,
    ) -> (result: Result<Vec<String>, BjigError>)
        ensures
            result matches Ok(args) ==> args@.len() == 14 && self.controller().builds(
                data_words(
                    "control"@,
                    self.sensor_id(),
                    self.module_id(),
                    args@[11]@,
                    timeout_secs,
                ),
                text_of_str(port),
                baud,
                *env,
                result,
            ),
            result matches Err(error) ==> error is JsonParseError || (error
                == BjigError::PortNotConfigured && resolved_port(
                text_of_str(port),
                text_of(self.controller().default_port),
                text_of(env.port),
            ).is_none()),
    {
        let text = match json_text(data) {
            Ok(text) => text,
            Err(error) => {
                return Err(error);
            },
        };
        let result = self.control_text_args(text.as_str(), timeout_secs, port, baud, env);
        proof {
            match &result {
                Ok(args) => {
                    let words = data_words(
                        "control"@,
                        self.sensor_id(),
                        self.module_id(),
                        text@,
                        timeout_secs,
                    );
                    assert(words.len() == 10);
                    assert(words[7] == text@);
                    assert(arg_texts(args@).len() == 14);
                    assert(arg_texts(args@)[11] == text@);
                    assert(args@[11]@ == text@);
                },
                Err(_) => {},
            }
        }
        result
    }

    /// Arguments that send the module a control command, a JSON document.
    /// `data` is the document as text.
    pub fn control_text_args(
        &self,
        data: &str,
        timeout_secs: u64,
        port: Option<&str>,
        baud: Option<u32>,
        env: &Environment,
    ) -> (result: Result<Vec<String>, BjigError>)
        ensures
            self.controller().builds(
                data_words("control"@, self.sensor_id(), self.module_id(), data@, timeout_secs),
                text_of_str(port),
                baud,
                *env,
                result,
            ),
    {
        self.data_args("control", data, timeout_secs, port, baud, env)
    }
}

} // verus!
