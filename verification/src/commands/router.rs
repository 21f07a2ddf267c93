//! The router's commands: the argument list that each one starts the tool
//! with.

use vstd::prelude::*;
use vstd::string::*;

use crate::controller::BjigController;
use crate::env::{text_of, text_of_str, Environment};
use crate::executor::{arg_texts, owned_args, str_texts, CommandExecutor};
use crate::text::{decimal_digits, decimal_string};
use crate::types::common::ScanModeType;
use crate::types::error::BjigError;

verus! {

/// The router's commands, for one controller.
#[derive(Debug)]
pub struct RouterCommands<'a> {
    controller: &'a BjigController,
}

/// The words of a subcommand that takes an optional index: the index in
/// decimal behind the words, where there is one.
pub open spec fn with_index(words: Seq<Seq<char>>, index: Option<u8>) -> Seq<Seq<char>> {
    match index {
        Some(value) => words.push(decimal_digits(value as nat)),
        None => words,
    }
}

/// Whether `result` is what a command on a file gives: the argument list
/// for `subcommand` if the file is there, and `FileNotFound` with its path
/// if it is not.
pub open spec fn is_file_command_line(
    controller: BjigController,
    subcommand: Seq<Seq<char>>,
    file_path: Seq<char>,
    file_present: bool,
    port: Option<Seq<char>>,
    baud: Option<u32>,
    env: Environment,
    result: Result<Vec<String>, BjigError>,
) -> bool {
    if file_present {
        controller.builds(subcommand, port, baud, env, result)
    } else {
        result matches Err(BjigError::FileNotFound(path)) && path@ == file_path
    }
}

impl<'a> RouterCommands<'a> {
    /// The controller whose router this is.
    pub closed spec fn controller(self) -> BjigController {
        *self.controller
    }

    /// The router's commands for `controller`.
    pub fn new(controller: &'a BjigController) -> (commands: RouterCommands<'a>)
        ensures
            commands.controller() == *controller,
    {
        RouterCommands { controller }
    }

    /// An executor with the controller's binary and defaults.
    pub fn executor(&self) -> (executor: CommandExecutor<'_>)
        ensures
            executor.bjig_path@ == self.controller().bjig_path@,
            text_of_str(executor.default_port) == text_of(self.controller().default_port),
            executor.default_baud == self.controller().default_baud,
    {
        self.controller.executor()
    }

    /// Arguments that start the router.
    pub fn start_args(
        &self,
        port: Option<&str>,
        baud: Option<u32>,
        env: &Environment,
    ) -> (result: Result<Vec<String>, BjigError>)
        ensures
            self.controller().builds(
                seq!["router"@, "start"@],
                text_of_str(port),
                baud,
                *env,
                result,
            ),
    {
        let words = vec!["router", "start"];
        assert(str_texts(words@) =~= seq!["router"@, "start"@]);
        self.executor().build_args(words.as_slice(), port, baud, env)
    }

    /// Arguments that stop the router.
    pub fn stop_args(
        &self,
        port: Option<&str>,
        baud: Option<u32>,
        env: &Environment,
    ) -> (result: Result<Vec<String>, BjigError>)
        ensures
            self.controller().builds(
                seq!["router"@, "stop"@],
                text_of_str(port),
                baud,
                *env,
                result,
            ),
    {
        let words = vec!["router", "stop"];
        assert(str_texts(words@) =~= seq!["router"@, "stop"@]);
        self.executor().build_args(words.as_slice(), port, baud, env)
    }

    /// Arguments that ask for the firmware version.
    pub fn get_version_args(
        &self,
        port: Option<&str>,
        baud: Option<u32>,
        env: &Environment,
    ) -> (result: Result<Vec<String>, BjigError>)
        ensures
            self.controller().builds(
                seq!["router"@, "get-version"@],
                text_of_str(port),
                baud,
                *env,
                result,
            ),
    {
        let words = vec!["router", "get-version"];
        assert(str_texts(words@) =~= seq!["router"@, "get-version"@]);
        self.executor().build_args(words.as_slice(), port, baud, env)
    }

    /// Arguments that ask for the module id at `index`, or for all of them.
    pub fn get_module_id_args(
        &self,
        index: Option<u8>,
        port: Option<&str>,
        baud: Option<u32>,
        env: &Environment,
    ) -> (result: Result<Vec<String>, BjigError>)
        ensures
            self.controller().builds(
                with_index(seq!["router"@, "get-module-id"@], index),
                text_of_str(port),
                baud,
                *env,
                result,
            ),
    {
        match index {
            Some(value) => {
                let number = decimal_string(value as u64);
                let words = vec!["router", "get-module-id", number.as_str()];
                assert(str_texts(words@) =~= with_index(seq!["router"@, "get-module-id"@], index));
                self.executor().build_args(words.as_slice(), port, baud, env)
            },
            None => {
                let words = vec!["router", "get-module-id"];
                assert(str_texts(words@) =~= with_index(seq!["router"@, "get-module-id"@], index));
                self.executor().build_args(words.as_slice(), port, baud, env)
            },
        }
    }

    /// Arguments that ask for the scan mode.
    pub fn get_scan_mode_args(
        &self,
        port: Option<&str>,
        baud: Option<u32>,
        env: &Environment,
    ) -> (result: Result<Vec<String>, BjigError>)
        ensures
            self.controller().builds(
                seq!["router"@, "get-scan-mode"@],
                text_of_str(port),
                baud,
                *env,
                result,
            ),
    {
        let words = vec!["router", "get-scan-mode"];
        assert(str_texts(words@) =~= seq!["router"@, "get-scan-mode"@]);
        self.executor().build_args(words.as_slice(), port, baud, env)
    }

    /// Arguments that set the scan mode.
    pub fn set_scan_mode_args(
        &self,
        mode: ScanModeType,
        port: Option<&str>,
        baud: Option<u32>,
        env: &Environment,
    ) -> (result: Result<Vec<String>, BjigError>)
        ensures
            self.controller().builds(
                seq!["router"@, "set-scan-mode"@, decimal_digits(mode.code() as nat)],
                text_of_str(port),
                baud,
                *env,
                result,
            ),
    {
        let number = decimal_string(mode.to_u8() as u64);
        let words = vec!["router", "set-scan-mode", number.as_str()];
        assert(str_texts(words@) =~= seq![
            "router"@,
            "set-scan-mode"@,
            decimal_digits(mode.code() as nat),
        ]);
        self.executor().build_args(words.as_slice(), port, baud, env)
    }

    /// Arguments that remove the module id at `index`, or all of them.
    pub fn remove_module_id_args(
        &self,
        index: Option<u8>,
        port: Option<&str>,
        baud: Option<u32>,
        env: &Environment,
    ) -> (result: Result<Vec<String>, BjigError>)
        ensures
            self.controller().builds(
                with_index(seq!["router"@, "remove-module-id"@], index),
                text_of_str(port),
                baud,
                *env,
                result,
            ),
    {
        match index {
            Some(value) => {
                let number = decimal_string(value as u64);
                let words = vec!["router", "remove-module-id", number.as_str()];
                assert(str_texts(words@) =~= with_index(seq!["router"@, "remove-module-id"@], index));
                self.executor().build_args(words.as_slice(), port, baud, env)
            },
            None => {
                let words = vec!["router", "remove-module-id"];
                assert(str_texts(words@) =~= with_index(seq!["router"@, "remove-module-id"@], index));
                self.executor().build_args(words.as_slice(), port, baud, env)
            },
        }
    }

    /// Arguments that send a keep-alive.
    pub fn keep_alive_args(
        &self,
        port: Option<&str>,
        baud: Option<u32>,
        env: &Environment,
    ) -> (result: Result<Vec<String>, BjigError>)
        ensures
            self.controller().builds(
                seq!["router"@, "keep-alive"@],
                text_of_str(port),
                baud,
                *env,
                result,
            ),
    {
        let words = vec!["router", "keep-alive"];
        assert(str_texts(words@) =~= seq!["router"@, "keep-alive"@]);
        self.executor().build_args(words.as_slice(), port, baud, env)
    }

    /// Arguments that list the sensor kinds the tool supports. The command
    /// needs no device.
    pub fn get_supported_sensor_id_args(&self) -> (args: Vec<String>)
        ensures
            arg_texts(args@) == seq!["router"@, "get-supported-sensor-id"@],
    {
        let words = vec!["router", "get-supported-sensor-id"];
        assert(str_texts(words@) =~= seq!["router"@, "get-supported-sensor-id"@]);
        owned_args(words.as_slice())
    }

    /// Arguments that read the module configuration file at `file_path`.
    /// The command needs no device.
    pub fn get_module_config_args(&self, file_path: &str) -> (args: Vec<String>)
        ensures
            arg_texts(args@) == seq!["router"@, "get-module-config"@, "--file"@, file_path@],
    {
        let words = vec!["router", "get-module-config", "--file", file_path];
        assert(str_texts(words@) =~= seq![
            "router"@,
            "get-module-config"@,
            "--file"@,
            file_path@,
        ]);
        owned_args(words.as_slice())
    }

    /// Arguments that update the router's firmware from the file at
    /// `firmware_path`. `file_present` says whether that file exists.
    pub fn dfu_args(
        &self,
        firmware_path: &str,
        file_present: bool,
        port: Option<&str>,
        baud: Option<u32>,
        env: &Environment,
    ) -> (result: Result<Vec<String>, BjigError>)
        ensures
            is_file_command_line(
                self.controller(),
                seq!["router"@, "dfu"@, "--file"@, firmware_path@],
                firmware_path@,
                file_present,
                text_of_str(port),
                baud,
                *env,
                result,
            ),
    {
        if !file_present {
            return Err(BjigError::FileNotFound(String::from_str(firmware_path)));
        }
        let words = vec!["router", "dfu", "--file", firmware_path];
        assert(str_texts(words@) =~= seq!["router"@, "dfu"@, "--file"@, firmware_path@]);
        self.executor().build_args(words.as_slice(), port, baud, env)
    }
}

} // verus!
