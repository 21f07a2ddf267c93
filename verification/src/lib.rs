//! Control surface for a gateway command-line tool and its long-running
//! line monitor.
//!
//! The library decides; its caller acts. It builds the argument list that
//! each command starts the tool with, reads what a finished command left
//! behind, and runs the monitor loop as a state machine that is told what
//! happened and answers what to do. Starting processes, reading pipes and
//! the environment, and waiting are the caller's part.

pub mod commands;
pub mod controller;
pub mod env;
pub mod executor;
pub mod stream;
pub mod stream_laws;
pub mod text;
pub mod types;

pub use controller::BjigController;
pub use env::{
    Environment, DEFAULT_BAUD, DEFAULT_BJIG_BINARY, DEFAULT_MODULE_CONFIG, ENV_BJIG_CLI_BAUD,
    ENV_BJIG_CLI_BIN_PATH, ENV_BJIG_CLI_MODULE_CONFIG, ENV_BJIG_CLI_PORT,
};
pub use types::{
    BjigError, ControlResult, DfuProgress, DfuResult, KeepAliveResult, ModuleConfig, ModuleIdList,
    RemoveResult, RestartResult, ScanMode, ScanModeType, SetParameterResult, SetScanModeResult,
    StartResult, StopResult, Version,
};
