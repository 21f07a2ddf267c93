//! Data types shared across the library.

pub mod common;
pub mod error;
pub mod results;

pub use common::{ModuleConfig, ScanModeType};
pub use error::BjigError;
pub use results::{
    ControlResult, DfuProgress, DfuResult, KeepAliveResult, ModuleIdList, RemoveResult,
    RestartResult, ScanMode, SetParameterResult, SetScanModeResult, StartResult, StopResult,
    Version,
};
