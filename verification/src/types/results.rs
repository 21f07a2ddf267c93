//! Answers of the tool, one type for each command.

use vstd::prelude::*;
use vstd::string::*;

verus! {

/// Whether a `result` field reads `success`.
pub open spec fn is_success_text(result: Seq<char>) -> bool {
    result == "success"@
}

/// Compares a `result` field with the word the tool uses for success.
pub fn reports_success(result: &String) -> (success: bool)
    ensures
        success == is_success_text(result@),
{
    let expected = String::from_str("success");
    *result == expected
}

/// What the router answered to a start request.
#[derive(Debug, Clone)]
pub struct StartResult {
    pub result: String,
    pub message: String,
}

impl StartResult {
    /// Whether the request succeeded.
    pub fn is_success(&self) -> (success: bool)
        ensures
            success == is_success_text(self.result@),
    {
        reports_success(&self.result)
    }
}

/// What the router answered to a stop request.
#[derive(Debug, Clone)]
pub struct StopResult {
    pub result: String,
    pub message: String,
}

impl StopResult {
    /// Whether the request succeeded.
    pub fn is_success(&self) -> (success: bool)
        ensures
            success == is_success_text(self.result@),
    {
        reports_success(&self.result)
    }
}

/// Firmware version of the router.
#[derive(Debug, Clone)]
pub struct Version {
    pub major: u8,
    pub minor: u8,
    pub build: u8,
    pub version: String,
}

/// The scan mode the router is in.
#[derive(Debug, Clone)]
pub struct ScanMode {
    pub mode: u8,
    pub mode_name: String,
}

/// What the router answered to a change of scan mode.
#[derive(Debug, Clone)]
pub struct SetScanModeResult {
    pub result: String,
    pub message: String,
}

impl SetScanModeResult {
    /// Whether the request succeeded.
    pub fn is_success(&self) -> (success: bool)
        ensures
            success == is_success_text(self.result@),
    {
        reports_success(&self.result)
    }
}

/// The module ids the router knows.
#[derive(Debug, Clone)]
pub struct ModuleIdList {
    pub module_count: usize,
    pub modules: Vec<String>,
}

/// What the router answered to the removal of module ids.
#[derive(Debug, Clone)]
pub struct RemoveResult {
    pub result: String,
    pub message: String,
}

impl RemoveResult {
    /// Whether the request succeeded.
    pub fn is_success(&self) -> (success: bool)
        ensures
            success == is_success_text(self.result@),
    {
        reports_success(&self.result)
    }
}

/// What the router answered to a keep-alive.
#[derive(Debug, Clone)]
pub struct KeepAliveResult {
    pub result: String,
    pub message: String,
}

impl KeepAliveResult {
    /// Whether the request succeeded.
    pub fn is_success(&self) -> (success: bool)
        ensures
            success == is_success_text(self.result@),
    {
        reports_success(&self.result)
    }
}

/// How a firmware update ended.
#[derive(Debug, Clone)]
pub struct DfuResult {
    pub result: String,
    pub message: Option<String>,
    pub error: Option<String>,
}

impl DfuResult {
    /// Whether the update succeeded.
    pub fn is_success(&self) -> (success: bool)
        ensures
            success == is_success_text(self.result@),
    {
        reports_success(&self.result)
    }
}

/// How far a firmware update has come.
#[derive(Debug, Clone)]
pub struct DfuProgress {
    pub phase: String,
    pub chunk_number: usize,
    pub total_chunks: usize,
    pub percentage: u8,
}

/// What a module answered to new parameters.
#[derive(Debug, Clone)]
pub struct SetParameterResult {
    pub result: String,
    pub message: String,
}

impl SetParameterResult {
    /// Whether the request succeeded.
    pub fn is_success(&self) -> (success: bool)
        ensures
            success == is_success_text(self.result@),
    {
        reports_success(&self.result)
    }
}

/// What a module answered to a restart request.
#[derive(Debug, Clone)]
pub struct RestartResult {
    pub result: String,
    pub message: String,
}

impl RestartResult {
    /// Whether the request succeeded.
    pub fn is_success(&self) -> (success: bool)
        ensures
            success == is_success_text(self.result@),
    {
        reports_success(&self.result)
    }
}

/// What a module answered to a control command.
#[derive(Debug, Clone)]
pub struct ControlResult {
    pub result: String,
    pub message: String,
}

impl ControlResult {
    /// Whether the request succeeded.
    pub fn is_success(&self) -> (success: bool)
        ensures
            success == is_success_text(self.result@),
    {
        reports_success(&self.result)
    }
}

} // verus!
