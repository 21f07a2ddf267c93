//! Small value types used by several commands.

use vstd::prelude::*;

verus! {

/// One entry of a module configuration file.
#[derive(Debug, Clone)]
pub struct ModuleConfig {
    pub module_id: String,
    pub sensor_id: String,
    pub description: Option<String>,
}

/// Radio scan mode of the router.
#[derive(Debug, Clone, Copy, PartialEq, Eq, Structural)]
pub enum ScanModeType {
    LongRange,
    Legacy,
}

impl ScanModeType {
    /// The number the command line uses for this mode.
    pub open spec fn code(self) -> u8 {
        match self {
            ScanModeType::LongRange => 0,
            ScanModeType::Legacy => 1,
        }
    }

    /// The mode that a number stands for: zero and one stand for a mode,
    /// no other number does.
    pub open spec fn from_code(value: u8) -> Option<ScanModeType> {
        if value == 0 {
            Some(ScanModeType::LongRange)
        } else if value == 1 {
            Some(ScanModeType::Legacy)
        } else {
            None
        }
    }

    /// The name of this mode as people read it.
    pub open spec fn label(self) -> Seq<char> {
        match self {
            ScanModeType::LongRange => "LongRange"@,
            ScanModeType::Legacy => "Legacy"@,
        }
    }

    /// Number passed to the tool for this mode.
    pub fn to_u8(self) -> (code: u8)
        ensures
            code == self.code(),
    {
        match self {
            ScanModeType::LongRange => 0,
            ScanModeType::Legacy => 1,
        }
    }

    /// The mode a number stands for, if any.
    pub fn from_u8(value: u8) -> (mode: Option<ScanModeType>)
        ensures
            mode == ScanModeType::from_code(value),
    {
        match value {
            0 => Some(ScanModeType::LongRange),
            1 => Some(ScanModeType::Legacy),
            _ => None,
        }
    }

    /// Human-readable name of the mode.
    pub fn name(&self) -> (name: &'static str)
        ensures
            name@ == self.label(),
    {
        match self {
            ScanModeType::LongRange => "LongRange",
            ScanModeType::Legacy => "Legacy",
        }
    }
}

/// A mode is found again from its number, and a number that stands for a
/// mode is that mode's number.
pub proof fn law_scan_mode_code_round_trip(mode: ScanModeType, value: u8)
    ensures
        ScanModeType::from_code(mode.code()) == Some(mode),
        ScanModeType::from_code(value) == Some(mode) ==> mode.code() == value,
{
}

} // verus!
