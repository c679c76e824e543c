use vstd::prelude::*;

verus! {

/// Raw value of `VK_DEBUG_UTILS_MESSAGE_SEVERITY_VERBOSE_BIT_EXT`.
pub const SEVERITY_VERBOSE: u32 = 0x1;

/// Raw value of `VK_DEBUG_UTILS_MESSAGE_SEVERITY_INFO_BIT_EXT`.
pub const SEVERITY_INFO: u32 = 0x10;

/// Raw value of `VK_DEBUG_UTILS_MESSAGE_SEVERITY_WARNING_BIT_EXT`.
pub const SEVERITY_WARNING: u32 = 0x100;

/// Raw value of `VK_DEBUG_UTILS_MESSAGE_SEVERITY_ERROR_BIT_EXT`.
pub const SEVERITY_ERROR: u32 = 0x1000;

/// Raw value of `VK_DEBUG_UTILS_MESSAGE_TYPE_GENERAL_BIT_EXT`.
pub const MESSAGE_TYPE_GENERAL: u32 = 0x1;

/// Raw value of `VK_DEBUG_UTILS_MESSAGE_TYPE_VALIDATION_BIT_EXT`.
pub const MESSAGE_TYPE_VALIDATION: u32 = 0x2;

/// Raw value of `VK_DEBUG_UTILS_MESSAGE_TYPE_PERFORMANCE_BIT_EXT`.
pub const MESSAGE_TYPE_PERFORMANCE: u32 = 0x4;

/// The severities the debug messenger subscribes to: all four.
pub const DEBUG_SEVERITY_MASK: u32 = SEVERITY_VERBOSE | SEVERITY_INFO | SEVERITY_WARNING
    | SEVERITY_ERROR;

/// The message categories the debug messenger subscribes to: all three.
pub const DEBUG_MESSAGE_TYPE_MASK: u32 = MESSAGE_TYPE_GENERAL | MESSAGE_TYPE_VALIDATION
    | MESSAGE_TYPE_PERFORMANCE;

/// The logging level a backend diagnostic is forwarded at.
#[derive(Clone, Copy, Debug, PartialEq, Eq, Structural)]
pub enum LogLevel {
    Trace,
    Info,
    Warn,
    Error,
}

pub open spec fn spec_log_level_for(severity: u32) -> Option<LogLevel> {
    if severity == SEVERITY_VERBOSE {
        Some(LogLevel::Trace)
    } else if severity == SEVERITY_INFO {
        Some(LogLevel::Info)
    } else if severity == SEVERITY_WARNING {
        Some(LogLevel::Warn)
    } else if severity == SEVERITY_ERROR {
        Some(LogLevel::Error)
    } else {
        None
    }
}

/// Maps a diagnostic's severity one to one onto a logging level; `None` for a severity the
/// backend should never send.
pub fn log_level_for(severity: u32) -> (r: Option<LogLevel>)
    ensures
        r == spec_log_level_for(severity),
{
    if severity == SEVERITY_VERBOSE {
        Some(LogLevel::Trace)
    } else if severity == SEVERITY_INFO {
        Some(LogLevel::Info)
    } else if severity == SEVERITY_WARNING {
        Some(LogLevel::Warn)
    } else if severity == SEVERITY_ERROR {
        Some(LogLevel::Error)
    } else {
        None
    }
}

} // verus!
