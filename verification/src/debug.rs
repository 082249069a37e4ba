//! Reclassification of driver diagnostic messages.
//!
//! The driver invokes a diagnostic callback with a severity bitmask; the
//! callback maps it onto the host application's log levels and always
//! answers that the offending call must not be aborted — diagnostics are
//! observational, never flow-control.

use vstd::prelude::*;

verus! {

/// Driver severity bit for verbose chatter.
pub const SEVERITY_VERBOSE: u32 = 0x1;

/// Driver severity bit for informational messages.
pub const SEVERITY_INFO: u32 = 0x10;

/// Driver severity bit for warnings.
pub const SEVERITY_WARNING: u32 = 0x100;

/// Driver severity bit for errors.
pub const SEVERITY_ERROR: u32 = 0x1000;

/// Driver category bit for general messages.
pub const MESSAGE_TYPE_GENERAL: u32 = 0x1;

/// Driver category bit for validation findings.
pub const MESSAGE_TYPE_VALIDATION: u32 = 0x2;

/// Driver category bit for performance findings.
pub const MESSAGE_TYPE_PERFORMANCE: u32 = 0x4;

/// The "do not abort the offending call" answer to the driver.
pub const DO_NOT_ABORT: u32 = 0;

/// The diagnostic callback's decision for one driver message: the host
/// log level it is relayed at, the category bitmask always included with
/// it, and the answer returned to the driver.
pub struct DebugRelay {
    pub level: LogLevel,
    pub categories: u32,
    pub answer: u32,
}

/// Host log levels, in descending order of severity.
#[derive(Clone, Copy, Debug, PartialEq, Eq, Structural)]
pub enum LogLevel {
    Error,
    Warn,
    Debug,
    Trace,
}

/// Host log level for a driver severity bitmask.
pub open spec fn spec_log_level(severity: u32) -> LogLevel {
    if severity >= SEVERITY_ERROR {
        LogLevel::Error
    } else if severity >= SEVERITY_WARNING {
        LogLevel::Warn
    } else if severity >= SEVERITY_INFO {
        LogLevel::Debug
    } else {
        LogLevel::Trace
    }
}

/// Map a driver severity onto the host log level: errors to `Error`,
/// warnings to `Warn`, informational messages to `Debug`, the rest to
/// `Trace`.
pub fn classify_severity(severity: u32) -> (r: LogLevel)
    ensures
        r == spec_log_level(severity),
{
    if severity >= SEVERITY_ERROR {
        LogLevel::Error
    } else if severity >= SEVERITY_WARNING {
        LogLevel::Warn
    } else if severity >= SEVERITY_INFO {
        LogLevel::Debug
    } else {
        LogLevel::Trace
    }
}

} // verus!
