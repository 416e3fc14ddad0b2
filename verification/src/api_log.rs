//! The driver's logging interface as plain values: message classes, the
//! verbosity levels, the severity each message class maps to, and the
//! clamping that progress reports need before they are shown.

use vstd::prelude::*;

verus! {

/// The class of a driver log message. Any value outside the documented range
/// is kept verbatim in `Unknown`.
#[derive(Clone, Copy, Debug, PartialEq, Eq, Structural)]
pub enum LogMessageType {
    Normal,
    Info,
    GreenInfo,
    Title,
    Warning,
    Error,
    Verbosity1,
    Verbosity2,
    Verbosity3,
    GreenInfoNoPopup,
    WarningNoPopup,
    ErrorNoPopup,
    Unknown(i32),
}

/// The message class a raw driver value denotes.
pub open spec fn spec_log_message_type(value: int) -> LogMessageType {
    if value == 0 {
        LogMessageType::Normal
    } else if value == 1 {
        LogMessageType::Info
    } else if value == 2 {
        LogMessageType::GreenInfo
    } else if value == 3 {
        LogMessageType::Title
    } else if value == 4 {
        LogMessageType::Warning
    } else if value == 5 {
        LogMessageType::Error
    } else if value == 6 {
        LogMessageType::Verbosity1
    } else if value == 7 {
        LogMessageType::Verbosity2
    } else if value == 8 {
        LogMessageType::Verbosity3
    } else if value == 9 {
        LogMessageType::GreenInfoNoPopup
    } else if value == 10 {
        LogMessageType::WarningNoPopup
    } else if value == 11 {
        LogMessageType::ErrorNoPopup
    } else {
        LogMessageType::Unknown(value as i32)
    }
}

impl LogMessageType {
    /// Map a raw driver value to its message class.
    pub fn from_raw(value: i32) -> (r: LogMessageType)
        ensures
            r == spec_log_message_type(value as int),
    {
        if value == 0 {
            LogMessageType::Normal
        } else if value == 1 {
            LogMessageType::Info
        } else if value == 2 {
            LogMessageType::GreenInfo
        } else if value == 3 {
            LogMessageType::Title
        } else if value == 4 {
            LogMessageType::Warning
        } else if value == 5 {
            LogMessageType::Error
        } else if value == 6 {
            LogMessageType::Verbosity1
        } else if value == 7 {
            LogMessageType::Verbosity2
        } else if value == 8 {
            LogMessageType::Verbosity3
        } else if value == 9 {
            LogMessageType::GreenInfoNoPopup
        } else if value == 10 {
            LogMessageType::WarningNoPopup
        } else if value == 11 {
            LogMessageType::ErrorNoPopup
        } else {
            LogMessageType::Unknown(value)
        }
    }
}

/// A verbosity level of the driver. Any value outside the documented range is
/// kept verbatim in `Unknown`.
#[derive(Clone, Copy, Debug, PartialEq, Eq, Structural)]
pub enum Verbosity {
    Level0,
    Level1,
    Level2,
    Level3,
    Unknown(i32),
}

impl Verbosity {
    /// The raw driver encoding of the verbosity level.
    pub fn raw_value(&self) -> (r: i32)
        ensures
            *self == Verbosity::Level0 ==> r == 0,
            *self == Verbosity::Level1 ==> r == 1,
            *self == Verbosity::Level2 ==> r == 2,
            *self == Verbosity::Level3 ==> r == 3,
            forall|v: i32| *self == Verbosity::Unknown(v) ==> r == v,
    {
        match self {
            Verbosity::Level0 => 0,
            Verbosity::Level1 => 1,
            Verbosity::Level2 => 2,
            Verbosity::Level3 => 3,
            Verbosity::Unknown(v) => *v,
        }
    }

    /// The verbosity level a raw driver value denotes.
    pub fn from_raw(value: i32) -> (r: Verbosity)
        ensures
            value == 0 ==> r == Verbosity::Level0,
            value == 1 ==> r == Verbosity::Level1,
            value == 2 ==> r == Verbosity::Level2,
            value == 3 ==> r == Verbosity::Level3,
            value < 0 || value > 3 ==> r == Verbosity::Unknown(value),
    {
        if value == 0 {
            Verbosity::Level0
        } else if value == 1 {
            Verbosity::Level1
        } else if value == 2 {
            Verbosity::Level2
        } else if value == 3 {
            Verbosity::Level3
        } else {
            Verbosity::Unknown(value)
        }
    }
}

/// The severity a forwarded log line carries.
#[derive(Clone, Copy, Debug, PartialEq, Eq, Structural)]
pub enum LogLevel {
    Trace,
    Debug,
    Info,
    Warn,
    Error,
}

/// The severity each driver message class maps to.
pub open spec fn spec_log_level_for(t: LogMessageType) -> LogLevel {
    match t {
        LogMessageType::Verbosity3 => LogLevel::Trace,
        LogMessageType::Verbosity2 => LogLevel::Debug,
        LogMessageType::Verbosity1 => LogLevel::Info,
        LogMessageType::Normal => LogLevel::Info,
        LogMessageType::Info => LogLevel::Info,
        LogMessageType::GreenInfo => LogLevel::Info,
        LogMessageType::Title => LogLevel::Info,
        LogMessageType::Warning => LogLevel::Warn,
        LogMessageType::Error => LogLevel::Error,
        LogMessageType::GreenInfoNoPopup => LogLevel::Info,
        LogMessageType::WarningNoPopup => LogLevel::Warn,
        LogMessageType::ErrorNoPopup => LogLevel::Error,
        LogMessageType::Unknown(_) => LogLevel::Error,
    }
}

/// The severity a driver message class maps to.
pub fn log_level_for(t: LogMessageType) -> (r: LogLevel)
    ensures
        r == spec_log_level_for(t),
{
    match t {
        LogMessageType::Verbosity3 => LogLevel::Trace,
        LogMessageType::Verbosity2 => LogLevel::Debug,
        LogMessageType::Verbosity1 => LogLevel::Info,
        LogMessageType::Normal => LogLevel::Info,
        LogMessageType::Info => LogLevel::Info,
        LogMessageType::GreenInfo => LogLevel::Info,
        LogMessageType::Title => LogLevel::Info,
        LogMessageType::Warning => LogLevel::Warn,
        LogMessageType::Error => LogLevel::Error,
        LogMessageType::GreenInfoNoPopup => LogLevel::Info,
        LogMessageType::WarningNoPopup => LogLevel::Warn,
        LogMessageType::ErrorNoPopup => LogLevel::Error,
        LogMessageType::Unknown(_) => LogLevel::Error,
    }
}

/// What a raw progress report is shown as: nothing when the total is zero or
/// either number is negative; otherwise the pair, with the current count
/// clamped to the total.
pub open spec fn spec_progress_update(current: int, total: int) -> Option<(u64, u64)> {
    if total == 0 {
        None
    } else {
        let clamped = if current > total {
            total
        } else {
            current
        };
        if clamped < 0 || total < 0 {
            None
        } else {
            Some((clamped as u64, total as u64))
        }
    }
}

/// Clamp and filter a raw progress report before it is shown.
pub fn progress_update(current: i32, total: i32) -> (r: Option<(u64, u64)>)
    ensures
        r == spec_progress_update(current as int, total as int),
{
    if total == 0 {
        return None;
    }
    let clamped = if current > total {
        total
    } else {
        current
    };
    if clamped < 0 || total < 0 {
        None
    } else {
        Some((clamped as u64, total as u64))
    }
}

} // verus!
