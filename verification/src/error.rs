//! Error taxonomy of the library, together with the driver status codes and
//! the per-call success-sentinel check.
//!
//! Driver calls report an integer status. Most calls use `0` as the success
//! value, a few use `1`; [`ReturnCode`] carries the status together with the
//! sentinel the call uses, so no caller can mix the two conventions up.

use vstd::prelude::*;

verus! {

/// The operation in whose service a driver call was made; names the failing
/// step in every error.
#[derive(Clone, Copy, Debug, PartialEq, Eq, Structural)]
pub enum Action {
    Connect,
    ReadTargetInfo,
    ReadMemory,
    WriteMemory,
    StartFus,
    ReadFusInfo,
    Reset,
    DownloadFile,
    MassErase,
    SaveMemory,
    EnableReadOutProtection,
    DisableReadOutProtection,
    CheckConnection,
    UpgradeWirelessStack,
    DeleteWirelessStack,
    StartWirelessStack,
    ListConnectedProbes,
    WriteCoreRegister,
    ReadCoreRegister,
}

/// Error codes returned by the programming driver. Any value outside the
/// documented range is kept verbatim in `Unknown`.
#[derive(Clone, Copy, Debug, PartialEq, Eq, Structural)]
pub enum ErrorCode {
    Unknown(i32),
    DeviceNotConnected,
    NoDeviceFound,
    ConnectionError,
    FileNotFound,
    UnsupportedOperation,
    UnsupportedInterface,
    InsufficientMemory,
    UnknownParameters,
    MemoryReadError,
    MemoryWriteError,
    MemoryEraseError,
    UnsupportedFileFormat,
    RefreshRequired,
    SecurityError,
    FrequencyError,
    RdpEnabledError,
    UnknownError,
}

/// The error code that a raw driver status denotes.
pub open spec fn spec_error_code(value: int) -> ErrorCode {
    if value == -1 {
        ErrorCode::DeviceNotConnected
    } else if value == -2 {
        ErrorCode::NoDeviceFound
    } else if value == -3 {
        ErrorCode::ConnectionError
    } else if value == -4 {
        ErrorCode::FileNotFound
    } else if value == -5 {
        ErrorCode::UnsupportedOperation
    } else if value == -6 {
        ErrorCode::UnsupportedInterface
    } else if value == -7 {
        ErrorCode::InsufficientMemory
    } else if value == -8 {
        ErrorCode::UnknownParameters
    } else if value == -9 {
        ErrorCode::MemoryReadError
    } else if value == -10 {
        ErrorCode::MemoryWriteError
    } else if value == -11 {
        ErrorCode::MemoryEraseError
    } else if value == -12 {
        ErrorCode::UnsupportedFileFormat
    } else if value == -13 {
        ErrorCode::RefreshRequired
    } else if value == -14 {
        ErrorCode::SecurityError
    } else if value == -15 {
        ErrorCode::FrequencyError
    } else if value == -16 {
        ErrorCode::RdpEnabledError
    } else if value == -17 {
        ErrorCode::UnknownError
    } else {
        ErrorCode::Unknown(value as i32)
    }
}

impl ErrorCode {
    /// Map a raw driver status to its error code.
    pub fn from_raw(value: i32) -> (r: ErrorCode)
        ensures
            r == spec_error_code(value as int),
    {
        if value == -1 {
            ErrorCode::DeviceNotConnected
        } else if value == -2 {
            ErrorCode::NoDeviceFound
        } else if value == -3 {
            ErrorCode::ConnectionError
        } else if value == -4 {
            ErrorCode::FileNotFound
        } else if value == -5 {
            ErrorCode::UnsupportedOperation
        } else if value == -6 {
            ErrorCode::UnsupportedInterface
        } else if value == -7 {
            ErrorCode::InsufficientMemory
        } else if value == -8 {
            ErrorCode::UnknownParameters
        } else if value == -9 {
            ErrorCode::MemoryReadError
        } else if value == -10 {
            ErrorCode::MemoryWriteError
        } else if value == -11 {
            ErrorCode::MemoryEraseError
        } else if value == -12 {
            ErrorCode::UnsupportedFileFormat
        } else if value == -13 {
            ErrorCode::RefreshRequired
        } else if value == -14 {
            ErrorCode::SecurityError
        } else if value == -15 {
            ErrorCode::FrequencyError
        } else if value == -16 {
            ErrorCode::RdpEnabledError
        } else if value == -17 {
            ErrorCode::UnknownError
        } else {
            ErrorCode::Unknown(value)
        }
    }
}

/// How a driver call's output, rather than its status, was malformed.
#[derive(Clone, Copy, Debug, PartialEq, Eq, Structural)]
pub enum UnexpectedOutput {
    /// A null or absent result where data was owed.
    Null,
    /// Returned bytes cannot be reinterpreted as the requested values.
    SliceConversion,
    /// Returned byte count differs from the requested byte count.
    SliceLength,
    /// An on-target information table failed its validity check.
    InvalidKeyword,
}

/// Why a value could not be converted between two representations.
#[derive(Clone, Copy, Debug, PartialEq, Eq, Structural)]
pub enum TypeConversionError {
    Utf8Error,
    Utf16Error,
    NullError,
    BytemuckError,
    VersionError,
}

/// Why a probe could not be handed out for a connection.
#[derive(Clone, Copy, Debug, PartialEq, Eq, Structural)]
pub enum ConnectionFailureKind {
    /// The requested serial is not in the registry.
    ProbeNotFound,
    /// The requested probe is currently lent to another session.
    ProbeAlreadyLent,
    /// The driver's connect call itself failed.
    Link(ErrorCode),
}

/// The closed error taxonomy of the library.
#[derive(Debug)]
pub enum CubeProgrammerError {
    /// A probe could not be lent, or the link to the target failed.
    ConnectionFailure(ConnectionFailureKind),
    /// A driver command returned a status other than its success sentinel.
    CommandFailure { action: Action, return_code: ErrorCode },
    /// The operation is invalid for the detected target.
    Unsupported { action: Action, message: String },
    /// Data coming back from the target is malformed.
    DataIntegrity { action: Action, unexpected_output: UnexpectedOutput },
    /// An address or size computation exceeds the representable range.
    ResourceExhaustion { action: Action },
    /// An argument the caller supplied is invalid for the operation.
    Parameter { action: Action, message: String },
    /// A value could not be converted between representations.
    TypeConversion { message: String, source: TypeConversionError },
    /// A filesystem failure, reported by the surrounding application.
    Io { message: String },
    /// The vendor driver library could not be loaded, reported by the
    /// surrounding application.
    DriverLoadFailure { message: String },
}

/// Whether `e` is the command failure that a driver status produces for an
/// action.
pub open spec fn is_command_failure(e: CubeProgrammerError, action: Action, status: int) -> bool {
    e matches CubeProgrammerError::CommandFailure { action: a, return_code: c } && a == action && c
        == spec_error_code(status)
}

/// A raw driver status paired with the success sentinel of the call that
/// produced it.
#[derive(Clone, Copy, Debug, PartialEq, Eq, Structural)]
pub struct ReturnCode {
    pub code: i32,
    pub success: i32,
}

impl ReturnCode {
    /// Wrap the status of a call whose success sentinel is `0`.
    pub fn expect_zero(code: i32) -> (r: ReturnCode)
        ensures
            r.code == code,
            r.success == 0,
    {
        ReturnCode { code, success: 0 }
    }

    /// Wrap the status of a call whose success sentinel is `1`.
    pub fn expect_one(code: i32) -> (r: ReturnCode)
        ensures
            r.code == code,
            r.success == 1,
    {
        ReturnCode { code, success: 1 }
    }

    /// Succeeds exactly when the status equals the call's success sentinel;
    /// any other status surfaces verbatim as a command failure naming the
    /// action.
    pub fn check(&self, action: Action) -> (r: Result<(), CubeProgrammerError>)
        ensures
            r is Ok <==> self.code == self.success,
            self.code != self.success ==> (r matches Err(
                CubeProgrammerError::CommandFailure { action: a, return_code: c },
            ) && a == action && c == spec_error_code(self.code as int)),
    {
        if self.code == self.success {
            Ok(())
        } else {
            Err(CubeProgrammerError::CommandFailure {
                action,
                return_code: ErrorCode::from_raw(self.code),
            })
        }
    }
}

} // verus!
