//! Error taxonomy: the closed set of error kinds that every non-success
//! driver status code maps onto, one-to-one.

use vstd::prelude::*;

verus! {

/// Status code a driver call returns on success.
pub const STATUS_OK: i32 = 0;

pub const STATUS_INVALID_INDEX: i32 = 1;

pub const STATUS_INVALID_ID: i32 = 2;

pub const STATUS_INVALID_CONFIG: i32 = 3;

pub const STATUS_INVALID_ARGU: i32 = 4;

pub const STATUS_NOT_OPENED: i32 = 5;

pub const STATUS_DEVICE_NOT_FOUND: i32 = 6;

pub const STATUS_OUT_OF_LIMIT: i32 = 7;

pub const STATUS_EXPOSURE_FAILED: i32 = 8;

pub const STATUS_TIMEOUT: i32 = 9;

pub const STATUS_SIZE_LESS: i32 = 10;

pub const STATUS_EXPOSING: i32 = 11;

pub const STATUS_POINTER: i32 = 12;

pub const STATUS_CONF_CANNOT_WRITE: i32 = 13;

pub const STATUS_CONF_CANNOT_READ: i32 = 14;

pub const STATUS_ACCESS_DENIED: i32 = 15;

pub const STATUS_OPERATION_FAILED: i32 = 16;

pub const STATUS_MEMORY_FAILED: i32 = 17;

/// Typed error kinds, one per non-success driver status code.
#[derive(Debug, Copy, Clone, Hash, PartialEq, Eq, Structural)]
pub enum Error {
    /// invalid index, means the index is < 0 or >= the count (camera or config)
    InvalidIndex,
    InvalidCameraId,
    InvalidConfig,
    InvalidArgument,
    NotOpened,
    DeviceNotFound,
    OutOfBounds,
    ExposureFailed,
    Timeout,
    BufferSizeTooSmall,
    /// camera is exposing. must stop exposure first
    Exposing,
    NullPointer,
    ConfigNotWritable,
    ConfigNotReadable,
    AccessDenied,
    /// maybe the camera disconnected suddenly
    OperationFailed,
    MemoryAllocationFailed,
}

/// True of the non-success status codes.
pub open spec fn is_error_status(s: i32) -> bool {
    STATUS_INVALID_INDEX <= s <= STATUS_MEMORY_FAILED
}

/// The error kind a non-success status code maps onto.
pub open spec fn status_error(s: i32) -> Error {
    if s == STATUS_INVALID_INDEX {
        Error::InvalidIndex
    } else if s == STATUS_INVALID_ID {
        Error::InvalidCameraId
    } else if s == STATUS_INVALID_CONFIG {
        Error::InvalidConfig
    } else if s == STATUS_INVALID_ARGU {
        Error::InvalidArgument
    } else if s == STATUS_NOT_OPENED {
        Error::NotOpened
    } else if s == STATUS_DEVICE_NOT_FOUND {
        Error::DeviceNotFound
    } else if s == STATUS_OUT_OF_LIMIT {
        Error::OutOfBounds
    } else if s == STATUS_EXPOSURE_FAILED {
        Error::ExposureFailed
    } else if s == STATUS_TIMEOUT {
        Error::Timeout
    } else if s == STATUS_SIZE_LESS {
        Error::BufferSizeTooSmall
    } else if s == STATUS_EXPOSING {
        Error::Exposing
    } else if s == STATUS_POINTER {
        Error::NullPointer
    } else if s == STATUS_CONF_CANNOT_WRITE {
        Error::ConfigNotWritable
    } else if s == STATUS_CONF_CANNOT_READ {
        Error::ConfigNotReadable
    } else if s == STATUS_ACCESS_DENIED {
        Error::AccessDenied
    } else if s == STATUS_OPERATION_FAILED {
        Error::OperationFailed
    } else {
        Error::MemoryAllocationFailed
    }
}

/// The mapping of non-success status codes onto error kinds is
/// one-to-one: distinct codes never share a kind.
pub proof fn lemma_status_error_one_to_one(a: i32, b: i32)
    requires
        is_error_status(a),
        is_error_status(b),
        a != b,
    ensures
        status_error(a) != status_error(b),
{
}

impl Error {
    /// Maps a non-success driver status code onto its error kind.
    ///
    /// The success code must never reach this mapping: a caller that maps
    /// it has a logic error, so the precondition excludes it.
    pub fn from_status(s: i32) -> (e: Error)
        requires
            is_error_status(s),
        ensures
            e == status_error(s),
    {
        if s == STATUS_INVALID_INDEX {
            Error::InvalidIndex
        } else if s == STATUS_INVALID_ID {
            Error::InvalidCameraId
        } else if s == STATUS_INVALID_CONFIG {
            Error::InvalidConfig
        } else if s == STATUS_INVALID_ARGU {
            Error::InvalidArgument
        } else if s == STATUS_NOT_OPENED {
            Error::NotOpened
        } else if s == STATUS_DEVICE_NOT_FOUND {
            Error::DeviceNotFound
        } else if s == STATUS_OUT_OF_LIMIT {
            Error::OutOfBounds
        } else if s == STATUS_EXPOSURE_FAILED {
            Error::ExposureFailed
        } else if s == STATUS_TIMEOUT {
            Error::Timeout
        } else if s == STATUS_SIZE_LESS {
            Error::BufferSizeTooSmall
        } else if s == STATUS_EXPOSING {
            Error::Exposing
        } else if s == STATUS_POINTER {
            Error::NullPointer
        } else if s == STATUS_CONF_CANNOT_WRITE {
            Error::ConfigNotWritable
        } else if s == STATUS_CONF_CANNOT_READ {
            Error::ConfigNotReadable
        } else if s == STATUS_ACCESS_DENIED {
            Error::AccessDenied
        } else if s == STATUS_OPERATION_FAILED {
            Error::OperationFailed
        } else {
            Error::MemoryAllocationFailed
        }
    }

    /// What a human-readable report of this error kind says.
    pub open spec fn message_spec(&self) -> Seq<char> {
        match self {
            Error::InvalidIndex => "invalid index"@,
            Error::InvalidCameraId => "invalid camera id"@,
            Error::InvalidConfig => "invalid config"@,
            Error::InvalidArgument => "invalid argument"@,
            Error::NotOpened => "camera is not opened"@,
            Error::DeviceNotFound => "device not found"@,
            Error::OutOfBounds => "out of bounds"@,
            Error::ExposureFailed => "exposure failed"@,
            Error::Timeout => "timeout"@,
            Error::BufferSizeTooSmall => "buffer size too small"@,
            Error::Exposing => "camera is exposing"@,
            Error::NullPointer => "null pointer"@,
            Error::ConfigNotWritable => "config is not writable"@,
            Error::ConfigNotReadable => "config is not readable"@,
            Error::AccessDenied => "access denied"@,
            Error::OperationFailed => "operation failed"@,
            Error::MemoryAllocationFailed => "memory allocation failed"@,
        }
    }

    /// A human-readable description of the error kind.
    pub fn message(&self) -> (r: String)
        ensures
            r@ == self.message_spec(),
    {
        match self {
            Error::InvalidIndex => "invalid index".to_owned(),
            Error::InvalidCameraId => "invalid camera id".to_owned(),
            Error::InvalidConfig => "invalid config".to_owned(),
            Error::InvalidArgument => "invalid argument".to_owned(),
            Error::NotOpened => "camera is not opened".to_owned(),
            Error::DeviceNotFound => "device not found".to_owned(),
            Error::OutOfBounds => "out of bounds".to_owned(),
            Error::ExposureFailed => "exposure failed".to_owned(),
            Error::Timeout => "timeout".to_owned(),
            Error::BufferSizeTooSmall => "buffer size too small".to_owned(),
            Error::Exposing => "camera is exposing".to_owned(),
            Error::NullPointer => "null pointer".to_owned(),
            Error::ConfigNotWritable => "config is not writable".to_owned(),
            Error::ConfigNotReadable => "config is not readable".to_owned(),
            Error::AccessDenied => "access denied".to_owned(),
            Error::OperationFailed => "operation failed".to_owned(),
            Error::MemoryAllocationFailed => "memory allocation failed".to_owned(),
        }
    }
}

} // verus!
