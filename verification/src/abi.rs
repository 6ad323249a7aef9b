//! The interface between the host and a loaded driver, in plain values.
//!
//! A pointer that may be null is an `Option` here, and the bytes behind a
//! pointer are a `Vec`.

use vstd::prelude::*;

verus! {

/// Major version of the interface. Incremented on breaking changes.
pub const ABI_VERSION_MAJOR: u32 = 1;

/// Minor version of the interface. Incremented on backwards-compatible
/// additions.
pub const ABI_VERSION_MINOR: u32 = 0;

/// Combined version: major * 1000 + minor.
pub const ABI_VERSION: u32 = ABI_VERSION_MAJOR * 1000 + ABI_VERSION_MINOR;

/// Minimum driver build number accepted by the host.
pub const MIN_DRIVER_BUILD_NUMBER: u64 = 0;

/// The well-known symbol name that a driver shared library must export.
pub const ENTRY_SYMBOL: &'static str = "scylla_driver_init";

/// Error codes returned by driver operations.
#[derive(Debug, Clone, Copy, PartialEq, Eq, Structural)]
pub enum ErrorCode {
    Success,
    InvalidConfig,
    ConnectionFailed,
    QueryFailed,
    Timeout,
    InternalError,
    InvalidArgument,
}

impl ErrorCode {
    /// The number that stands for the code on the wire between driver and host.
    pub open spec fn number(self) -> u32 {
        match self {
            ErrorCode::Success => 0,
            ErrorCode::InvalidConfig => 1,
            ErrorCode::ConnectionFailed => 2,
            ErrorCode::QueryFailed => 3,
            ErrorCode::Timeout => 4,
            ErrorCode::InternalError => 5,
            ErrorCode::InvalidArgument => 6,
        }
    }

    /// The number of the code.
    pub fn code(self) -> (code: u32)
        ensures
            code == self.number(),
    {
        match self {
            ErrorCode::Success => 0,
            ErrorCode::InvalidConfig => 1,
            ErrorCode::ConnectionFailed => 2,
            ErrorCode::QueryFailed => 3,
            ErrorCode::Timeout => 4,
            ErrorCode::InternalError => 5,
            ErrorCode::InvalidArgument => 6,
        }
    }

    /// The codes are numbered from 0 for success on, in this order.
    pub proof fn law_numbers()
        ensures
            ErrorCode::Success.number() == 0,
            ErrorCode::InvalidConfig.number() == 1,
            ErrorCode::ConnectionFailed.number() == 2,
            ErrorCode::QueryFailed.number() == 3,
            ErrorCode::Timeout.number() == 4,
            ErrorCode::InternalError.number() == 5,
            ErrorCode::InvalidArgument.number() == 6,
    {
    }

    /// Two codes with the same number are the same code.
    pub proof fn law_numbers_are_distinct(a: ErrorCode, b: ErrorCode)
        requires
            a.number() == b.number(),
        ensures
            a == b,
    {
    }
}

/// Opaque handle to a driver session. The caller must not inspect its contents.
pub struct OpaqueSession {
    _opaque: [u8; 0],
}

/// Opaque context threaded through the callbacks of asynchronous operations.
pub struct CallbackCtx {
    _opaque: [u8; 0],
}

/// A byte buffer that holds the serialized configuration of a session.
pub struct SessionConfigBytes {
    pub data: Option<Vec<u8>>,
    pub len: usize,
}

/// `len` is the length of the buffer, and of no buffer the length is zero.
pub open spec fn buffer_len_matches(buffer: Option<Vec<u8>>, len: usize) -> bool {
    match buffer {
        Some(bytes) => len == bytes@.len(),
        None => len == 0,
    }
}

impl SessionConfigBytes {
    pub open spec fn well_formed(self) -> bool {
        buffer_len_matches(self.data, self.len)
    }
}

/// Result of a driver operation, handed to the callback on completion.
pub struct QueryResult {
    pub error_code: ErrorCode,
    pub data: Option<Vec<u8>>,
    pub data_len: usize,
    pub error_message: Option<Vec<u8>>,
    pub error_message_len: usize,
}

impl QueryResult {
    pub open spec fn well_formed(self) -> bool {
        &&& buffer_len_matches(self.data, self.data_len)
        &&& buffer_len_matches(self.error_message, self.error_message_len)
    }
}

/// The numbers at the head of the function table that a loaded driver exposes to
/// the host.
#[derive(Debug, Clone, Copy, PartialEq, Eq, Structural)]
pub struct DriverVtable {
    /// Must equal [`ABI_VERSION`] (or a compatible value).
    pub abi_version: u32,
    /// Size of the table in bytes, for forward-compatibility checks.
    pub vtable_size: usize,
    /// Monotonically increasing build number of the driver.
    pub build_number: u64,
}

} // verus!
