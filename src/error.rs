use vstd::prelude::*;

verus! {

/// Kind of failure reported by this library or by the native runtime.
#[derive(Clone, Copy, Debug, PartialEq, Eq, Structural, Hash)]
pub enum ErrorCode {
    Unknown,
    Internal,
    NotFound,
    InvalidArg,
    Unavailable,
    Unsupported,
    AlreadyExists,
    Cancelled,
}

/// Number of distinct native error codes.
pub const NATIVE_ERROR_CODES: u32 = 8;

/// The error code that a native status code stands for, if any.
pub open spec fn code_of_native(raw: u32) -> Option<ErrorCode> {
    if raw == 0 {
        Some(ErrorCode::Unknown)
    } else if raw == 1 {
        Some(ErrorCode::Internal)
    } else if raw == 2 {
        Some(ErrorCode::NotFound)
    } else if raw == 3 {
        Some(ErrorCode::InvalidArg)
    } else if raw == 4 {
        Some(ErrorCode::Unavailable)
    } else if raw == 5 {
        Some(ErrorCode::Unsupported)
    } else if raw == 6 {
        Some(ErrorCode::AlreadyExists)
    } else if raw == 7 {
        Some(ErrorCode::Cancelled)
    } else {
        None
    }
}

impl ErrorCode {
    /// Reads a native status code; codes the runtime does not define read as `Unknown`.
    pub fn from_native(raw: u32) -> (r: ErrorCode)
        ensures
            r == match code_of_native(raw) {
                Some(c) => c,
                None => ErrorCode::Unknown,
            },
    {
        match raw {
            1 => ErrorCode::Internal,
            2 => ErrorCode::NotFound,
            3 => ErrorCode::InvalidArg,
            4 => ErrorCode::Unavailable,
            5 => ErrorCode::Unsupported,
            6 => ErrorCode::AlreadyExists,
            7 => ErrorCode::Cancelled,
            _ => ErrorCode::Unknown,
        }
    }

    /// The native status code of this error kind.
    pub fn to_native(self) -> (r: u32)
        ensures
            r < NATIVE_ERROR_CODES,
            code_of_native(r) == Some(self),
    {
        match self {
            ErrorCode::Unknown => 0,
            ErrorCode::Internal => 1,
            ErrorCode::NotFound => 2,
            ErrorCode::InvalidArg => 3,
            ErrorCode::Unavailable => 4,
            ErrorCode::Unsupported => 5,
            ErrorCode::AlreadyExists => 6,
            ErrorCode::Cancelled => 7,
        }
    }
}

/// A failure: its kind and a human-readable diagnostic.
#[derive(Clone, Debug)]
pub struct Error {
    pub code: ErrorCode,
    pub message: String,
}

impl Error {
    pub fn new(code: ErrorCode, message: &str) -> (r: Error)
        ensures
            r.code == code,
            r.message@ == message@,
    {
        Error { code, message: message.to_owned() }
    }

    pub fn code(&self) -> (r: ErrorCode)
        ensures
            r == self.code,
    {
        self.code
    }

    pub fn message(&self) -> (r: &str)
        ensures
            r@ == self.message@,
    {
        self.message.as_str()
    }
}

} // verus!
