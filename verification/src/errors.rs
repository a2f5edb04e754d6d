//! The closed error taxonomy of the bridge.
//!
//! Every operation the guest can invoke surfaces exactly one `LibusbError`.
//! Raw native result codes never cross the bridge boundary: they are mapped
//! here, and unknown codes collapse to `Other`.

use vstd::prelude::*;

verus! {

/// One failure kind per native error class.
#[derive(Clone, Copy, Debug, PartialEq, Eq, Structural)]
pub enum LibusbError {
    Io,
    InvalidParam,
    Access,
    NoDevice,
    NotFound,
    Busy,
    Timeout,
    Overflow,
    Pipe,
    Interrupted,
    NoMem,
    NotSupported,
    Other,
}

/// What `LibusbError::from_raw` returns for each raw native code.
pub open spec fn spec_from_raw(value: i32) -> LibusbError {
    if value == -1 {
        LibusbError::Io
    } else if value == -2 {
        LibusbError::InvalidParam
    } else if value == -3 {
        LibusbError::Access
    } else if value == -4 {
        LibusbError::NoDevice
    } else if value == -5 {
        LibusbError::NotFound
    } else if value == -6 {
        LibusbError::Busy
    } else if value == -7 {
        LibusbError::Timeout
    } else if value == -8 {
        LibusbError::Overflow
    } else if value == -9 {
        LibusbError::Pipe
    } else if value == -10 {
        LibusbError::Interrupted
    } else if value == -11 {
        LibusbError::NoMem
    } else if value == -12 {
        LibusbError::NotSupported
    } else {
        LibusbError::Other
    }
}

impl LibusbError {
    /// Convert a raw native error code to its `LibusbError` variant.
    /// Unknown codes map to `Other`.
    pub fn from_raw(value: i32) -> (r: LibusbError)
        ensures
            r == spec_from_raw(value),
    {
        match value {
            -1 => LibusbError::Io,
            -2 => LibusbError::InvalidParam,
            -3 => LibusbError::Access,
            -4 => LibusbError::NoDevice,
            -5 => LibusbError::NotFound,
            -6 => LibusbError::Busy,
            -7 => LibusbError::Timeout,
            -8 => LibusbError::Overflow,
            -9 => LibusbError::Pipe,
            -10 => LibusbError::Interrupted,
            -11 => LibusbError::NoMem,
            -12 => LibusbError::NotSupported,
            _ => LibusbError::Other,
        }
    }

    /// A readable name for the error, for hosts that log or display it.
    pub fn describe(&self) -> (r: &'static str)
    {
        match self {
            LibusbError::Io => "input/output error",
            LibusbError::InvalidParam => "invalid parameter",
            LibusbError::Access => "access denied",
            LibusbError::NoDevice => "no such device",
            LibusbError::NotFound => "entity not found",
            LibusbError::Busy => "resource busy",
            LibusbError::Timeout => "operation timed out",
            LibusbError::Overflow => "overflow",
            LibusbError::Pipe => "pipe error",
            LibusbError::Interrupted => "system call interrupted",
            LibusbError::NoMem => "insufficient memory",
            LibusbError::NotSupported => "operation not supported",
            LibusbError::Other => "other error",
        }
    }
}

/// What `map_raw_unit` returns: the unit pass-through contract shared by all
/// synchronous handle operations.
pub open spec fn spec_map_raw_unit(raw: i32) -> Result<(), LibusbError> {
    if raw >= 0 {
        Ok(())
    } else {
        Err(spec_from_raw(raw))
    }
}

/// Map the raw result of a synchronous native call that carries no payload:
/// non-negative is success, negative is the mapped error.
pub fn map_raw_unit(raw: i32) -> (r: Result<(), LibusbError>)
    ensures
        r == spec_map_raw_unit(raw),
{
    if raw >= 0 {
        Ok(())
    } else {
        Err(LibusbError::from_raw(raw))
    }
}

} // verus!
