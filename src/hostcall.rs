//! The status of a curve host call, carried across the runtime boundary as a
//! single `u32`.

use vstd::prelude::*;

verus! {

/// Error type for host call operations.
#[derive(Clone, Copy, Debug, PartialEq, Eq, Structural)]
pub enum Error {
    /// Encoding error due to small output buffer.
    Encode,
    /// Input data decoding error.
    Decode,
    /// Input sequences have different lengths; applies to `msm` operations.
    LengthMismatch,
    /// Unknown error.
    Unknown,
}

/// The code of each error on the wire.
pub open spec fn spec_error_code(e: Error) -> u32 {
    match e {
        Error::Encode => 1,
        Error::Decode => 2,
        Error::LengthMismatch => 3,
        Error::Unknown => 255,
    }
}

impl Error {
    /// The code of this error on the wire.
    pub fn code(&self) -> (r: u32)
        ensures
            r == spec_error_code(*self),
    {
        match self {
            Error::Encode => 1,
            Error::Decode => 2,
            Error::LengthMismatch => 3,
            Error::Unknown => 255,
        }
    }
}

/// `Ok` travels as zero, an error as its code.
pub open spec fn spec_into_ffi_value(value: Result<(), Error>) -> u32 {
    match value {
        Ok(()) => 0,
        Err(e) => spec_error_code(e),
    }
}

/// Zero reads as `Ok`, a known code as its error, anything else as `Unknown`.
pub open spec fn spec_from_ffi_value(arg: u32) -> Result<(), Error> {
    if arg == 0 {
        Ok(())
    } else if arg == 1 {
        Err(Error::Encode)
    } else if arg == 2 {
        Err(Error::Decode)
    } else if arg == 3 {
        Err(Error::LengthMismatch)
    } else {
        Err(Error::Unknown)
    }
}

/// Passes a `Result<(), Error>` through the runtime boundary as a single `u32`.
pub struct HostcallResult;

impl HostcallResult {
    /// The wire form of a host call's outcome.
    pub fn into_ffi_value(value: Result<(), Error>) -> (r: u32)
        ensures
            r == spec_into_ffi_value(value),
    {
        match value {
            Ok(()) => 0,
            Err(e) => e.code(),
        }
    }

    /// The outcome that a wire value stands for.
    pub fn from_ffi_value(arg: u32) -> (r: Result<(), Error>)
        ensures
            r == spec_from_ffi_value(arg),
    {
        match arg {
            0 => Ok(()),
            1 => Err(Error::Encode),
            2 => Err(Error::Decode),
            3 => Err(Error::LengthMismatch),
            _ => Err(Error::Unknown),
        }
    }
}

/// Every outcome survives the trip to the wire and back.
pub proof fn lemma_ffi_round_trip(value: Result<(), Error>)
    ensures
        spec_from_ffi_value(spec_into_ffi_value(value)) == value,
{
    match value {
        Ok(u) => assert(u == ()),
        Err(e) => {},
    }
}

/// A wire value survives the trip to an outcome and back exactly when it is
/// zero or the code of an error; any other value reads as `Unknown`.
pub proof fn lemma_ffi_wire_round_trip(arg: u32)
    ensures
        spec_into_ffi_value(spec_from_ffi_value(arg)) == arg <==> (arg == 0 || arg == 1 || arg == 2
            || arg == 3 || arg == 255),
        !(arg == 0 || arg == 1 || arg == 2 || arg == 3) ==> spec_from_ffi_value(arg) == Err::<
            (),
            Error,
        >(Error::Unknown),
{
}

} // verus!
