//! Errors of moving pointers and bytes across the host/guest boundary.

use byte_slice_cast::Error as CastError;
use vstd::prelude::*;

verus! {

/// What can go wrong moving pointers and bytes between host and guest.
#[derive(Debug, Clone, Copy, PartialEq, Eq, Structural)]
pub enum Error {
    /// A pointer or a length did not fit the integer type it was converted to.
    /// Almost certainly a critical bug somewhere.
    PointerMap,
    /// Bytes that should have been UTF-8 were not.
    Utf8,
    /// Reading or writing wasm memory went wrong; not recoverable.
    Memory,
}

/// std's error for bytes that are not valid UTF-8; carried through opaquely.
#[verifier::external_type_specification]
#[verifier::external_body]
pub struct ExUtf8Error(core::str::Utf8Error);

/// byte_slice_cast's error for a byte slice that cannot be viewed as a slice
/// of wider integers; carried through opaquely.
#[verifier::external_type_specification]
#[verifier::external_body]
pub struct ExCastError(CastError);

/// A failed integer conversion is a `PointerMap` error.
impl From<core::num::TryFromIntError> for Error {
    fn from(_e: core::num::TryFromIntError) -> (r: Self) {
        Error::PointerMap
    }
}

impl vstd::std_specs::convert::FromSpecImpl<core::num::TryFromIntError> for Error {
    open spec fn obeys_from_spec() -> bool {
        true
    }

    open spec fn from_spec(v: core::num::TryFromIntError) -> Self {
        Error::PointerMap
    }
}

/// Invalid UTF-8 is a `Utf8` error.
impl From<core::str::Utf8Error> for Error {
    fn from(_e: core::str::Utf8Error) -> (r: Self) {
        Error::Utf8
    }
}

impl vstd::std_specs::convert::FromSpecImpl<core::str::Utf8Error> for Error {
    open spec fn obeys_from_spec() -> bool {
        true
    }

    open spec fn from_spec(v: core::str::Utf8Error) -> Self {
        Error::Utf8
    }
}

/// Bytes that cannot be viewed as wider integers are a `Memory` error.
impl From<CastError> for Error {
    fn from(_e: CastError) -> (r: Self) {
        Error::Memory
    }
}

impl vstd::std_specs::convert::FromSpecImpl<CastError> for Error {
    open spec fn obeys_from_spec() -> bool {
        true
    }

    open spec fn from_spec(v: CastError) -> Self {
        Error::Memory
    }
}

} // verus!
