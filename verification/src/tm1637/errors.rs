//! What can go wrong while talking to the display.

use vstd::prelude::*;
use vstd::std_specs::convert::FromSpecImpl;

verus! {

/// Failure of a display request. `E` is the error of the line hardware.
#[derive(Debug, PartialEq, Eq)]
pub enum TmError<E> {
    /// The chip did not acknowledge a byte.
    Ack,
    /// A line operation failed.
    IO(E),
    /// The auto-scroll configuration cannot be honoured: an error code and a
    /// message.
    AutoScroll(String, String),
}

impl<E> From<E> for TmError<E> {
    /// A hardware error is an I/O failure of the request.
    fn from(err: E) -> (e: Self) {
        TmError::IO(err)
    }
}

impl<E> FromSpecImpl<E> for TmError<E> {
    open spec fn obeys_from_spec() -> bool {
        true
    }

    open spec fn from_spec(err: E) -> Self {
        TmError::IO(err)
    }
}

/// Failure of a transfer on the wire, without the rendering layer. `E` is the
/// error of the line hardware.
#[derive(Debug, PartialEq, Eq)]
pub enum Error<E> {
    /// The chip did not acknowledge a byte.
    Ack,
    /// A line operation failed.
    IO(E),
}

impl<E> From<E> for Error<E> {
    /// A hardware error is an I/O failure of the transfer.
    fn from(err: E) -> (e: Self) {
        Error::IO(err)
    }
}

impl<E> FromSpecImpl<E> for Error<E> {
    open spec fn obeys_from_spec() -> bool {
        true
    }

    open spec fn from_spec(err: E) -> Self {
        Error::IO(err)
    }
}

} // verus!
