//! The error taxonomy of the library. A value of `Error` is fatal to the
//! operation that returns it; recoverable conditions (a device code still
//! pending, an explicit rejection) are ordinary outcomes, not errors.

use vstd::prelude::*;

verus! {

#[derive(Clone, Copy, PartialEq, Eq, Structural, Debug)]
pub enum Error {
    /// A message arrived while the state machine was in an incompatible
    /// state; the session disconnects.
    ProtocolViolation,
    /// An I/O or network failure reported by a collaborator.
    TransportError,
    /// A terminal rendering failure.
    RenderError,
}

} // verus!
