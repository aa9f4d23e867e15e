//! The bridge between a transport channel and a dashboard. The library
//! only decides which channel data and resize events go to; the task
//! spawning and byte plumbing behind it live outside.

use vstd::prelude::*;

verus! {

/// The verified face of a per-connection channel: the identifier under
/// which the transport knows it.
#[derive(Clone, Copy, PartialEq, Eq, Structural, Debug)]
pub struct Channel {
    pub id: u64,
}

} // verus!
