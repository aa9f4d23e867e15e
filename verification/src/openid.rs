//! The identity provider's device-code vocabulary: the code a user must
//! confirm out of band, with the URL to do it at and its lifetime. The
//! provider's HTTP mechanics live outside the library; resolution
//! outcomes are handed back in as plain values.

use vstd::prelude::*;

verus! {

/// A device code issued by the identity provider. Single use: the session
/// state machine consumes it on any resolution attempt.
#[derive(Clone, PartialEq, Eq, Debug)]
pub struct DeviceCode {
    pub device_code: String,
    pub verification_uri_complete: String,
    pub expires_in: u64,
}

} // verus!
