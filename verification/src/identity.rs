//! The authenticated principal: a user identifier and its group
//! memberships, resolved either from a stored public-key binding or from
//! a device-code exchange. Immutable once constructed.

use vstd::prelude::*;

verus! {

#[derive(Clone, PartialEq, Eq, Debug)]
pub struct Identity {
    pub user: String,
    pub groups: Vec<String>,
}

} // verus!
