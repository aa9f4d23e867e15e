//! The per-connection authentication state machine's state and its
//! primitive transitions. Exactly one state is active per connection;
//! every transition below replaces it in place without cloning, so the
//! carried key and identity values are preserved exactly.

use vstd::prelude::*;

use crate::identity::Identity;
use crate::io::Channel;
use crate::openid::DeviceCode;
use crate::ssh::{AuthMethod, PublicKey};

verus! {

/// The authentication progress of one connection. `PtyStarted` is the
/// terminal state of this machine.
#[derive(PartialEq, Eq, Debug)]
pub enum State {
    Unauthenticated,
    KeyOffered(PublicKey),
    CodeSent(DeviceCode, Option<PublicKey>),
    Authenticated(Identity, AuthMethod),
    PtyStarted(Channel),
}

/// The key a state carries for a later durable binding: only an offered
/// key that did not match a stored binding is carried.
pub open spec fn offered_key(s: State) -> Option<PublicKey> {
    match s {
        State::KeyOffered(k) => Some(k),
        _ => None,
    }
}

/// The state after a device code is consumed: back to `KeyOffered` when a
/// key was carried through the flow, else back to `Unauthenticated`.
pub open spec fn code_used_next(s: State) -> State {
    match s {
        State::CodeSent(_, Some(k)) => State::KeyOffered(k),
        _ => State::Unauthenticated,
    }
}

impl State {
    /// A key was offered and did not match a stored binding: remember it.
    pub fn key_offered(&mut self, key: PublicKey)
        ensures
            *final(self) == State::KeyOffered(key),
    {
        *self = State::KeyOffered(key);
    }

    /// A device code was issued: hold it, carrying along an offered key.
    pub fn code_sent(&mut self, code: DeviceCode)
        ensures
            *final(self) == State::CodeSent(code, offered_key(*old(self))),
    {
        let mut tmp = State::Unauthenticated;
        core::mem::swap(self, &mut tmp);
        let key = match tmp {
            State::KeyOffered(k) => Some(k),
            _ => None,
        };
        *self = State::CodeSent(code, key);
    }

    /// The held device code was passed through resolution, whatever the
    /// outcome: it is spent, and the carried key (if any) is retained.
    pub fn code_used(&mut self)
        ensures
            *final(self) == code_used_next(*old(self)),
    {
        let mut tmp = State::Unauthenticated;
        core::mem::swap(self, &mut tmp);
        *self = match tmp {
            State::CodeSent(_, Some(k)) => State::KeyOffered(k),
            _ => State::Unauthenticated,
        };
    }

    /// Authentication succeeded under the given method.
    pub fn authenticated(&mut self, user: Identity, method: AuthMethod)
        ensures
            *final(self) == State::Authenticated(user, method),
    {
        *self = State::Authenticated(user, method);
    }

    /// The session's dashboard was started on the given channel.
    pub fn pty_started(&mut self, channel: Channel)
        ensures
            *final(self) == State::PtyStarted(channel),
    {
        *self = State::PtyStarted(channel);
    }
}

impl Default for State {
    fn default() -> (r: Self)
        ensures
            r == State::Unauthenticated,
    {
        State::Unauthenticated
    }
}

} // verus!
