//! The transport-level auth vocabulary and the cluster controller's
//! verified face. The SSH server itself, and the cluster clients the
//! controller builds, live outside the library; what is modelled here is
//! exactly what the authentication logic reads and produces.

pub mod session;

use vstd::prelude::*;

verus! {

/// A client-presented public-key credential.
#[derive(Clone, PartialEq, Eq, Debug)]
pub struct PublicKey {
    pub data: Vec<u8>,
}

/// An authentication method the server can advertise.
#[derive(Clone, Copy, PartialEq, Eq, Structural, Debug)]
pub enum Method {
    PublicKey,
    KeyboardInteractive,
}

/// How a session was authenticated.
#[derive(Clone, Copy, PartialEq, Eq, Structural, Debug)]
pub enum AuthMethod {
    PublicKey,
    OpenId,
}

/// The outcome of one authentication round, as the transport reports it
/// to the client.
#[derive(PartialEq, Eq, Debug)]
pub enum Auth {
    Accept,
    Reject { proceed_with_methods: Option<Method> },
    Partial { name: String, instructions: String, prompts: Vec<(String, bool)> },
}

/// The cluster connection settings the authentication logic touches:
/// which identity, and which groups, requests are made as.
#[derive(Clone, PartialEq, Eq, Debug)]
pub struct ClusterConfig {
    pub impersonate: Option<String>,
    pub impersonate_groups: Option<Vec<String>>,
}

/// Holds the cluster connection config. Building clients and publishing
/// audit events from it are outside work; the impersonation rule is the
/// logic that lives here.
#[derive(Debug)]
pub struct Controller {
    pub config: ClusterConfig,
}

impl Controller {
    /// The connection settings for a client that acts as the given user
    /// and groups. An empty group list means no group impersonation at
    /// all, not an impersonation of zero groups.
    pub fn impersonate(&self, user: String, groups: Vec<String>) -> (r: ClusterConfig)
        ensures
            r.impersonate == Some(user),
            groups@.len() == 0 ==> r.impersonate_groups is None,
            groups@.len() > 0 ==> r.impersonate_groups == Some(groups),
    {
        if groups.len() == 0 {
            ClusterConfig { impersonate: Some(user), impersonate_groups: None }
        } else {
            ClusterConfig { impersonate: Some(user), impersonate_groups: Some(groups) }
        }
    }
}

} // verus!
