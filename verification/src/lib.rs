//! Enrichment layer for a payment-routing node's forward-event notifications.
//!
//! The library resolves short channel identifiers to peer display names
//! through a two-tier cache (channel to peer key, peer key to alias) and
//! classifies forward-event notifications into log actions.  All remote
//! calls and all I/O stay outside: callers drive the resolution state
//! machine by performing the requested lookups and handing the results back.

pub mod cache;
pub mod forward_notifications;
pub mod node_names;
pub mod pubkey;
pub mod scid;
pub mod text;

use vstd::prelude::*;

verus! {

/// Why a resolution or a dispatch step failed.
#[derive(Clone, Copy, Debug, PartialEq, Eq, Structural)]
pub enum ResolveError {
    /// Malformed payload or malformed channel identifier; never retried.
    Parse,
    /// The node's view of the network has no record for the requested
    /// channel or node; may succeed later, but no retry is performed here.
    NotFound,
    /// The remote lookup itself failed (transport, timeout, protocol).
    Gateway,
}

impl ResolveError {
    /// A short description for the warning that the caller logs.
    pub fn describe(&self) -> (m: &'static str)
        ensures
            *self is Parse ==> m@ == "malformed payload or channel id"@,
            *self is NotFound ==> m@ == "no record for channel or node"@,
            *self is Gateway ==> m@ == "rpc gateway call failed"@,
    {
        match self {
            ResolveError::Parse => "malformed payload or channel id",
            ResolveError::NotFound => "no record for channel or node",
            ResolveError::Gateway => "rpc gateway call failed",
        }
    }
}

} // verus!
