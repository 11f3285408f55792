//! Supervisor for a local service sidecar: resolves where the service's
//! entry script and resources live, discovers a language runtime able to
//! run the script, and owns the lifecycle of the single child process,
//! with an append-only diagnostic log of its own events.

use vstd::prelude::*;

pub mod cache;
pub mod locator;
pub mod logger;
pub mod menu;
pub mod paths;
pub mod platform;
pub mod secrets;
pub mod supervisor;

verus! {

/// The port on which the managed sidecar service listens.
pub fn local_api_port() -> (r: String)
    ensures
        r@ == spec_local_api_port(),
{
    String::from_str("46123")
}

/// The port value as a specification-level sequence of characters.
pub open spec fn spec_local_api_port() -> Seq<char> {
    "46123"@
}

} // verus!
