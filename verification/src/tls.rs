//! The client's certificate verification policy.  The harness dials test
//! servers that present self-signed certificates, so every presented
//! certificate is accepted.  The transport shell implements the TLS
//! library's verifier interface on its own copy of this type.

use std::sync::Arc;

use vstd::prelude::*;

verus! {

/// The accept-all certificate policy of the harness client.
pub struct Verifier;

impl Verifier {
    /// A shared handle to the accept-all policy, as the TLS configuration
    /// consumes it.
    pub fn new() -> (v: Arc<Self>)
        ensures
            v == (Verifier {}),
    {
        Arc::new(Verifier {})
    }
}

} // verus!
