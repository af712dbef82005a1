//! Judging the liveness probe.
//!
//! A pooled session is probed with a lightweight identity query, bounded by a
//! fixed short timeout. The round trip itself is asynchronous and runs in the
//! embedding program; what the adapter decides — whether the protocol-level
//! result code of the completed probe means the session is valid — is the
//! verified function here.

use vstd::prelude::*;

verus! {

/// How long a liveness probe may take before the session counts as invalid,
/// in milliseconds.
pub const PROBE_TIMEOUT_MS: u64 = 1000;

/// A probe that completed its round trip but came back with a non-success
/// protocol result code.
#[derive(Clone, Copy, Debug, PartialEq, Eq, Structural)]
pub struct ProbeError {
    /// The non-zero result code the server returned.
    pub rc: u32,
}

/// Judge a completed probe by its protocol result code: only the success
/// code, zero, makes the session valid; any other code is reported back with
/// the error, and the pool then discards the session.
pub fn probe_verdict(rc: u32) -> (r: Result<(), ProbeError>)
    ensures
        r is Ok <==> rc == 0,
        r is Err ==> r->Err_0 == (ProbeError { rc }),
{
    if rc == 0 {
        Ok(())
    } else {
        Err(ProbeError { rc })
    }
}

} // verus!
