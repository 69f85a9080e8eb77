//! The connection attempt that the scheduler makes once per cycle.

use vstd::prelude::*;

verus! {

/// The error that a failed connection attempt reports.
#[verifier::external_type_specification]
#[verifier::external_body]
pub struct ExIoError(std::io::Error);

/// One connection attempt against the probed target.
pub trait Pinger {
    /// Makes one attempt: `None` when the connection was established (and
    /// released again), the connection error otherwise.
    fn ping(&self) -> Option<std::io::Error>;
}

} // verus!
