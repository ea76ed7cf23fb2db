//! What a relay operation can fail with.

use vstd::prelude::*;

verus! {

/// The ways in which an operation of the relay fails.
#[derive(Clone, Copy, Debug, PartialEq, Eq, Structural)]
pub enum RelayError {
    /// A message could not be turned into its wire form. Messages are well
    /// formed by construction and the encoder does not fail on them, so no
    /// operation returns this; a caller that ever sees it should report it
    /// loudly.
    Encoding,
    /// The connection is not in the phase that the operation starts from.
    OutOfPhase,
}

} // verus!
