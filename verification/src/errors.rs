//! The failures that the library reports.

use vstd::prelude::*;

verus! {

/// Why a call to the service did not yield a decoded answer.
#[derive(Clone, Copy, Debug, PartialEq, Eq, Structural)]
pub enum Error {
    /// The request could not be set up: the transport could not be
    /// initialised or did not take the request, the address of the request
    /// is no well-formed URI, or its body could not be written.
    Internal,
    /// The network call itself failed.
    Transport,
    /// The body of the answer is not JSON of the expected shape.
    Parse,
}

} // verus!
