use vstd::prelude::*;

verus! {

/// How a request can fail.
#[derive(Clone, Copy, Debug, PartialEq, Eq, Structural)]
pub enum Error {
    /// The request is malformed. Sending a corrected request may succeed.
    InvalidInput,
    /// The user rejected one of the confirmations.
    UserAbort,
    /// The host did not keep to the nonce exchange.
    ProtocolFault,
    /// The key store could not do its part, for a reason that does not lie
    /// in the request.
    Generic,
}

} // verus!
