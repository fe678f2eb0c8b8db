//! The errors of the network stack.
use vstd::prelude::*;

verus! {

/// An error of the network stack.
#[derive(Clone, Copy, Debug, PartialEq, Eq, Structural)]
pub enum SocketError {
    /// A buffer is empty or full.
    Exhausted,
    /// The operation is not permitted in the socket's state.
    Illegal,
    /// An endpoint is unspecified.
    Unaddressable,
    /// The peer has closed the connection and nothing is left to read.
    Finished,
    /// A packet is larger than the buffer that has to hold it.
    Truncated,
    /// A packet has a wrong checksum.
    Checksum,
    /// A packet is of an unknown kind.
    Unrecognized,
    /// A packet is a fragment.
    Fragmented,
    /// A packet contradicts itself.
    Malformed,
    /// A packet contradicts the socket's state.
    Dropped,
}

impl SocketError {
    /// The text by which the error is shown.
    pub open spec fn message(self) -> Seq<char> {
        match self {
            SocketError::Exhausted => "buffer space exhausted"@,
            SocketError::Illegal => "illegal operation"@,
            SocketError::Unaddressable => "unaddressable destination"@,
            SocketError::Finished => "operation finished"@,
            SocketError::Truncated => "truncated packet"@,
            SocketError::Checksum => "checksum error"@,
            SocketError::Unrecognized => "unrecognized packet"@,
            SocketError::Fragmented => "fragmented packet"@,
            SocketError::Malformed => "malformed packet"@,
            SocketError::Dropped => "dropped by socket"@,
        }
    }

    /// The text by which the error is shown.
    pub fn to_text(self) -> (text: String)
        ensures
            text@ == self.message(),
    {
        display_error(self)
    }
}

/// The error type of the network stack.
#[verifier::external_type_specification]
#[verifier::external_body]
pub struct ExError(smoltcp::Error);

/// Which error `error` is.
pub uninterp spec fn error_kind(error: smoltcp::Error) -> SocketError;

/// Tells the variants of `smoltcp::Error` apart.
///
/// Trusted: each variant answers to the one of the same name. The last arm
/// stands for `Dropped`, the only variant that is left.
#[verifier::external_body]
pub(crate) fn classify(error: smoltcp::Error) -> (kind: SocketError)
    ensures
        kind == error_kind(error),
{
    match error {
        smoltcp::Error::Exhausted => SocketError::Exhausted,
        smoltcp::Error::Illegal => SocketError::Illegal,
        smoltcp::Error::Unaddressable => SocketError::Unaddressable,
        smoltcp::Error::Finished => SocketError::Finished,
        smoltcp::Error::Truncated => SocketError::Truncated,
        smoltcp::Error::Checksum => SocketError::Checksum,
        smoltcp::Error::Unrecognized => SocketError::Unrecognized,
        smoltcp::Error::Fragmented => SocketError::Fragmented,
        smoltcp::Error::Malformed => SocketError::Malformed,
        _ => SocketError::Dropped,
    }
}

/// Shows `error` through the `Display` of `smoltcp::Error`.
///
/// Trusted: the text is the one that `message` lists for each variant.
#[verifier::external_body]
fn display_error(error: SocketError) -> (text: String)
    ensures
        text@ == error.message(),
{
    let error = match error {
        SocketError::Exhausted => smoltcp::Error::Exhausted,
        SocketError::Illegal => smoltcp::Error::Illegal,
        SocketError::Unaddressable => smoltcp::Error::Unaddressable,
        SocketError::Finished => smoltcp::Error::Finished,
        SocketError::Truncated => smoltcp::Error::Truncated,
        SocketError::Checksum => smoltcp::Error::Checksum,
        SocketError::Unrecognized => smoltcp::Error::Unrecognized,
        SocketError::Fragmented => smoltcp::Error::Fragmented,
        SocketError::Malformed => smoltcp::Error::Malformed,
        SocketError::Dropped => smoltcp::Error::Dropped,
    };
    error.to_string()
}

} // verus!
