use vstd::prelude::*;

verus! {

/// The error kinds surfaced to the host.
///
/// Every fallible operation of this crate reports one of these kinds; the
/// host layer attaches its own textual context. `NativeFailure` wraps the
/// message of any native-library error that has no more precise kind.
#[derive(Debug, PartialEq, Eq)]
pub enum Error {
    /// The configuration document was rejected by the parser or the schema.
    ConfigInvalid,
    /// A session or entity identifier is absent from the registry.
    NotFound,
    /// An insert found its identifier already present.
    AlreadyExists,
    /// A reply was attempted after the final reply was already sent.
    QueryAlreadyFinal,
    /// A key expression could not be canonised.
    KeyExprInvalid,
    /// An option value had the wrong type, or a host value was malformed.
    InvalidArgument,
    /// The payload encoding has no host mapping.
    EncodingUnsupported,
    /// A deadline elapsed with no usable result.
    Timeout,
    /// The native reply channel closed without delivering anything.
    ChannelDisconnected,
    /// Any other native error, with its message.
    NativeFailure(String),
}

} // verus!
