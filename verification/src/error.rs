use vstd::prelude::*;

verus! {

/// Why a source operation failed. Every failure a backend can produce is one
/// of these four distinct, inspectable cases; none is retried or swallowed.
#[derive(Debug, Clone, PartialEq, Eq)]
pub enum SourceError {
    /// The underlying transport failed (network error, missing file,
    /// non-2xx response, interrupted copy). Carries the transport's message.
    TransportError(String),
    /// A retrieved body is not a well-formed feed or releases document.
    FormatError,
    /// No qualifying GitHub release carries a feed asset for the channel.
    NotFoundError,
    /// The configured source URL cannot be parsed.
    ConfigurationError,
}

} // verus!
