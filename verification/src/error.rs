use vstd::prelude::*;

verus! {

/// The closed failure taxonomy of the protocol client.  Every fallible
/// operation of this crate reports one of these kinds; none is retried
/// internally.
#[derive(Debug)]
pub enum Error {
    /// The environment variable naming the channel address is unset.
    EnvMissing,
    /// An underlying I/O failure on the channel: connect, read, write, or a
    /// timeout.  Carries the I/O diagnostic.
    ChannelError(String),
    /// The payload bytes do not parse into the expected structured shape.
    /// Carries the parse diagnostic.
    Serialisation(String),
    /// The leading six bytes of a reply do not match the protocol magic
    /// marker: the channel is desynchronized or the peer does not speak the
    /// protocol.
    MalformedReply,
    /// A type ordinal outside the defined range of message kinds.
    UnknownType,
    /// A reply carried a valid message type, but not the one the request
    /// expects.  Surfaced as a recoverable failure rather than an abort.
    UnexpectedType,
}

impl Error {
    /// A human-readable description of the failure.
    pub fn message(&self) -> (r: String)
        ensures
            self is EnvMissing ==> r@ == "SWAYSOCK isn't set"@,
            self matches Error::ChannelError(s) ==> r@ == s@,
            self matches Error::Serialisation(s) ==> r@ == s@,
            self is MalformedReply ==> r@ == "Malformed reply"@,
            self is UnknownType ==> r@ == "Unknown message type received"@,
            self is UnexpectedType ==> r@ == "Unexpected response kind"@,
    {
        match self {
            Error::EnvMissing => "SWAYSOCK isn't set".to_owned(),
            Error::ChannelError(s) => s.clone(),
            Error::Serialisation(s) => s.clone(),
            Error::MalformedReply => "Malformed reply".to_owned(),
            Error::UnknownType => "Unknown message type received".to_owned(),
            Error::UnexpectedType => "Unexpected response kind".to_owned(),
        }
    }
}

} // verus!
