use vstd::prelude::*;

verus! {

/// Everything that can abort a benchmark iteration.
#[derive(Debug, Clone, Copy, PartialEq, Eq, Structural)]
pub enum Error {
    /// A backend cannot express the requested cipher suite, curve and signature type.
    UnsupportedParameterCombination,
    /// The negotiation itself failed.
    HandshakeFailed,
    /// More plaintext was asked for than the peer ever sent.
    TransportExhausted,
    /// A backend negotiated a cipher suite outside the closed enumeration.
    UnknownCipherSuite,
    /// The engine of a backend failed outside the negotiation: while it was bound to
    /// its link, or while it sent, flushed or received application data.
    EngineFailed,
}

impl Error {
    /// The text shown for the error.
    pub open spec fn message(self) -> Seq<char> {
        match self {
            Error::UnsupportedParameterCombination => "unsupported parameter combination"@,
            Error::HandshakeFailed => "handshake failed"@,
            Error::TransportExhausted => "transport exhausted"@,
            Error::UnknownCipherSuite => "unknown cipher suite"@,
            Error::EngineFailed => "engine failed"@,
        }
    }

    pub fn to_string(&self) -> (s: String)
        ensures
            s@ == self.message(),
    {
        match self {
            Error::UnsupportedParameterCombination => String::from_str(
                "unsupported parameter combination",
            ),
            Error::HandshakeFailed => String::from_str("handshake failed"),
            Error::TransportExhausted => String::from_str("transport exhausted"),
            Error::UnknownCipherSuite => String::from_str("unknown cipher suite"),
            Error::EngineFailed => String::from_str("engine failed"),
        }
    }
}

} // verus!
