use vstd::prelude::*;

verus! {

/// Everything that can go wrong while decoding, encoding or handling packets.
#[derive(Debug, Clone, Copy, PartialEq, Eq, Structural)]
pub enum ProtocolError {
    /// The input ended before a value was complete.
    UnexpectedEof,
    /// A string's bytes are not valid UTF-8.
    InvalidUtf8,
    /// A packet's id is not one the current state accepts.
    InvalidPacketId,
    /// A packet that may not be sent in this direction.
    InvalidPacketNotSent,
    /// A packet that may not be received in the current state.
    InvalidPacketReceived,
    /// A length prefix that read as five bytes still has its continuation bit set.
    VarIntTooLong,
    /// A length prefix is negative; decoding does not return on such input, so
    /// no read gives this error.
    NegativeLength,
    /// The client speaks another protocol version.
    UnmatchedProtocolVersion,
    /// The handshake names an intent other than status or login.
    UnknownIntent,
    /// A login packet arrived out of order.
    InvalidLoginSequence,
    /// The RSA key could not encode or decrypt.
    Crypto,
    /// The operating system gave no random bytes.
    Randomness,
    /// The bytes where an NBT value should start do not hold one.
    InvalidNbt,
}

} // verus!
