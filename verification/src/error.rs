use vstd::prelude::*;

verus! {

/// Everything that can go wrong while framing packets or talking to a
/// server. Decoding produces the three malformed-packet variants; the
/// transport-facing variants are signalled by the host that owns the socket.
#[derive(Clone, Copy, Debug, PartialEq, Eq, Structural)]
pub enum RconError {
    /// A packet carried a type code outside the known set; the code is kept.
    UnknownPacketType(i32),
    /// The buffer is too short for the size, id and type fields, or the
    /// declared size disagrees with the buffer.
    MalformedPacketHeader,
    /// The body bytes are not valid UTF-8.
    MalformedPacketBody,
    /// The connection could not be established.
    UnreachableHost,
    /// The socket faulted while writing.
    SendError,
    /// The socket faulted while reading.
    ReceiveError,
    /// The server signalled bad credentials (a packet with id -1).
    AuthenticationError,
    /// An operation exceeded its configured deadline.
    TimeoutError,
}

} // verus!
