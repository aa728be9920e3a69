//! The client-side session protocol: the authentication handshake, the
//! per-connection packet-id counter, and the reassembly of multi-packet
//! command responses.
//!
//! The protocol gives no "more packets follow" marker, so a command is
//! always followed by an empty tracking packet; replies arrive in the order
//! the requests were sent, and the echo of the tracking packet's id marks
//! the end of the command's response. A host owning the socket drives these
//! state machines one received packet at a time.
use vstd::prelude::*;
use crate::packet::{Packet, PacketType, PacketView};

verus! {

/// The id the authentication packet is sent with.
pub const AUTH_PACKET_ID: i32 = 1;

/// The id of the tracking packet sent right after the authentication
/// packet; seeing it echoed completes the handshake.
pub const AUTH_SENTINEL_ID: i32 = 2;

/// Where the per-session id counter starts: above every id the handshake
/// reserves.
pub const FIRST_SESSION_ID: i32 = 100;

/// A reassembled command response: the bodies of every packet received
/// before the tracking packet's echo, concatenated in receipt order.
pub struct Response {
    body: String,
}

impl View for Response {
    type V = Seq<char>;

    closed spec fn view(&self) -> Seq<char> {
        self.body@
    }
}

impl Response {
    /// The response text.
    pub fn body(&self) -> (r: &str)
        ensures
            r@ == self@,
    {
        self.body.as_str()
    }
}

/// Configuration for a session about to connect: the deadline, in
/// milliseconds, that the host applies to the whole of `connect` and to
/// each command round-trip.
pub struct ClientBuilder {
    pub timeout_ms: u64,
}

impl Default for ClientBuilder {
    /// The default deadline is 30 seconds.
    fn default() -> (r: Self)
        ensures
            r.timeout_ms == 30_000,
    {
        ClientBuilder { timeout_ms: 30_000 }
    }
}

/// What one received packet means for an in-progress handshake.
#[derive(Clone, Copy, Debug, PartialEq, Eq, Structural)]
pub enum HandshakeStatus {
    /// Not the sentinel's echo yet: ignore the packet and keep reading.
    Pending,
    /// The sentinel's id came back: authentication succeeded.
    Complete,
    /// A packet with id -1: the server rejected the password.
    Failed,
}

/// How a handshake reads one received packet: id -1 is the server's
/// bad-password signal and fails it at any point; the sentinel id completes
/// it; everything else (such as the formal `AuthResponse` echo) is ignored.
pub open spec fn spec_handshake_status(sentinel_id: i32, received: PacketView) -> HandshakeStatus {
    if received.id == -1 {
        HandshakeStatus::Failed
    } else if received.id == sentinel_id {
        HandshakeStatus::Complete
    } else {
        HandshakeStatus::Pending
    }
}

/// The authentication packet: id 1, type `Auth`, carrying the password.
pub fn auth_packet(password: &str) -> (p: Packet)
    ensures
        p@ == (PacketView {
            id: AUTH_PACKET_ID,
            packet_type: PacketType::Auth,
            body: Some(password@),
        }),
{
    Packet::new(AUTH_PACKET_ID, PacketType::Auth, password)
}

/// The handshake's tracking packet: id 2, type `Exec`, empty body. It is
/// sent immediately after the authentication packet, without waiting for a
/// reply, because the server's failure signal is itself an
/// otherwise-indistinguishable response.
pub fn auth_sentinel() -> (p: Packet)
    ensures
        p@.id == AUTH_SENTINEL_ID,
        p@.packet_type == PacketType::Exec,
        p@.body == Some(Seq::<char>::empty()),
{
    let p = Packet::new(AUTH_SENTINEL_ID, PacketType::Exec, "");
    proof {
        reveal_strlit("");
        assert(""@ =~= Seq::<char>::empty());
    }
    p
}

/// Classifies one packet received during the handshake.
pub fn handshake_observe(sentinel_id: i32, received: &Packet) -> (status: HandshakeStatus)
    ensures
        status == spec_handshake_status(sentinel_id, received@),
{
    if received.id() == -1 {
        HandshakeStatus::Failed
    } else if received.id() == sentinel_id {
        HandshakeStatus::Complete
    } else {
        HandshakeStatus::Pending
    }
}

/// The verified per-connection state: the next packet id to assign. Ids are
/// allocated monotonically, starting above everything the handshake
/// reserves, so a response can always be correlated with its request.
pub struct Session {
    pub next_packet_id: i32,
}

impl Session {
    /// A fresh session, as built right after a successful handshake.
    pub fn new() -> (s: Session)
        ensures
            s.next_packet_id == FIRST_SESSION_ID,
    {
        Session { next_packet_id: FIRST_SESSION_ID }
    }

    /// Allocates the next id and builds an `Exec` packet carrying `command`.
    pub fn create_packet(&mut self, command: &str) -> (p: Packet)
        requires
            old(self).next_packet_id < i32::MAX,
        ensures
            final(self).next_packet_id == old(self).next_packet_id + 1,
            p@ == (PacketView {
                id: (old(self).next_packet_id + 1) as i32,
                packet_type: PacketType::Exec,
                body: Some(command@),
            }),
    {
        self.next_packet_id = self.next_packet_id + 1;
        Packet::new(self.next_packet_id, PacketType::Exec, command)
    }

    /// The two packets one command round-trip writes, in order: the `Exec`
    /// packet carrying the command, then the empty tracking packet whose
    /// echoed id will mark the end of the response.
    pub fn command_packets(&mut self, command: &str) -> (pair: (Packet, Packet))
        requires
            old(self).next_packet_id + 2 <= i32::MAX,
        ensures
            final(self).next_packet_id == old(self).next_packet_id + 2,
            pair.0@ == (PacketView {
                id: (old(self).next_packet_id + 1) as i32,
                packet_type: PacketType::Exec,
                body: Some(command@),
            }),
            pair.1@.id == old(self).next_packet_id + 2,
            pair.1@.packet_type == PacketType::Exec,
            pair.1@.body == Some(Seq::<char>::empty()),
    {
        let command_packet = self.create_packet(command);
        let tracking_packet = self.create_packet("");
        proof {
            reveal_strlit("");
            assert(""@ =~= Seq::<char>::empty());
        }
        (command_packet, tracking_packet)
    }
}

/// The mathematical content of an in-progress reassembly.
#[verifier::ext_equal]
pub ghost struct ReassemblyView {
    pub tracking_id: i32,
    pub body: Seq<char>,
    pub complete: bool,
}

/// The text a received packet contributes to a response: its body, or
/// nothing if it has none.
pub open spec fn spec_contribution(received: PacketView) -> Seq<char> {
    match received.body {
        Some(chars) => chars,
        None => Seq::empty(),
    }
}

/// An in-progress response reassembly: packets are fed in receipt order,
/// and their bodies accumulate until the tracking packet's id is observed.
///
/// The accumulated text is meaningful only because the protocol guarantees
/// that replies arrive in the order the requests were sent; over a
/// transport that reorders packets the result is unspecified.
pub struct Reassembly {
    tracking_id: i32,
    body: String,
    complete: bool,
}

impl View for Reassembly {
    type V = ReassemblyView;

    closed spec fn view(&self) -> ReassemblyView {
        ReassemblyView { tracking_id: self.tracking_id, body: self.body@, complete: self.complete }
    }
}

impl Reassembly {
    /// Starts reassembling the response that ends with the echo of
    /// `tracking_id`.
    pub fn new(tracking_id: i32) -> (r: Reassembly)
        ensures
            r@ == (ReassemblyView { tracking_id, body: Seq::<char>::empty(), complete: false }),
    {
        let r = Reassembly { tracking_id, body: String::new(), complete: false };
        proof {
            assert(r@ =~= (ReassemblyView {
                tracking_id,
                body: Seq::<char>::empty(),
                complete: false,
            }));
        }
        r
    }

    /// Feeds the next received packet. The tracking packet's echo completes
    /// the response and contributes nothing; any other packet's body is
    /// appended in receipt order.
    pub fn observe(&mut self, received: &Packet) -> (done: bool)
        requires
            !old(self)@.complete,
        ensures
            done == (received@.id == old(self)@.tracking_id),
            final(self)@.tracking_id == old(self)@.tracking_id,
            final(self)@.complete == done,
            done ==> final(self)@.body == old(self)@.body,
            !done ==> final(self)@.body == old(self)@.body + spec_contribution(received@),
    {
        if received.id() == self.tracking_id {
            self.complete = true;
            true
        } else {
            match received.body() {
                Some(s) => {
                    vstd::string::StringExecFns::append(&mut self.body, s.as_str());
                },
                None => {
                    proof {
                        assert(self@.body =~= old(self)@.body + spec_contribution(received@));
                    }
                },
            }
            false
        }
    }

    /// Whether the tracking packet's echo has been observed.
    pub fn is_complete(&self) -> (r: bool)
        ensures
            r == self@.complete,
    {
        self.complete
    }

    /// The finished response. Only a completed reassembly yields one: until
    /// the tracking id has come back, more packets may still belong to this
    /// command.
    pub fn into_response(self) -> (r: Response)
        requires
            self@.complete,
        ensures
            r@ == self@.body,
    {
        Response { body: self.body }
    }
}

} // verus!
