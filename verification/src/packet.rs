//! The wire packet codec: a `Packet` and its exact byte representation.
//!
//! A packet is framed as `size` (4 bytes) | `id` (4 bytes) | `type code`
//! (4 bytes) | body (UTF-8 bytes) | two 0x00 terminators, every integer
//! little-endian and signed. `size` counts everything after itself, which is
//! always the byte length of the body plus 10.
use vstd::prelude::*;
use vstd::utf8::{decode_utf8, encode_scalar, encode_utf8, valid_utf8};
use crate::error::RconError;
use crate::wire::{decode_i32_le, from_le4, le4, push_bytes, push_i32_le, utf8_to_string};

verus! {

/// The four packet kinds of the protocol. On the wire `Exec` and
/// `AuthResponse` share the code 2, so a decoder cannot tell them apart and
/// always reads code 2 as `AuthResponse`.
#[derive(Clone, Copy, Debug, PartialEq, Eq, Structural)]
pub enum PacketType {
    /// Client to server, carries the password.
    Auth,
    /// Server to client, acknowledges or rejects authentication.
    AuthResponse,
    /// Client to server, carries a command string.
    Exec,
    /// Server to client, carries command output.
    Response,
}

/// The wire code a packet type is written as.
pub open spec fn spec_type_code(t: PacketType) -> i32 {
    match t {
        PacketType::Auth => 3,
        PacketType::Exec => 2,
        PacketType::AuthResponse => 2,
        PacketType::Response => 0,
    }
}

/// The packet type a wire code is read as: the ambiguous code 2 always
/// resolves to `AuthResponse`, since a well-behaved server never sends
/// `Exec`.
pub open spec fn spec_type_of_code(code: i32) -> Option<PacketType> {
    if code == 3 {
        Some(PacketType::Auth)
    } else if code == 2 {
        Some(PacketType::AuthResponse)
    } else if code == 0 {
        Some(PacketType::Response)
    } else {
        None
    }
}

/// What a packet type comes back as after one trip over the wire: `Exec`
/// collapses into `AuthResponse`, every other type survives.
pub open spec fn spec_decoded_type(t: PacketType) -> PacketType {
    if t == PacketType::Exec {
        PacketType::AuthResponse
    } else {
        t
    }
}

impl PacketType {
    /// The wire code of this packet type, as four little-endian bytes.
    pub fn to_le_bytes(&self) -> (r: [u8; 4])
        ensures
            r@ == le4(spec_type_code(*self)),
    {
        let code: u8 = match self {
            PacketType::Auth => 3,
            PacketType::Exec => 2,
            PacketType::AuthResponse => 2,
            PacketType::Response => 0,
        };
        let r: [u8; 4] = [code, 0, 0, 0];
        proof {
            assert(r@ =~= le4(spec_type_code(*self)));
        }
        r
    }

    /// Reads a wire code back into a packet type; an unknown code is the
    /// only failure, and it keeps the offending code.
    pub fn from_code(code: i32) -> (r: Result<PacketType, RconError>)
        ensures
            match r {
                Ok(t) => spec_type_of_code(code) == Some(t),
                Err(e) => spec_type_of_code(code) is None && e == RconError::UnknownPacketType(
                    code,
                ),
            },
    {
        if code == 3 {
            Ok(PacketType::Auth)
        } else if code == 2 {
            Ok(PacketType::AuthResponse)
        } else if code == 0 {
            Ok(PacketType::Response)
        } else {
            Err(RconError::UnknownPacketType(code))
        }
    }
}

/// The mathematical content of a packet: what the codec promises to write
/// and read back.
#[verifier::ext_equal]
pub ghost struct PacketView {
    pub id: i32,
    pub packet_type: PacketType,
    pub body: Option<Seq<char>>,
}

/// A single wire packet: an id chosen by the sender and echoed by its
/// responses, a type, and an optional text body.
#[derive(Debug)]
pub struct Packet {
    id: i32,
    packet_type: PacketType,
    body: Option<String>,
}

impl View for Packet {
    type V = PacketView;

    closed spec fn view(&self) -> PacketView {
        PacketView {
            id: self.id,
            packet_type: self.packet_type,
            body: match self.body {
                Some(s) => Some(s@),
                None => None,
            },
        }
    }
}

/// The UTF-8 bytes of a packet's body; an absent body has none.
pub open spec fn spec_body_bytes(v: PacketView) -> Seq<u8> {
    match v.body {
        Some(chars) => encode_utf8(chars),
        None => Seq::empty(),
    }
}

/// The value of a packet's size field: the byte length of the body plus 10
/// (4 bytes id, 4 bytes type, 2 terminators). The 4 bytes encoding the size
/// itself are not counted.
pub open spec fn spec_size(v: PacketView) -> int {
    spec_body_bytes(v).len() as int + 10
}

/// Whether the packet's size field fits the signed 32 bits the wire gives it.
pub open spec fn size_fits(v: PacketView) -> bool {
    spec_size(v) <= i32::MAX
}

/// The size field as the `i32` the wire carries.
pub open spec fn spec_size_i32(v: PacketView) -> i32
    recommends
        size_fits(v),
{
    spec_size(v) as i32
}

/// The exact byte representation of a packet.
pub open spec fn spec_pack(v: PacketView) -> Seq<u8>
    recommends
        size_fits(v),
{
    le4(spec_size_i32(v)) + le4(v.id) + le4(spec_type_code(v.packet_type)) + spec_body_bytes(v)
        + seq![0u8, 0u8]
}

/// What decoding a buffer yields. The buffer may be longer than the packet
/// it holds (a fixed-capacity read buffer): bytes past the declared body are
/// ignored.
pub open spec fn spec_unpack(buf: Seq<u8>) -> Result<PacketView, RconError> {
    if buf.len() < 12 {
        Err(RconError::MalformedPacketHeader)
    } else {
        let size = from_le4(buf.subrange(0, 4));
        if size < 10 || buf.len() < size - 10 + 12 {
            Err(RconError::MalformedPacketHeader)
        } else {
            let id = from_le4(buf.subrange(4, 8));
            let code = from_le4(buf.subrange(8, 12));
            match spec_type_of_code(code) {
                None => Err(RconError::UnknownPacketType(code)),
                Some(packet_type) => {
                    let body_len = size - 10;
                    if body_len == 0 {
                        Ok(PacketView { id, packet_type, body: None })
                    } else {
                        let body_bytes = buf.subrange(12, 12 + body_len);
                        if valid_utf8(body_bytes) {
                            Ok(
                                PacketView {
                                    id,
                                    packet_type,
                                    body: Some(decode_utf8(body_bytes)),
                                },
                            )
                        } else {
                            Err(RconError::MalformedPacketBody)
                        }
                    }
                }
            }
        }
    }
}

impl Packet {
    /// Creates a packet carrying `body`.
    pub fn new(id: i32, packet_type: PacketType, body: &str) -> (p: Packet)
        ensures
            p@ == (PacketView { id, packet_type, body: Some(body@) }),
    {
        Packet { id, packet_type, body: Some(body.to_owned()) }
    }

    /// The packet's id.
    pub fn id(&self) -> (r: i32)
        ensures
            r == self@.id,
    {
        self.id
    }

    /// The packet's type.
    pub fn packet_type(&self) -> (r: &PacketType)
        ensures
            *r == self@.packet_type,
    {
        &self.packet_type
    }

    /// The packet's body, if it has one.
    pub fn body(&self) -> (r: Option<String>)
        ensures
            match r {
                Some(s) => self@.body == Some(s@),
                None => self@.body is None,
            },
    {
        match &self.body {
            Some(s) => Some(s.clone()),
            None => None,
        }
    }

    /// The value of the packet's size field: the byte length of the body
    /// plus 10, excluding the 4 bytes of the size field itself.
    pub fn size(&self) -> (r: i32)
        requires
            size_fits(self@),
        ensures
            r == spec_size(self@),
            r == spec_body_bytes(self@).len() + 10,
    {
        match &self.body {
            None => 10,
            Some(body) => {
                let n = body.as_str().len();
                (n as i32) + 10
            },
        }
    }

    /// Serializes the packet into its exact byte representation.
    pub fn pack(&self) -> (r: Vec<u8>)
        requires
            size_fits(self@),
        ensures
            r@ == spec_pack(self@),
            r@.len() == spec_size(self@) + 4,
    {
        let mut payload: Vec<u8> = Vec::new();
        push_i32_le(&mut payload, self.size());
        push_i32_le(&mut payload, self.id);
        let type_bytes = self.packet_type.to_le_bytes();
        push_bytes(&mut payload, type_bytes.as_slice());
        match &self.body {
            Some(body) => push_bytes(&mut payload, body.as_str().as_bytes()),
            None => (),
        }
        payload.push(0);
        payload.push(0);
        proof {
            assert(payload@ =~= spec_pack(self@));
        }
        payload
    }

    /// Deserializes a packet from a buffer. The buffer may hold trailing
    /// bytes past the declared body; they are ignored. Every failure is a
    /// typed error: a buffer too short for the header or inconsistent with
    /// its size field, an unknown type code, or a body that is not UTF-8.
    pub fn unpack(incoming: &[u8]) -> (r: Result<Packet, RconError>)
        ensures
            match r {
                Ok(p) => spec_unpack(incoming@) == Ok::<PacketView, RconError>(p@),
                Err(e) => spec_unpack(incoming@) == Err::<PacketView, RconError>(e),
            },
    {
        let n = incoming.len();
        if n < 12 {
            return Err(RconError::MalformedPacketHeader);
        }
        let size = read_i32_at(incoming, 0);
        if size < 10 {
            return Err(RconError::MalformedPacketHeader);
        }
        let body_len = (size - 10) as usize;
        if n < 12 + body_len {
            return Err(RconError::MalformedPacketHeader);
        }
        let id = read_i32_at(incoming, 4);
        let code = read_i32_at(incoming, 8);
        let packet_type = match PacketType::from_code(code) {
            Ok(t) => t,
            Err(e) => {
                return Err(e);
            },
        };
        if body_len == 0 {
            Ok(Packet { id, packet_type, body: None })
        } else {
            let raw_body = vstd::slice::slice_subrange(incoming, 12, 12 + body_len);
            match utf8_to_string(raw_body) {
                Some(s) => Ok(Packet { id, packet_type, body: Some(s) }),
                None => Err(RconError::MalformedPacketBody),
            }
        }
    }
}

/// The body a packet comes back with after one trip over the wire: an empty
/// body is written as no body bytes at all, so it decodes as absent; a
/// non-empty body survives unchanged.
pub open spec fn spec_decoded_body(v: PacketView) -> Option<Seq<char>> {
    match v.body {
        Some(chars) => if chars.len() == 0 {
            None
        } else {
            Some(chars)
        },
        None => None,
    }
}

/// A non-empty character sequence has a non-empty UTF-8 encoding.
proof fn lemma_encode_utf8_nonempty(chars: Seq<char>)
    requires
        chars.len() > 0,
    ensures
        encode_utf8(chars).len() > 0,
{
    assert(encode_utf8(chars) == encode_scalar(chars[0] as u32) + encode_utf8(
        chars.drop_first(),
    ));
}

/// Encoding a packet and decoding the bytes always succeeds and gives back
/// the packet up to what the wire can carry: the id survives exactly, the
/// type survives except that `Exec` collapses into `AuthResponse` (they
/// share a wire code), and the body survives except that an empty body
/// comes back as no body.
pub proof fn lemma_unpack_pack(v: PacketView)
    requires
        size_fits(v),
    ensures
        spec_unpack(spec_pack(v)) == Ok::<PacketView, RconError>(
            PacketView {
                id: v.id,
                packet_type: spec_decoded_type(v.packet_type),
                body: spec_decoded_body(v),
            },
        ),
{
    let buf = spec_pack(v);
    let bb = spec_body_bytes(v);
    let n = bb.len() as int;
    crate::wire::lemma_le4_roundtrip(spec_size_i32(v));
    crate::wire::lemma_le4_roundtrip(v.id);
    crate::wire::lemma_le4_roundtrip(spec_type_code(v.packet_type));
    assert(buf.len() == n + 14);
    assert(buf.subrange(0, 4) =~= le4(spec_size_i32(v)));
    assert(buf.subrange(4, 8) =~= le4(v.id));
    assert(buf.subrange(8, 12) =~= le4(spec_type_code(v.packet_type)));
    assert(from_le4(buf.subrange(0, 4)) == n + 10);
    assert(spec_type_of_code(spec_type_code(v.packet_type)) == Some(
        spec_decoded_type(v.packet_type),
    ));
    if n == 0 {
        assert(spec_decoded_body(v) is None) by {
            if v.body is Some {
                if v.body.unwrap().len() > 0 {
                    lemma_encode_utf8_nonempty(v.body.unwrap());
                }
            }
        }
        assert(spec_unpack(buf) == Ok::<PacketView, RconError>(
            PacketView {
                id: v.id,
                packet_type: spec_decoded_type(v.packet_type),
                body: spec_decoded_body(v),
            },
        ));
    } else {
        let chars = v.body.unwrap();
        assert(bb == encode_utf8(chars));
        assert(buf.subrange(12, 12 + n) =~= bb);
        vstd::utf8::encode_utf8_valid_utf8(chars);
        vstd::utf8::encode_utf8_decode_utf8(chars);
        assert(chars.len() > 0);
        assert(spec_decoded_body(v) == Some(chars));
        assert(spec_unpack(buf) == Ok::<PacketView, RconError>(
            PacketView {
                id: v.id,
                packet_type: spec_decoded_type(v.packet_type),
                body: spec_decoded_body(v),
            },
        ));
    }
}

/// Round trip: decoding an encoded packet reproduces the original id, type
/// and body exactly, for every packet whose type and body the wire can
/// represent faithfully — any id, any type but `Exec` (whose wire code is
/// the one `AuthResponse` is read as), and a non-empty body (an empty one
/// is written as no body bytes, so it comes back absent).
pub proof fn lemma_round_trip(v: PacketView)
    requires
        size_fits(v),
        v.packet_type != PacketType::Exec,
        v.body matches Some(chars) && chars.len() > 0,
    ensures
        spec_unpack(spec_pack(v)) == Ok::<PacketView, RconError>(v),
{
    lemma_unpack_pack(v);
    assert(PacketView {
        id: v.id,
        packet_type: spec_decoded_type(v.packet_type),
        body: spec_decoded_body(v),
    } =~= v);
}

/// Size invariant: the size field of every encoded packet reads back as
/// the byte length of the body plus 10.
pub proof fn lemma_packed_size_field(v: PacketView)
    requires
        size_fits(v),
    ensures
        from_le4(spec_pack(v).subrange(0, 4)) == spec_body_bytes(v).len() + 10,
{
    assert(spec_pack(v).subrange(0, 4) =~= le4(spec_size_i32(v)));
    crate::wire::lemma_le4_roundtrip(spec_size_i32(v));
}

/// A packet with no body, or with an empty one, has size field 10 and
/// decodes with no body content.
pub proof fn lemma_minimal_packet(v: PacketView)
    requires
        v.body is None || v.body == Some(Seq::<char>::empty()),
    ensures
        spec_size(v) == 10,
        spec_unpack(spec_pack(v)) == Ok::<PacketView, RconError>(
            PacketView { id: v.id, packet_type: spec_decoded_type(v.packet_type), body: None },
        ),
{
    assert(spec_body_bytes(v).len() == 0);
    lemma_unpack_pack(v);
}

/// Type ambiguity: wire code 2 always decodes as `AuthResponse`, never as
/// `Exec` — no decoded packet has type `Exec`, whatever the buffer holds.
pub proof fn lemma_decode_prefers_auth_response(buf: Seq<u8>)
    ensures
        spec_type_of_code(2) == Some(PacketType::AuthResponse),
        spec_unpack(buf) matches Ok(p) ==> p.packet_type != PacketType::Exec,
{
}

/// Malformed header: a buffer shorter than the 12 header bytes fails to
/// decode with a header error.
pub proof fn lemma_short_buffer_fails(buf: Seq<u8>)
    requires
        buf.len() < 12,
    ensures
        spec_unpack(buf) == Err::<PacketView, RconError>(RconError::MalformedPacketHeader),
{
}

/// Malformed body: when a well-formed header declares a non-empty body of a
/// known type but the body bytes are not valid UTF-8, decoding fails with a
/// body error — it never yields a packet holding part of the body.
pub proof fn lemma_invalid_utf8_fails(buf: Seq<u8>)
    requires
        buf.len() >= 12,
        from_le4(buf.subrange(0, 4)) > 10,
        buf.len() >= from_le4(buf.subrange(0, 4)) + 2,
        spec_type_of_code(from_le4(buf.subrange(8, 12))) is Some,
        !valid_utf8(buf.subrange(12, from_le4(buf.subrange(0, 4)) + 2)),
    ensures
        spec_unpack(buf) == Err::<PacketView, RconError>(RconError::MalformedPacketBody),
{
    let size = from_le4(buf.subrange(0, 4));
    assert(buf.subrange(12, 12 + (size - 10)) =~= buf.subrange(12, size + 2));
}

/// Reads the `i32` written little-endian at byte offset `off` of `buf`.
fn read_i32_at(buf: &[u8], off: usize) -> (v: i32)
    requires
        off + 4 <= buf@.len(),
    ensures
        v == from_le4(buf@.subrange(off as int, off as int + 4)),
{
    let v = decode_i32_le(buf[off], buf[off + 1], buf[off + 2], buf[off + 3]);
    proof {
        assert(seq![
            buf@[off as int],
            buf@[off as int + 1],
            buf@[off as int + 2],
            buf@[off as int + 3],
        ] =~= buf@.subrange(off as int, off as int + 4));
    }
    v
}

} // verus!

