//! Little-endian encoding of the signed 32-bit header fields, and the one
//! step of decoding that Verus cannot check itself: turning body bytes back
//! into UTF-8 text.
use vstd::prelude::*;
use vstd::utf8::{decode_utf8, valid_utf8};

verus! {

/// The unsigned reading of an `i32`'s two's-complement bits.
pub open spec fn u32_of_i32(v: i32) -> u32 {
    if v >= 0 {
        v as u32
    } else {
        (v + 0x1_0000_0000) as u32
    }
}

/// The signed reading of a `u32`'s bits as two's complement.
pub open spec fn i32_of_u32(u: u32) -> i32 {
    if u <= 0x7fff_ffff {
        u as i32
    } else {
        (u - 0x1_0000_0000) as i32
    }
}

/// The four little-endian bytes of an `i32`, as the wire format writes every
/// header field.
pub open spec fn le4(v: i32) -> Seq<u8> {
    let u = u32_of_i32(v) as int;
    seq![
        (u % 256) as u8,
        ((u / 256) % 256) as u8,
        ((u / 65536) % 256) as u8,
        ((u / 16777216) % 256) as u8,
    ]
}

/// The `i32` written little-endian in the four given bytes.
pub open spec fn from_le4(b: Seq<u8>) -> i32
    recommends
        b.len() == 4,
{
    i32_of_u32((b[0] + b[1] * 256 + b[2] * 65536 + b[3] * 16777216) as u32)
}

/// The two signed/unsigned readings invert each other.
pub(crate) proof fn lemma_signed_unsigned_roundtrip(v: i32)
    ensures
        i32_of_u32(u32_of_i32(v)) == v,
{
}

/// Writing an `i32` little-endian and reading the four bytes back gives the
/// original value.
pub proof fn lemma_le4_roundtrip(v: i32)
    ensures
        from_le4(le4(v)) == v,
{
    let u = u32_of_i32(v) as int;
    assert(u == (u % 256) + ((u / 256) % 256) * 256 + ((u / 65536) % 256) * 65536 + ((u
        / 16777216) % 256) * 16777216) by (nonlinear_arith)
        requires
            0 <= u < 0x1_0000_0000,
    ;
    lemma_signed_unsigned_roundtrip(v);
}

/// Converts an `i32` to the `u32` with the same bits.
pub(crate) fn i32_to_unsigned(v: i32) -> (u: u32)
    ensures
        u == u32_of_i32(v),
{
    if v >= 0 {
        v as u32
    } else {
        ((v as i64) + 0x1_0000_0000i64) as u32
    }
}

/// Converts a `u32` to the `i32` with the same bits.
pub(crate) fn unsigned_to_i32(u: u32) -> (v: i32)
    ensures
        v == i32_of_u32(u),
{
    if u <= 0x7fff_ffff {
        u as i32
    } else {
        ((u as i64) - 0x1_0000_0000i64) as i32
    }
}

/// Appends the four little-endian bytes of `v` to `out`.
pub(crate) fn push_i32_le(out: &mut Vec<u8>, v: i32)
    ensures
        final(out)@ == old(out)@ + le4(v),
{
    let u = i32_to_unsigned(v);
    out.push((u % 256) as u8);
    out.push(((u / 256) % 256) as u8);
    out.push(((u / 65536) % 256) as u8);
    out.push(((u / 16777216) % 256) as u8);
    proof {
        assert(out@ =~= old(out)@ + le4(v));
    }
}

/// Reads the `i32` written little-endian in four bytes.
pub(crate) fn decode_i32_le(b0: u8, b1: u8, b2: u8, b3: u8) -> (v: i32)
    ensures
        v == from_le4(seq![b0, b1, b2, b3]),
{
    let x: u32 = (b0 as u32) + (b1 as u32) * 256 + (b2 as u32) * 65536 + (b3 as u32) * 16777216;
    unsigned_to_i32(x)
}

/// Appends every byte of `bytes` to `out`, in order.
pub(crate) fn push_bytes(out: &mut Vec<u8>, bytes: &[u8])
    ensures
        final(out)@ == old(out)@ + bytes@,
{
    let n = bytes.len();
    let mut i: usize = 0;
    while i < n
        invariant
            n == bytes@.len(),
            i <= n,
            out@ == old(out)@ + bytes@.subrange(0, i as int),
        decreases n - i,
    {
        out.push(bytes[i]);
        i = i + 1;
        proof {
            assert(out@ =~= old(out)@ + bytes@.subrange(0, i as int));
        }
    }
    proof {
        assert(out@ =~= old(out)@ + bytes@);
    }
}

/// Relies on core::str::from_utf8: it returns `Ok` exactly when the bytes
/// are valid UTF-8, and the string it returns is the one those bytes encode.
#[verifier::external_body]
pub(crate) fn utf8_to_string(bytes: &[u8]) -> (r: Option<String>)
    ensures
        match r {
            Some(s) => valid_utf8(bytes@) && s@ == decode_utf8(bytes@),
            None => !valid_utf8(bytes@),
        },
{
    match core::str::from_utf8(bytes) {
        Ok(s) => Some(s.to_string()),
        Err(_) => None,
    }
}

} // verus!
