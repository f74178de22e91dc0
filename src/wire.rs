//! Little-endian 32-bit signed fields, the unit every frame is built from.

use vstd::prelude::*;

verus! {

/// Width in bytes of one field of a frame.
pub const FIELD_LEN: usize = 4;

/// The unsigned value of the first four bytes of `b`, least significant first.
pub open spec fn le_u32_value(b: Seq<u8>) -> int {
    b[0] + 256 * b[1] + 65536 * b[2] + 16777216 * b[3]
}

/// The two's-complement reading of the first four bytes of `b`, least
/// significant first: the value of a field on the wire.
pub open spec fn le_i32(b: Seq<u8>) -> i32 {
    if b[3] < 128 {
        le_u32_value(b) as i32
    } else {
        (le_u32_value(b) - 0x1_0000_0000) as i32
    }
}

/// The four bytes that carry `v` on the wire, least significant first.
pub open spec fn i32_le_bytes(v: i32) -> Seq<u8> {
    let u: int = if v < 0 { v + 0x1_0000_0000 } else { v as int };
    seq![
        (u % 256) as u8,
        ((u / 256) % 256) as u8,
        ((u / 65536) % 256) as u8,
        (u / 16777216) as u8,
    ]
}

/// Reading back the bytes written for `v` gives `v`.
pub proof fn lemma_i32_le_round_trip(v: i32)
    ensures
        i32_le_bytes(v).len() == 4,
        le_i32(i32_le_bytes(v)) == v,
{
    let u: int = if v < 0 { v + 0x1_0000_0000 } else { v as int };
    assert(0 <= u < 0x1_0000_0000);
    assert(u == u % 256 + 256 * ((u / 256) % 256) + 65536 * ((u / 65536) % 256) + 16777216 * (u / 16777216)) by (nonlinear_arith)
        requires 0 <= u < 0x1_0000_0000;
    assert(u / 16777216 < 128 <==> v >= 0) by (nonlinear_arith)
        requires 0 <= u < 0x1_0000_0000, u == (if v < 0 { v + 0x1_0000_0000 } else { v as int }), i32::MIN <= v <= i32::MAX;
}

/// Relies on byteorder's `LittleEndian::read_i32`: it reads the first four
/// bytes of `buf` as a little-endian two's-complement integer, and panics
/// only when `buf` is shorter than four bytes.
#[verifier::external_body]
fn read_le_i32(buf: &[u8]) -> (r: i32)
    requires
        buf@.len() >= 4,
    ensures
        r == le_i32(buf@),
{
    <byteorder::LittleEndian as byteorder::ByteOrder>::read_i32(buf)
}

/// The field that starts at byte `at` of `buf`.
pub fn field_at(buf: &[u8], at: usize) -> (r: i32)
    requires
        at + FIELD_LEN <= buf@.len(),
    ensures
        r == le_i32(buf@.subrange(at as int, at + 4)),
{
    let len: usize = buf.len();
    assert(at + FIELD_LEN <= len);
    read_le_i32(vstd::slice::slice_subrange(buf, at, at + FIELD_LEN))
}

/// The four bytes that carry `v` on the wire.
pub fn encode_i32(v: i32) -> (r: Vec<u8>)
    ensures
        r@ == i32_le_bytes(v),
{
    let u: i64 = if v < 0 { v as i64 + 0x1_0000_0000 } else { v as i64 };
    let mut r: Vec<u8> = Vec::new();
    r.push((u % 256) as u8);
    r.push(((u / 256) % 256) as u8);
    r.push(((u / 65536) % 256) as u8);
    r.push((u / 16777216) as u8);
    assert(r@ =~= i32_le_bytes(v));
    r
}

} // verus!
