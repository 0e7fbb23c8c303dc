//! Canonical byte encoding primitives and the content hash.
//!
//! Every composite entity of the library is encoded by concatenating these
//! primitives, so the encoding of a value is a pure function of the value:
//! the `enc_*` spec functions say exactly which bytes each `emit_*` function
//! appends.  Content ids are the FNV-1a digest of an entity's canonical
//! encoding.

use vstd::prelude::*;
use vstd::string::StrSliceExecFns;
use crate::uint256::U256;

verus! {

pub const FNV_OFFSET_BASIS: u64 = 0xcbf2_9ce4_8422_2325;

pub const FNV_PRIME: u64 = 0x0000_0100_0000_01b3;

/// Bytes of an 8-bit value.
pub open spec fn enc_u8(x: u8) -> Seq<u8> {
    seq![x]
}

/// Little-endian bytes of a 16-bit value.
pub open spec fn enc_u16(x: u16) -> Seq<u8> {
    seq![(x & 0xff) as u8, ((x >> 8) & 0xff) as u8]
}

/// Little-endian bytes of a 32-bit value.
pub open spec fn enc_u32(x: u32) -> Seq<u8> {
    seq![
        (x & 0xff) as u8,
        ((x >> 8) & 0xff) as u8,
        ((x >> 16) & 0xff) as u8,
        ((x >> 24) & 0xff) as u8,
    ]
}

/// Little-endian bytes of a 64-bit value.
pub open spec fn enc_u64(x: u64) -> Seq<u8> {
    seq![
        (x & 0xff) as u8,
        ((x >> 8) & 0xff) as u8,
        ((x >> 16) & 0xff) as u8,
        ((x >> 24) & 0xff) as u8,
        ((x >> 32) & 0xff) as u8,
        ((x >> 40) & 0xff) as u8,
        ((x >> 48) & 0xff) as u8,
        ((x >> 56) & 0xff) as u8,
    ]
}

/// Little-endian bytes of a 128-bit value.
pub open spec fn enc_u128(x: u128) -> Seq<u8> {
    enc_u64((x & 0xffff_ffff_ffff_ffff) as u64) + enc_u64((x >> 64) as u64)
}

/// Bytes of a 256-bit value: lower half first.
pub open spec fn enc_u256(x: U256) -> Seq<u8> {
    enc_u128(x.lo) + enc_u128(x.hi)
}

/// A boolean as one byte, `0` or `1`.
pub open spec fn enc_bool(b: bool) -> Seq<u8> {
    if b {
        seq![1u8]
    } else {
        seq![0u8]
    }
}

/// A character as its Unicode scalar value, four bytes little-endian.
pub open spec fn enc_char(c: char) -> Seq<u8> {
    enc_u32(c as u32)
}

/// The characters of a string, each as four bytes.
pub open spec fn enc_chars(s: Seq<char>) -> Seq<u8>
    decreases s.len(),
{
    if s.len() == 0 {
        Seq::empty()
    } else {
        enc_chars(s.drop_last()) + enc_char(s.last())
    }
}

/// A string: character count, then each character.
pub open spec fn enc_str(s: Seq<char>) -> Seq<u8> {
    enc_u64(s.len() as u64) + enc_chars(s)
}

/// An optional 64-bit value: a presence byte, then the value if present.
pub open spec fn enc_opt_u64(x: Option<u64>) -> Seq<u8> {
    match x {
        Option::None => seq![0u8],
        Option::Some(v) => seq![1u8] + enc_u64(v),
    }
}

/// The FNV-1a digest of a byte sequence.
pub open spec fn fnv1a(s: Seq<u8>) -> u64
    decreases s.len(),
{
    if s.len() == 0 {
        FNV_OFFSET_BASIS
    } else {
        (((fnv1a(s.drop_last()) ^ (s.last() as u64)) * FNV_PRIME)
            % 0x1_0000_0000_0000_0000) as u64
    }
}

/// Appends one byte.
pub fn emit_u8(out: &mut Vec<u8>, x: u8)
    ensures
        final(out)@ == old(out)@ + enc_u8(x),
{
    out.push(x);
    assert(final(out)@ =~= old(out)@ + enc_u8(x));
}

/// Appends a 16-bit value, little-endian.
pub fn emit_u16(out: &mut Vec<u8>, x: u16)
    ensures
        final(out)@ == old(out)@ + enc_u16(x),
{
    out.push((x & 0xff) as u8);
    out.push(((x >> 8) & 0xff) as u8);
    assert(final(out)@ =~= old(out)@ + enc_u16(x));
}

/// Appends a 32-bit value, little-endian.
pub fn emit_u32(out: &mut Vec<u8>, x: u32)
    ensures
        final(out)@ == old(out)@ + enc_u32(x),
{
    out.push((x & 0xff) as u8);
    out.push(((x >> 8) & 0xff) as u8);
    out.push(((x >> 16) & 0xff) as u8);
    out.push(((x >> 24) & 0xff) as u8);
    assert(final(out)@ =~= old(out)@ + enc_u32(x));
}

/// Appends a 64-bit value, little-endian.
pub fn emit_u64(out: &mut Vec<u8>, x: u64)
    ensures
        final(out)@ == old(out)@ + enc_u64(x),
{
    out.push((x & 0xff) as u8);
    out.push(((x >> 8) & 0xff) as u8);
    out.push(((x >> 16) & 0xff) as u8);
    out.push(((x >> 24) & 0xff) as u8);
    out.push(((x >> 32) & 0xff) as u8);
    out.push(((x >> 40) & 0xff) as u8);
    out.push(((x >> 48) & 0xff) as u8);
    out.push(((x >> 56) & 0xff) as u8);
    assert(final(out)@ =~= old(out)@ + enc_u64(x));
}

/// Appends a 128-bit value, little-endian.
pub fn emit_u128(out: &mut Vec<u8>, x: u128)
    ensures
        final(out)@ == old(out)@ + enc_u128(x),
{
    emit_u64(out, (x & 0xffff_ffff_ffff_ffff) as u64);
    emit_u64(out, (x >> 64) as u64);
    assert(final(out)@ =~= old(out)@ + enc_u128(x));
}

/// Appends a 256-bit value, lower half first.
pub fn emit_u256(out: &mut Vec<u8>, x: U256)
    ensures
        final(out)@ == old(out)@ + enc_u256(x),
{
    emit_u128(out, x.lo);
    emit_u128(out, x.hi);
    assert(final(out)@ =~= old(out)@ + enc_u256(x));
}

/// Appends a boolean as one byte.
pub fn emit_bool(out: &mut Vec<u8>, b: bool)
    ensures
        final(out)@ == old(out)@ + enc_bool(b),
{
    if b {
        out.push(1u8);
    } else {
        out.push(0u8);
    }
    assert(final(out)@ =~= old(out)@ + enc_bool(b));
}

/// Appends a string: character count, then each character.
pub fn emit_str(out: &mut Vec<u8>, s: &str)
    ensures
        final(out)@ == old(out)@ + enc_str(s@),
{
    let n: usize = s.unicode_len();
    emit_u64(out, n as u64);
    let ghost base: Seq<u8> = out@;
    let mut i: usize = 0;
    while i < n
        invariant
            i <= n,
            n == s@.len(),
            out@ == base + enc_chars(s@.take(i as int)),
        decreases n - i,
    {
        let c: char = s.get_char(i);
        emit_u32(out, c as u32);
        proof {
            assert(s@.take(i + 1 as int).drop_last() =~= s@.take(i as int));
            assert(s@.take(i + 1 as int).last() == s@[i as int]);
            assert(out@ =~= base + enc_chars(s@.take(i + 1 as int)));
        }
        i = i + 1;
    }
    proof {
        assert(s@.take(n as int) =~= s@);
        assert(final(out)@ =~= old(out)@ + enc_str(s@));
    }
}

/// Appends an optional 64-bit value.
pub fn emit_opt_u64(out: &mut Vec<u8>, x: &Option<u64>)
    ensures
        final(out)@ == old(out)@ + enc_opt_u64(*x),
{
    match x {
        Option::None => {
            out.push(0u8);
        },
        Option::Some(v) => {
            out.push(1u8);
            emit_u64(out, *v);
        },
    }
    assert(final(out)@ =~= old(out)@ + enc_opt_u64(*x));
}

/// Appends raw bytes unchanged.
pub fn emit_bytes(out: &mut Vec<u8>, v: &Vec<u8>)
    ensures
        final(out)@ == old(out)@ + v@,
{
    let ghost base: Seq<u8> = out@;
    let mut i: usize = 0;
    while i < v.len()
        invariant
            i <= v@.len(),
            out@ == base + v@.take(i as int),
        decreases v@.len() - i,
    {
        out.push(v[i]);
        proof {
            assert(out@ =~= base + v@.take(i + 1 as int));
        }
        i = i + 1;
    }
    proof {
        assert(v@.take(v@.len() as int) =~= v@);
    }
}

/// The FNV-1a digest of a byte vector.
pub fn fnv1a_hash(bytes: &Vec<u8>) -> (r: u64)
    ensures
        r == fnv1a(bytes@),
{
    let mut h: u64 = FNV_OFFSET_BASIS;
    let mut i: usize = 0;
    while i < bytes.len()
        invariant
            i <= bytes@.len(),
            h == fnv1a(bytes@.take(i as int)),
        decreases bytes@.len() - i,
    {
        let b: u8 = bytes[i];
        h = (h ^ (b as u64)).wrapping_mul(FNV_PRIME);
        proof {
            assert(bytes@.take(i + 1 as int).drop_last() =~= bytes@.take(i as int));
            assert(bytes@.take(i + 1 as int).last() == bytes@[i as int]);
        }
        i = i + 1;
    }
    proof {
        assert(bytes@.take(bytes@.len() as int) =~= bytes@);
    }
    h
}

/// Whether two byte vectors hold the same bytes.
pub fn bytes_eq(a: &Vec<u8>, b: &Vec<u8>) -> (r: bool)
    ensures
        r == (a@ == b@),
{
    if a.len() != b.len() {
        assert(a@ != b@);
        return false;
    }
    let mut i: usize = 0;
    while i < a.len()
        invariant
            i <= a@.len(),
            a@.len() == b@.len(),
            forall|j: int| 0 <= j < i ==> a@[j] == b@[j],
        decreases a@.len() - i,
    {
        if a[i] != b[i] {
            return false;
        }
        i = i + 1;
    }
    proof {
        assert(a@ =~= b@);
    }
    true
}

} // verus!
