//! Corruption detection of the canonical encoding.
//!
//! Every step of the FNV-1a digest is a bijection of the running state:
//! xor with a byte is invertible, and multiplying by the odd FNV prime is
//! invertible modulo 2^64.  Two byte sequences of equal length that differ
//! in exactly one byte therefore never share a digest, and because the
//! canonical Schema encoding ends with a digest of its whole body, two
//! Schemas' encodings can never differ in exactly one byte.  Together with
//! the decoder's guarantee that a decoded Schema re-encodes to exactly the
//! input, flipping a single byte of a stored encoding can never decode to
//! a different Schema.

use vstd::prelude::*;
use vstd::arithmetic::div_mod::{
    lemma_mod_bound, lemma_mod_multiples_vanish, lemma_mul_mod_noop_left,
    lemma_mul_mod_noop_right, lemma_small_mod,
};
use vstd::arithmetic::mul::lemma_mul_is_associative;
use crate::codex::codex_id_spec;
use crate::encode::{enc_u64, fnv1a, FNV_PRIME};
use crate::schema::{enc_schema, enc_schema_body, schema_id_spec, Schema};

verus! {

/// The multiplicative inverse of the FNV prime modulo 2^64.
pub const FNV_PRIME_INV: u64 = 0xce96_5057_aff6_957b;

/// Multiplying by the FNV prime can be undone modulo 2^64.
proof fn lemma_mul_prime_recover(x: u64)
    ensures
        ((x * FNV_PRIME) % 0x1_0000_0000_0000_0000) * FNV_PRIME_INV % 0x1_0000_0000_0000_0000
            == x,
{
    let m: int = 0x1_0000_0000_0000_0000;
    let p: int = FNV_PRIME as int;
    let q: int = FNV_PRIME_INV as int;
    assert(0x0000_0100_0000_01b3 * 0xce96_5057_aff6_957b
        == 0xce_9650_590f_0000_0000_0000_0001) by (nonlinear_arith);
    assert(p * q == 0xce_9650_590f_0000_0000_0000_0001);
    lemma_mod_multiples_vanish(0xce_9650_590f, 1, m);
    lemma_small_mod(1nat, m as nat);
    assert(p * q % m == 1);
    lemma_mul_mod_noop_left(x * p, q, m);
    lemma_mul_is_associative(x as int, p, q);
    lemma_mul_mod_noop_right(x as int, p * q, m);
    lemma_small_mod(x as nat, m as nat);
}

/// Multiplication by the FNV prime is injective modulo 2^64.
proof fn lemma_mul_prime_injective(x: u64, y: u64)
    requires
        (x * FNV_PRIME) % 0x1_0000_0000_0000_0000 == (y * FNV_PRIME) % 0x1_0000_0000_0000_0000,
    ensures
        x == y,
{
    lemma_mul_prime_recover(x);
    lemma_mul_prime_recover(y);
}

/// One digest step, as the mathematical value of the new state.
spec fn fnv_step(h: u64, b: u8) -> int {
    ((h ^ (b as u64)) * FNV_PRIME) % 0x1_0000_0000_0000_0000
}

/// A digest step with the same byte keeps distinct states distinct.
proof fn lemma_step_injective_state(h1: u64, h2: u64, b: u8)
    requires
        h1 != h2,
    ensures
        fnv_step(h1, b) != fnv_step(h2, b),
{
    let x1: u64 = h1 ^ (b as u64);
    let x2: u64 = h2 ^ (b as u64);
    assert(x1 != x2) by (bit_vector)
        requires
            h1 != h2,
            x1 == h1 ^ (b as u64),
            x2 == h2 ^ (b as u64),
    ;
    if fnv_step(h1, b) == fnv_step(h2, b) {
        lemma_mul_prime_injective(x1, x2);
    }
}

/// A digest step from the same state keeps distinct bytes distinct.
proof fn lemma_step_injective_byte(h: u64, b1: u8, b2: u8)
    requires
        b1 != b2,
    ensures
        fnv_step(h, b1) != fnv_step(h, b2),
{
    let x1: u64 = h ^ (b1 as u64);
    let x2: u64 = h ^ (b2 as u64);
    assert(x1 != x2) by (bit_vector)
        requires
            b1 != b2,
            x1 == h ^ (b1 as u64),
            x2 == h ^ (b2 as u64),
    ;
    if fnv_step(h, b1) == fnv_step(h, b2) {
        lemma_mul_prime_injective(x1, x2);
    }
}

/// The digest of a non-empty sequence is its last step, within range.
proof fn lemma_fnv_unfold(s: Seq<u8>)
    requires
        s.len() > 0,
    ensures
        fnv1a(s) == fnv_step(fnv1a(s.drop_last()), s.last()),
        0 <= fnv_step(fnv1a(s.drop_last()), s.last()) < 0x1_0000_0000_0000_0000,
{
    lemma_mod_bound((fnv1a(s.drop_last()) ^ (s.last() as u64)) * FNV_PRIME as int,
        0x1_0000_0000_0000_0000);
}

/// Two equally long byte sequences that differ in exactly one byte never
/// share a digest.
pub proof fn lemma_fnv_detects_single_change(s1: Seq<u8>, s2: Seq<u8>, k: int)
    requires
        s1.len() == s2.len(),
        0 <= k < s1.len(),
        s1[k] != s2[k],
        forall|i: int| 0 <= i < s1.len() && i != k ==> s1[i] == s2[i],
    ensures
        fnv1a(s1) != fnv1a(s2),
    decreases s1.len(),
{
    let n = s1.len() as int;
    lemma_fnv_unfold(s1);
    lemma_fnv_unfold(s2);
    if k == n - 1 {
        assert(s1.drop_last() =~= s2.drop_last());
        lemma_step_injective_byte(fnv1a(s1.drop_last()), s1.last(), s2.last());
    } else {
        assert(forall|i: int| 0 <= i < n - 1 && i != k ==> s1.drop_last()[i]
            == s2.drop_last()[i]);
        assert(s1.drop_last()[k] != s2.drop_last()[k]);
        lemma_fnv_detects_single_change(s1.drop_last(), s2.drop_last(), k);
        assert(s1.last() == s2.last());
        lemma_step_injective_state(fnv1a(s1.drop_last()), fnv1a(s2.drop_last()), s1.last());
    }
}

/// The eight bytes of a 64-bit value determine it.
proof fn lemma_enc_u64_injective(x: u64, y: u64)
    requires
        enc_u64(x) == enc_u64(y),
    ensures
        x == y,
{
    assert(enc_u64(x)[0] == enc_u64(y)[0]);
    assert(enc_u64(x)[1] == enc_u64(y)[1]);
    assert(enc_u64(x)[2] == enc_u64(y)[2]);
    assert(enc_u64(x)[3] == enc_u64(y)[3]);
    assert(enc_u64(x)[4] == enc_u64(y)[4]);
    assert(enc_u64(x)[5] == enc_u64(y)[5]);
    assert(enc_u64(x)[6] == enc_u64(y)[6]);
    assert(enc_u64(x)[7] == enc_u64(y)[7]);
    assert((((x & 0xff) as u8) == ((y & 0xff) as u8) && (((x >> 8) & 0xff) as u8) == (((y >> 8)
        & 0xff) as u8) && (((x >> 16) & 0xff) as u8) == (((y >> 16) & 0xff) as u8) && (((x >> 24)
        & 0xff) as u8) == (((y >> 24) & 0xff) as u8) && (((x >> 32) & 0xff) as u8) == (((y >> 32)
        & 0xff) as u8) && (((x >> 40) & 0xff) as u8) == (((y >> 40) & 0xff) as u8) && (((x >> 48)
        & 0xff) as u8) == (((y >> 48) & 0xff) as u8) && (((x >> 56) & 0xff) as u8) == (((y >> 56)
        & 0xff) as u8)) ==> x == y) by (bit_vector);
}

/// Equal byte sequences that both start with two 64-bit blocks start
/// with the same two values.
proof fn lemma_leading_u64_pair(x: Seq<u8>, y: Seq<u8>, a1: u64, b1: u64, a2: u64, b2: u64)
    requires
        x == enc_u64(a1) + enc_u64(b1) + x.subrange(16, x.len() as int),
        y == enc_u64(a2) + enc_u64(b2) + y.subrange(16, y.len() as int),
        x == y,
    ensures
        a1 == a2,
        b1 == b2,
{
    assert(enc_u64(a1) =~= x.subrange(0, 8));
    assert(enc_u64(a2) =~= y.subrange(0, 8));
    assert(enc_u64(b1) =~= x.subrange(8, 16));
    assert(enc_u64(b2) =~= y.subrange(8, 16));
    lemma_enc_u64_injective(a1, a2);
    lemma_enc_u64_injective(b1, b2);
}

/// The canonical encoding starts with the stored Codex id and schema id.
proof fn lemma_enc_schema_leading_ids(s: Schema)
    ensures
        enc_schema(s) == enc_u64(codex_id_spec(s.codex)) + enc_u64(schema_id_spec(s))
            + enc_schema(s).subrange(16, enc_schema(s).len() as int),
{
    assert(enc_schema(s) =~= enc_u64(codex_id_spec(s.codex)) + enc_u64(schema_id_spec(s))
        + enc_schema(s).subrange(16, enc_schema(s).len() as int));
}

/// Identity rides with the bytes: two Schemas with the same canonical
/// encoding have the same derived Codex id and the same derived schema
/// id, so independent verifiers that re-parse the same artifact agree on
/// its identity.
pub proof fn lemma_equal_encodings_equal_identity(s1: Schema, s2: Schema)
    requires
        enc_schema(s1) == enc_schema(s2),
    ensures
        codex_id_spec(s1.codex) == codex_id_spec(s2.codex),
        schema_id_spec(s1) == schema_id_spec(s2),
{
    lemma_enc_schema_leading_ids(s1);
    lemma_enc_schema_leading_ids(s2);
    lemma_leading_u64_pair(
        enc_schema(s1),
        enc_schema(s2),
        codex_id_spec(s1.codex),
        schema_id_spec(s1),
        codex_id_spec(s2.codex),
        schema_id_spec(s2),
    );
}

/// A single corrupted byte never turns the canonical encoding of one
/// Schema into the canonical encoding of another: two encodings of equal
/// length that differ at all differ in at least two byte positions.  The
/// decoder accepts only exact canonical encodings, so flipping one byte
/// of a stored Schema can never decode to a different valid Schema.
#[verifier::rlimit(100)]
pub proof fn lemma_single_byte_corruption_detected(s1: Schema, s2: Schema)
    requires
        enc_schema(s1).len() == enc_schema(s2).len(),
        enc_schema(s1) != enc_schema(s2),
    ensures
        exists|i: int, j: int|
            0 <= i < j < enc_schema(s1).len() && enc_schema(s1)[i] != enc_schema(s2)[i]
                && enc_schema(s1)[j] != enc_schema(s2)[j],
{
    let enc1 = enc_schema(s1);
    let enc2 = enc_schema(s2);
    let n = enc1.len() as int;
    if forall|i: int| 0 <= i < n ==> enc1[i] == enc2[i] {
        assert(enc1 =~= enc2);
    }
    let k = choose|k: int| 0 <= k < n && enc1[k] != enc2[k];
    if forall|j: int| 0 <= j < n && j != k ==> enc1[j] == enc2[j] {
        let body1 = enc_schema_body(s1);
        let body2 = enc_schema_body(s2);
        let m = body1.len() as int;
        assert(enc1 == body1 + enc_u64(fnv1a(body1)));
        assert(enc2 == body2 + enc_u64(fnv1a(body2)));
        assert(body2.len() == m);
        if k < m {
            assert(enc_u64(fnv1a(body1)) =~= enc_u64(fnv1a(body2))) by {
                assert(forall|j: int| 0 <= j < 8 ==> enc_u64(fnv1a(body1))[j] == enc1[m + j]);
                assert(forall|j: int| 0 <= j < 8 ==> enc_u64(fnv1a(body2))[j] == enc2[m + j]);
                assert(forall|j: int| 0 <= j < 8 ==> #[trigger] enc1[m + j] == enc2[m + j]);
            }
            lemma_enc_u64_injective(fnv1a(body1), fnv1a(body2));
            assert(forall|i: int| 0 <= i < m && i != k ==> body1[i] == body2[i]) by {
                assert(forall|i: int| 0 <= i < m ==> body1[i] == enc1[i]);
                assert(forall|i: int| 0 <= i < m ==> body2[i] == enc2[i]);
            }
            assert(body1[k] == enc1[k] && body2[k] == enc2[k]);
            lemma_fnv_detects_single_change(body1, body2, k);
        } else {
            assert(body1 =~= body2) by {
                assert(forall|i: int| 0 <= i < m ==> body1[i] == enc1[i] && body2[i] == enc2[i]
                    && i != k);
            }
            assert(enc1[k] == enc_u64(fnv1a(body1))[k - m]);
            assert(enc2[k] == enc_u64(fnv1a(body2))[k - m]);
        }
    }
    let j2 = choose|j: int| 0 <= j < n && j != k && enc1[j] != enc2[j];
    if k < j2 {
        assert(0 <= k < j2 < n && enc1[k] != enc2[k] && enc1[j2] != enc2[j2]);
    } else {
        assert(0 <= j2 < k < n && enc1[j2] != enc2[j2] && enc1[k] != enc2[k]);
    }
}

} // verus!
