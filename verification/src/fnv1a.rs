//! The FNV-1a hash of a text.

use fnv::FnvHasher;
use std::hash::{Hash, Hasher};
use vstd::arithmetic::div_mod::{lemma_mod_mod, lemma_mod_multiples_vanish};
use vstd::prelude::*;
use vstd::utf8::encode_utf8;

verus! {

/// What the hash starts from.
pub const FNV_OFFSET_BASIS: u64 = 0xcbf29ce484222325;

/// What the hash is multiplied by at each byte.
pub const FNV_PRIME: u64 = 0x100000001b3;

/// Closes a text that is hashed, so that no text continues another.
pub const TEXT_END: u8 = 0xff;

/// The hash with one more byte taken in.
pub open spec fn fnv1a_step(hash: u64, byte: u8) -> u64 {
    (hash ^ (byte as u64)).wrapping_mul(FNV_PRIME)
}

/// The 64-bit FNV-1a hash of a sequence of bytes.
pub open spec fn fnv1a(bytes: Seq<u8>) -> u64
    decreases bytes.len(),
{
    if bytes.len() == 0 {
        FNV_OFFSET_BASIS
    } else {
        fnv1a_step(fnv1a(bytes.drop_last()), bytes.last())
    }
}

/// The hash of a text: that of its UTF-8 bytes and a closing one.
pub open spec fn fnv_hash_of(text: Seq<char>) -> u64 {
    fnv1a(encode_utf8(text).push(TEXT_END))
}

/// Hashes a text with `fnv::FnvHasher`.
///
/// Claimed is that the hasher starts from its offset basis and takes in each
/// byte by an exclusive or and a wrapping multiplication, as its `write` does,
/// and that std hashes a string as its bytes and a closing 0xff, as the
/// documentation of `std::hash::Hash` says.
#[verifier::external_body]
pub(crate) fn fnv_hash(text: &str) -> (hash: u64)
    ensures
        hash == fnv_hash_of(text@),
{
    let mut hasher = FnvHasher::default();
    text.hash(&mut hasher);
    hasher.finish()
}

/// The lower half of a hash, which is all that the narrowest index holds.
spec fn lower_half(hash: u64) -> u64 {
    hash % 0x1_0000_0000
}

/// The lower half of a product with the prime comes from the lower halves of
/// both.
proof fn lemma_product_lower_half(hash: u64)
    ensures
        lower_half(hash.wrapping_mul(FNV_PRIME)) == (lower_half(hash) * 0x1b3) % 0x1_0000_0000,
{
    let high = hash as int / 0x1_0000_0000;
    let low = hash as int % 0x1_0000_0000;
    let product = hash * FNV_PRIME;
    assert(hash.wrapping_mul(FNV_PRIME) as int == product % 0x1_0000_0000_0000_0000);
    lemma_mod_mod(product, 0x1_0000_0000, 0x1_0000_0000);
    assert(product == 0x1_0000_0000 * (high * FNV_PRIME + low * 0x100) + low * 0x1b3);
    lemma_mod_multiples_vanish(high * FNV_PRIME + low * 0x100, low * 0x1b3, 0x1_0000_0000);
}

/// Multiplication by the prime, which is odd, keeps different lower halves
/// different.
proof fn lemma_multiplication_keeps_apart(a: u64, b: u64)
    requires
        lower_half(a) != lower_half(b),
    ensures
        lower_half(a.wrapping_mul(FNV_PRIME)) != lower_half(b.wrapping_mul(FNV_PRIME)),
{
    lemma_product_lower_half(a);
    lemma_product_lower_half(b);
    let low_a = lower_half(a) as int;
    let low_b = lower_half(b) as int;
    let multiple_a = (low_a * 0x1b3) / 0x1_0000_0000;
    let multiple_b = (low_b * 0x1b3) / 0x1_0000_0000;
    if (low_a * 0x1b3) % 0x1_0000_0000 == (low_b * 0x1b3) % 0x1_0000_0000 {
        let difference = low_a - low_b;
        let multiple = multiple_a - multiple_b;
        assert(difference * 0x1b3 == multiple * 0x1_0000_0000);
        // 2952172923 is the inverse of 0x1b3 in arithmetic modulo 2^32.
        assert(difference == 0x1_0000_0000 * (multiple * 2952172923 - 299 * difference));
    }
}

/// Different lower halves stay different when the same byte is taken in.
proof fn lemma_step_keeps_apart(a: u64, b: u64, byte: u8)
    requires
        lower_half(a) != lower_half(b),
    ensures
        lower_half(fnv1a_step(a, byte)) != lower_half(fnv1a_step(b, byte)),
{
    let wide = byte as u64;
    assert((a ^ wide) % 0x1_0000_0000 != (b ^ wide) % 0x1_0000_0000) by (bit_vector)
        requires
            a % 0x1_0000_0000 != b % 0x1_0000_0000,
    ;
    lemma_multiplication_keeps_apart(a ^ wide, b ^ wide);
}

/// Different bytes taken in by the same hash make its lower halves differ.
proof fn lemma_step_tells_bytes_apart(hash: u64, a: u8, b: u8)
    requires
        a != b,
    ensures
        lower_half(fnv1a_step(hash, a)) != lower_half(fnv1a_step(hash, b)),
{
    let wide_a = a as u64;
    let wide_b = b as u64;
    assert((hash ^ wide_a) % 0x1_0000_0000 != (hash ^ wide_b) % 0x1_0000_0000) by (bit_vector)
        requires
            wide_a != wide_b,
            wide_a < 0x100,
            wide_b < 0x100,
    ;
    lemma_multiplication_keeps_apart(hash ^ wide_a, hash ^ wide_b);
}

/// Sequences that differ in one byte have hashes that differ in their lower
/// halves.
proof fn lemma_one_byte_tells_apart(a: Seq<u8>, b: Seq<u8>, index: int)
    requires
        a.len() == b.len(),
        0 <= index < a.len(),
        a[index] != b[index],
        forall|i: int| 0 <= i < a.len() && i != index ==> a[i] == b[i],
    ensures
        lower_half(fnv1a(a)) != lower_half(fnv1a(b)),
    decreases a.len(),
{
    if index == a.len() - 1 {
        assert(a.drop_last() =~= b.drop_last());
        lemma_step_tells_bytes_apart(fnv1a(a.drop_last()), a.last(), b.last());
    } else {
        lemma_one_byte_tells_apart(a.drop_last(), b.drop_last(), index);
        lemma_step_keeps_apart(fnv1a(a.drop_last()), fnv1a(b.drop_last()), a.last());
    }
}

/// Texts whose UTF-8 bytes differ in one place have hashes that differ, also
/// when cut to the width of an index.
pub(crate) proof fn lemma_texts_one_byte_apart(a: Seq<char>, b: Seq<char>, index: int)
    requires
        encode_utf8(a).len() == encode_utf8(b).len(),
        0 <= index < encode_utf8(a).len(),
        encode_utf8(a)[index] != encode_utf8(b)[index],
        forall|i: int|
            0 <= i < encode_utf8(a).len() && i != index ==> encode_utf8(a)[i] == encode_utf8(b)[i],
    ensures
        fnv_hash_of(a) as usize != fnv_hash_of(b) as usize,
{
    lemma_one_byte_tells_apart(
        encode_utf8(a).push(TEXT_END),
        encode_utf8(b).push(TEXT_END),
        index,
    );
    let hash_a = fnv_hash_of(a);
    let hash_b = fnv_hash_of(b);
    assert(hash_a as usize != hash_b as usize) by (bit_vector)
        requires
            hash_a % 0x1_0000_0000 != hash_b % 0x1_0000_0000,
    ;
}

} // verus!
