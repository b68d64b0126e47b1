//! Identifiers under which pointers are cached. Densities are given by the bit
//! patterns of their floating-point numbers.
use std::collections::hash_map::DefaultHasher;
use std::hash::Hasher;
use vstd::prelude::*;
use vstd::std_specs::hash::DefaultHasherAdditionalSpecFns;

verus! {

/// The largest identifier that every receiver can hold exactly.
pub const MAX_CURSOR_ID: u64 = 9_007_199_254_740_991;

/// The bit pattern of positive infinity.
pub const INFINITY_BITS: u64 = 0x7ff0_0000_0000_0000;

/// The bit pattern of negative zero.
pub const NEGATIVE_ZERO_BITS: u64 = 0x8000_0000_0000_0000;

/// The pattern is that of a number above zero.
pub open spec fn positive(bits: u64) -> bool {
    0 < bits <= INFINITY_BITS
}

/// The pattern is that of zero.
pub open spec fn zero(bits: u64) -> bool {
    bits == 0 || bits == NEGATIVE_ZERO_BITS
}

/// Whether a number is above zero.
pub fn is_positive(bits: u64) -> (r: bool)
    ensures
        r == positive(bits),
{
    0 < bits && bits <= INFINITY_BITS
}

/// Whether a number is zero.
pub fn is_zero(bits: u64) -> (r: bool)
    ensures
        r == zero(bits),
{
    bits == 0 || bits == NEGATIVE_ZERO_BITS
}

/// The hash of what was written, with the hasher that has fixed keys.
pub open spec fn hash_of(writes: Seq<Seq<u8>>) -> u64 {
    DefaultHasher::spec_finish(writes)
}

/// Writes a number to a hasher, its lowest byte first.
pub(crate) fn write_u64(hasher: &mut DefaultHasher, value: u64)
    ensures
        final(hasher)@ == old(hasher)@.push(vstd::bytes::spec_u64_to_le_bytes(value)),
{
    let bytes = vstd::bytes::u64_to_le_bytes(value);
    hasher.write(bytes.as_slice());
}

/// Writes a number to a hasher, its lowest byte first.
pub(crate) fn write_u32(hasher: &mut DefaultHasher, value: u32)
    ensures
        final(hasher)@ == old(hasher)@.push(vstd::bytes::spec_u32_to_le_bytes(value)),
{
    let bytes = vstd::bytes::u32_to_le_bytes(value);
    hasher.write(bytes.as_slice());
}

/// The identifier for a hash.
pub open spec fn bounded_id(hash: u64) -> u64 {
    (hash % MAX_CURSOR_ID + 1) as u64
}

/// An identifier for a hash: never zero, which stands for no pointer, and never
/// above the largest identifier.
pub fn bounded_cursor_id(hash: u64) -> (r: u64)
    ensures
        r == hash % MAX_CURSOR_ID + 1,
        r == bounded_id(hash),
        1 <= r <= MAX_CURSOR_ID,
{
    hash % MAX_CURSOR_ID + 1
}

/// The identifier of a pointer with a density.
pub open spec fn density_id(cursor: u64, scale_bits: u64) -> int {
    hash_of(
        seq![
            vstd::bytes::spec_u64_to_le_bytes(cursor),
            vstd::bytes::spec_u64_to_le_bytes(scale_bits),
        ],
    ) % MAX_CURSOR_ID + 1
}

/// The identifier of a pointer, given its density: its own where that is unknown.
pub open spec fn cached_as(id: u64, scale_bits: u64) -> int {
    if zero(scale_bits) {
        id as int
    } else {
        density_id(id, scale_bits)
    }
}

/// The identifier of a pointer with a density.
pub fn density_cache_id(cursor: u64, scale_bits: u64) -> (r: u64)
    ensures
        r == density_id(cursor, scale_bits),
        1 <= r <= MAX_CURSOR_ID,
{
    let mut hasher = DefaultHasher::new();
    write_u64(&mut hasher, cursor);
    write_u64(&mut hasher, scale_bits);
    assert(hasher@ =~= seq![
        vstd::bytes::spec_u64_to_le_bytes(cursor),
        vstd::bytes::spec_u64_to_le_bytes(scale_bits),
    ]);
    bounded_cursor_id(hasher.finish())
}

/// The identifier of a pointer: its own where the density is unknown.
pub fn cache_id(id: u64, scale_bits: u64) -> (r: u64)
    ensures
        r == cached_as(id, scale_bits),
        !zero(scale_bits) ==> 1 <= r <= MAX_CURSOR_ID,
{
    if is_zero(scale_bits) {
        return id;
    }
    density_cache_id(id, scale_bits)
}

/// Zero has two patterns, which differ in the sign; what is above zero has no sign and
/// is a number.
pub proof fn law_signs_of_patterns(bits: u64)
    ensures
        zero(bits) <==> bits % 0x8000_0000_0000_0000 == 0,
        positive(bits) <==> bits > 0 && bits <= 0x7ff0_0000_0000_0000,
        positive(bits) ==> !zero(bits),
{
}

/// A pointer without a known density is cached under its own identifier; one with a
/// density under one that hangs on both, is never zero and fits every receiver.
pub proof fn law_identifiers_are_bounded(id: u64, scale_bits: u64)
    ensures
        scale_bits % 0x8000_0000_0000_0000 == 0 ==> cached_as(id, scale_bits) == id,
        scale_bits % 0x8000_0000_0000_0000 != 0 ==> 1 <= cached_as(id, scale_bits)
            <= 9_007_199_254_740_991 && (cached_as(id, scale_bits) - 1 - hash_of(
            seq![
                vstd::bytes::spec_u64_to_le_bytes(id),
                vstd::bytes::spec_u64_to_le_bytes(scale_bits),
            ],
        )) % 9_007_199_254_740_991 == 0,
{
    let h = hash_of(
        seq![
            vstd::bytes::spec_u64_to_le_bytes(id),
            vstd::bytes::spec_u64_to_le_bytes(scale_bits),
        ],
    ) as int;
    let n = 9_007_199_254_740_991int;
    assert((h % n - h) % n == 0) by (nonlinear_arith)
        requires
            n == 9_007_199_254_740_991int,
            h >= 0,
    {
        assert(h == n * (h / n) + h % n);
        assert((h % n - h) == n * (-(h / n)));
        assert((n * (-(h / n))) % n == 0) by {
            vstd::arithmetic::div_mod::lemma_mod_multiples_basic(-(h / n), n);
        }
    }
}

/// Identifiers for hashes fit into the whole numbers that a client can hold exactly, are
/// never zero, and are as far apart as their hashes where these are small.
pub proof fn law_identifiers_for_hashes(a: u64, b: u64)
    ensures
        1 <= bounded_id(a) <= 0x1f_ffff_ffff_ffff,
        a < b && b < 0x1f_ffff_ffff_ffff ==> bounded_id(b) - bounded_id(a) == b - a,
{
    assert(a < 9_007_199_254_740_991 ==> a % 9_007_199_254_740_991 == a);
    assert(b < 9_007_199_254_740_991 ==> b % 9_007_199_254_740_991 == b);
}

} // verus!
