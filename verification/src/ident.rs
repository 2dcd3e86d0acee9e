//! Conversions between the 128-bit trace identifiers of the tracing model and
//! the 64-bit identifiers of the wire format.

use vstd::prelude::*;

verus! {

/// 2^64, the number of values one half of a wide identifier can take.
pub open spec fn half_modulus() -> int {
    0x1_0000_0000_0000_0000
}

/// The high-order 64 bits of a wide identifier.
pub open spec fn high_half(n: u128) -> u64 {
    (n as int / half_modulus()) as u64
}

/// The low-order 64 bits of a wide identifier.
pub open spec fn low_half(n: u128) -> u64 {
    (n as int % half_modulus()) as u64
}

/// The narrow identifier that stands for a wide one on the wire. The low half
/// is dropped, so two wide identifiers that agree in their high half narrow to
/// the same value.
pub open spec fn narrow(n: u128) -> u64 {
    high_half(n)
}

/// The number that a sequence of bytes denotes when read most significant
/// byte first.
pub open spec fn be_value(bytes: Seq<u8>) -> nat
    decreases bytes.len(),
{
    if bytes.len() == 0 {
        0
    } else {
        be_value(bytes.drop_last()) * 256 + bytes.last() as nat
    }
}

/// 256^n.
pub open spec fn pow256(n: nat) -> nat
    decreases n,
{
    if n == 0 {
        1
    } else {
        256 * pow256((n - 1) as nat)
    }
}

/// A sequence of `n` bytes denotes a number below 256^n.
pub proof fn lemma_be_value_bound(bytes: Seq<u8>)
    ensures
        be_value(bytes) < pow256(bytes.len()),
    decreases bytes.len(),
{
    if bytes.len() > 0 {
        lemma_be_value_bound(bytes.drop_last());
    }
}

/// Reading a concatenation: the leading part is shifted left by the length of
/// the trailing part.
pub proof fn lemma_be_value_concat(a: Seq<u8>, b: Seq<u8>)
    ensures
        be_value(a + b) == be_value(a) * pow256(b.len()) + be_value(b),
    decreases b.len(),
{
    if b.len() == 0 {
        assert(a + b =~= a);
        assert(be_value(a) * 1 == be_value(a)) by (nonlinear_arith);
    } else {
        lemma_be_value_concat(a, b.drop_last());
        assert((a + b).drop_last() =~= a + b.drop_last());
        assert((a + b).last() == b.last());
        let x = be_value(a) as int;
        let p = pow256((b.len() - 1) as nat) as int;
        let r = be_value(b.drop_last()) as int;
        assert(pow256(b.len()) == 256 * p);
        assert(be_value(a + b.drop_last()) == x * p + r);
        assert((x * p + r) * 256 == x * (256 * p) + r * 256) by (nonlinear_arith);
        assert(be_value(a + b) == be_value((a + b).drop_last()) * 256 + (a + b).last() as nat);
        assert(be_value(b) == r * 256 + b.last() as nat);
    }
}

pub proof fn lemma_pow256_values()
    ensures
        pow256(8) == 0x1_0000_0000_0000_0000,
        pow256(16) == 0x1_0000_0000_0000_0000_0000_0000_0000_0000,
{
    reveal_with_fuel(pow256, 17);
}

/// Splits a wide identifier into its high and low halves, in that order. The
/// split is arithmetic, so it is the same on every host byte order.
pub fn u128_to_u64s(n: u128) -> (halves: [u64; 2])
    ensures
        halves[0] == high_half(n),
        halves[1] == low_half(n),
        n == halves[0] as int * half_modulus() + halves[1],
{
    let high: u64 = (n >> 64) as u64;
    let low: u64 = (n & 0xffff_ffff_ffff_ffff) as u64;
    assert(n >> 64 == n / 0x1_0000_0000_0000_0000) by (bit_vector);
    assert(n & 0xffff_ffff_ffff_ffff == n % 0x1_0000_0000_0000_0000) by (bit_vector);
    [high, low]
}

/// Reads a span identifier from its eight interchange bytes, most significant
/// first.
pub fn u64_from_be_bytes(bytes: &[u8; 8]) -> (value: u64)
    ensures
        value == be_value(bytes@),
{
    let mut value: u64 = 0;
    let mut i: usize = 0;
    proof {
        lemma_pow256_values();
        reveal_with_fuel(pow256, 9);
        assert(bytes@.take(0) =~= Seq::<u8>::empty());
    }
    while i < 8
        invariant
            i <= 8,
            bytes@.len() == 8,
            value == be_value(bytes@.take(i as int)),
            value < pow256(i as nat),
        decreases 8 - i,
    {
        proof {
            reveal_with_fuel(pow256, 9);
            assert(bytes@.take(i + 1).drop_last() =~= bytes@.take(i as int));
            assert(bytes@.take(i + 1).last() == bytes@[i as int]);
            lemma_be_value_bound(bytes@.take(i + 1));
            assert(pow256((i + 1) as nat) <= pow256(8)) by {
                reveal_with_fuel(pow256, 9);
            }
        }
        value = value * 256 + bytes[i] as u64;
        i += 1;
    }
    proof {
        assert(bytes@.take(8) =~= bytes@);
    }
    value
}

/// Reads a trace identifier from its sixteen interchange bytes, most
/// significant first.
pub fn u128_from_be_bytes(bytes: &[u8; 16]) -> (value: u128)
    ensures
        value == be_value(bytes@),
{
    let mut value: u128 = 0;
    let mut i: usize = 0;
    proof {
        lemma_pow256_values();
        assert(bytes@.take(0) =~= Seq::<u8>::empty());
    }
    while i < 16
        invariant
            i <= 16,
            bytes@.len() == 16,
            value == be_value(bytes@.take(i as int)),
        decreases 16 - i,
    {
        proof {
            assert(bytes@.take(i + 1).drop_last() =~= bytes@.take(i as int));
            assert(bytes@.take(i + 1).last() == bytes@[i as int]);
            lemma_be_value_bound(bytes@.take(i + 1));
            lemma_pow256_monotonic((i + 1) as nat, 16);
            lemma_pow256_values();
        }
        value = value * 256 + bytes[i] as u128;
        i += 1;
    }
    proof {
        assert(bytes@.take(16) =~= bytes@);
    }
    value
}

pub proof fn lemma_pow256_monotonic(a: nat, b: nat)
    requires
        a <= b,
    ensures
        pow256(a) <= pow256(b),
    decreases b,
{
    if a < b {
        lemma_pow256_monotonic(a, (b - 1) as nat);
    }
}

/// Narrowing depends only on the interchange form of the identifier: the
/// narrow identifier of a trace whose sixteen big-endian bytes are `bytes` is
/// the number that the first eight of them denote, and the dropped half is the
/// number that the last eight denote.
pub proof fn lemma_narrow_reads_leading_bytes(n: u128, bytes: Seq<u8>)
    requires
        bytes.len() == 16,
        n == be_value(bytes),
    ensures
        narrow(n) == be_value(bytes.take(8)),
        low_half(n) == be_value(bytes.skip(8)),
{
    lemma_be_value_concat(bytes.take(8), bytes.skip(8));
    assert(bytes.take(8) + bytes.skip(8) =~= bytes);
    lemma_be_value_bound(bytes.take(8));
    lemma_be_value_bound(bytes.skip(8));
    lemma_pow256_values();
    let h = be_value(bytes.take(8)) as int;
    let l = be_value(bytes.skip(8)) as int;
    let m = half_modulus();
    assert(n == h * m + l);
    assert((h * m + l) / m == h && (h * m + l) % m == l) by (nonlinear_arith)
        requires
            0 <= l < m,
            0 <= h,
            m > 0,
    ;
}

/// Narrowing forgets exactly the low half: two wide identifiers narrow to the
/// same value if and only if their high halves agree.
pub proof fn lemma_narrow_ignores_low_half(a: u128, b: u128)
    ensures
        narrow(a) == narrow(b) <==> a as int / half_modulus() == b as int / half_modulus(),
{
}

} // verus!
