//! Monotonic offsets, sizes and the ring-mask projection.

use vstd::prelude::*;
use vstd::arithmetic::power2::{pow2, lemma_pow2_pos, lemma_pow2_unfold, lemma2_to64, lemma2_to64_rest};
use vstd::bits::{low_bits_mask, lemma_u64_low_bits_mask_is_mod};

verus! {

/// The largest power of two that a `u64` holds, `2^63`.
pub const LARGEST_POWER_OF_TWO: u64 = 0x8000_0000_0000_0000;

/// True when `n` is `2^k` for some `k < 64`.
pub open spec fn is_power_of_two(n: u64) -> bool {
    exists|k: nat| k < 64 && pow2(k) == n
}

/// The smallest power of two that is at least `n`.
pub open spec fn is_next_power_of_two(n: u64, p: u64) -> bool {
    is_power_of_two(p) && n <= p && (p == 1 || (p / 2) < n)
}

/// The smallest power of two at least `n` (for `n ≤ 2^63`).
pub open spec fn next_power_of_two(n: u64) -> u64 {
    choose|p: u64| is_next_power_of_two(n, p)
}

/// For a power of two `n`, masking with `n - 1` is reduction modulo `n`.
pub proof fn lemma_mask_is_mod(x: u64, n: u64)
    requires
        is_power_of_two(n),
    ensures
        x & ((n - 1) as u64) == x % n,
        x & ((n - 1) as u64) < n,
{
    let k = choose|k: nat| k < 64 && pow2(k) == n;
    lemma_pow2_pos(k);
    lemma_u64_low_bits_mask_is_mod(x, k);
    assert(low_bits_mask(k) == pow2(k) - 1);
}

/// Offsets that differ by a multiple of a power of two `n` are masked alike.
pub proof fn lemma_mask_of_shifted(x: u64, n: u64, m: nat)
    requires
        is_power_of_two(n),
        x + m * n <= u64::MAX,
    ensures
        x & ((n - 1) as u64) == ((x + m * n) as u64) & ((n - 1) as u64),
{
    lemma_mask_is_mod(x, n);
    lemma_mask_is_mod((x + m * n) as u64, n);
    assert(m * n == n * m) by (nonlinear_arith);
    vstd::arithmetic::div_mod::lemma_mod_multiples_vanish(m as int, x as int, n as int);
}

/// A power of two `p` no smaller than a power of two `n`, with `p / 2 < n`
/// (or `p == 1`), is `n` itself.
pub proof fn lemma_next_power_of_two_of_power(n: u64, p: u64)
    requires
        is_power_of_two(n),
        is_next_power_of_two(n, p),
    ensures
        p == n,
{
    let a = choose|k: nat| k < 64 && pow2(k) == n;
    let b = choose|k: nat| k < 64 && pow2(k) == p;
    if b > a {
        lemma_pow2_unfold(b);
        if (b - 1) as nat > a {
            vstd::arithmetic::power2::lemma_pow2_strictly_increases(a, (b - 1) as nat);
        }
        lemma_pow2_pos(a);
    } else if b < a {
        vstd::arithmetic::power2::lemma_pow2_strictly_increases(b, a);
    }
}

/// There is one smallest power of two at least `n`.
pub proof fn lemma_next_power_of_two_unique(n: u64, p: u64, q: u64)
    requires
        is_next_power_of_two(n, p),
        is_next_power_of_two(n, q),
    ensures
        p == q,
{
    if p < q {
        lemma_next_power_of_two_of_power(p, q);
    } else if q < p {
        lemma_next_power_of_two_of_power(q, p);
    }
}

/// A monotonically increasing 64-bit offset into a ring. It is never reduced
/// modulo the ring's size; only the ring mask projects it into the ring.
#[derive(Clone, Copy, Debug, PartialEq, Eq, Structural)]
pub struct OnlyEverIncreasesMonotonicallyOffset(pub u64);

/// A count of bytes or elements.
#[derive(Clone, Copy, Debug, PartialEq, Eq, Structural)]
pub struct Size(pub u64);

impl OnlyEverIncreasesMonotonicallyOffset {
    /// The offset zero, where every ring starts.
    pub fn zero() -> (r: Self)
        ensures
            r.0 == 0,
    {
        OnlyEverIncreasesMonotonicallyOffset(0)
    }

    /// The offset as a `usize`.
    pub fn into(self) -> (r: usize)
        requires
            self.0 <= usize::MAX,
        ensures
            r == self.0,
    {
        self.0 as usize
    }

    /// Advances by `rhs`.
    pub fn add(self, rhs: Size) -> (r: Self)
        requires
            self.0 + rhs.0 <= u64::MAX,
        ensures
            r.0 == self.0 + rhs.0,
    {
        OnlyEverIncreasesMonotonicallyOffset(self.0 + rhs.0)
    }

    /// Advances by `rhs` elements.
    pub fn add_u64(self, rhs: u64) -> (r: Self)
        requires
            self.0 + rhs <= u64::MAX,
        ensures
            r.0 == self.0 + rhs,
    {
        OnlyEverIncreasesMonotonicallyOffset(self.0 + rhs)
    }

    /// Advances in place by `rhs`.
    pub fn add_assign(&mut self, rhs: u64)
        requires
            old(self).0 + rhs <= u64::MAX,
        ensures
            final(self).0 == old(self).0 + rhs,
    {
        self.0 = self.0 + rhs;
    }

    /// Projects the offset into a ring through `ring_mask`.
    pub fn bitand(self, ring_mask: u64) -> (r: u64)
        ensures
            r == self.0 & ring_mask,
    {
        self.0 & ring_mask
    }

    /// The distance from `rhs` up to this offset.
    pub fn sub(self, rhs: Self) -> (r: Size)
        requires
            self.0 >= rhs.0,
        ensures
            r.0 == self.0 - rhs.0,
    {
        Size(self.0 - rhs.0)
    }

    /// Moves back by `rhs` elements.
    pub fn sub_u64(self, rhs: u64) -> (r: Self)
        requires
            self.0 >= rhs,
        ensures
            r.0 == self.0 - rhs,
    {
        OnlyEverIncreasesMonotonicallyOffset(self.0 - rhs)
    }
}

impl Size {
    /// The size zero.
    pub fn zero() -> (r: Self)
        ensures
            r.0 == 0,
    {
        Size(0)
    }

    /// A size from a `usize` count.
    pub fn from(value: usize) -> (r: Self)
        ensures
            r.0 == value,
    {
        Size(value as u64)
    }

    /// The size as a `usize`.
    pub fn into(self) -> (r: usize)
        requires
            self.0 <= usize::MAX,
        ensures
            r == self.0,
    {
        self.0 as usize
    }

    /// The value as a `u64`.
    pub fn u64(self) -> (r: u64)
        ensures
            r == self.0,
    {
        self.0
    }

    /// The difference of two sizes.
    pub fn sub(self, rhs: Self) -> (r: Self)
        requires
            self.0 >= rhs.0,
        ensures
            r.0 == self.0 - rhs.0,
    {
        Size(self.0 - rhs.0)
    }

    /// The size scaled by `rhs`.
    pub fn mul(self, rhs: u64) -> (r: Self)
        requires
            self.0 * rhs <= u64::MAX,
        ensures
            r.0 == self.0 * rhs,
    {
        Size(self.0 * rhs)
    }

    /// The ring mask, `size - 1`, of a power-of-two size; masking an offset
    /// with it is reduction modulo the size.
    pub fn to_ring_mask(self) -> (r: u64)
        requires
            is_power_of_two(self.0),
        ensures
            r == self.0 - 1,
            forall|x: u64| #[trigger] (x & r) == x % self.0,
    {
        proof {
            let k = choose|k: nat| k < 64 && pow2(k) == self.0;
            lemma_pow2_pos(k);
        }
        assert forall|x: u64| #[trigger] (x & ((self.0 - 1) as u64)) == x % self.0 by {
            lemma_mask_is_mod(x, self.0);
        }
        self.0 - 1
    }
}

/// The smallest power of two at least `n`, or `None` when that exceeds `2^63`.
pub fn checked_next_power_of_two(n: u64) -> (r: Option<u64>)
    ensures
        r matches Some(p) ==> is_next_power_of_two(n, p) && p == next_power_of_two(n),
        r is None <==> n > LARGEST_POWER_OF_TWO,
{
    proof {
        lemma2_to64();
        lemma2_to64_rest();
    }
    if n > LARGEST_POWER_OF_TWO {
        return None;
    }
    let mut p: u64 = 1;
    let ghost mut k: nat = 0;
    while p < n
        invariant
            n <= LARGEST_POWER_OF_TWO,
            k <= 63,
            p == pow2(k),
            p == 1 || p / 2 < n,
            pow2(63) == LARGEST_POWER_OF_TWO,
        decreases 63 - k,
    {
        proof {
            if k == 63 {
                assert(false);
            }
            lemma_pow2_unfold(k + 1);
        }
        p = p * 2;
        proof {
            k = k + 1;
        }
    }
    assert(is_power_of_two(p));
    proof {
        assert(is_next_power_of_two(n, p));
        lemma_next_power_of_two_unique(n, p, next_power_of_two(n));
    }
    Some(p)
}

/// Decides whether `n` is a power of two.
pub fn is_a_power_of_two(n: u64) -> (r: bool)
    ensures
        r == is_power_of_two(n),
{
    match checked_next_power_of_two(n) {
        Some(p) => {
            proof {
                if is_power_of_two(n) {
                    lemma_next_power_of_two_of_power(n, p);
                }
            }
            p == n
        },
        None => {
            proof {
                lemma2_to64();
                lemma2_to64_rest();
                if is_power_of_two(n) {
                    let k = choose|k: nat| k < 64 && pow2(k) == n;
                    if k < 63 {
                        vstd::arithmetic::power2::lemma_pow2_strictly_increases(k, 63);
                    }
                }
            }
            false
        },
    }
}

} // verus!
