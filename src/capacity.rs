//! Capacity policy of the bounded queue: sizes are powers of two, at least
//! [`MIN_CAPACITY`], so that a slot index advances with a mask.

use vstd::arithmetic::div_mod::lemma_mod_breakdown;
use vstd::prelude::*;

verus! {

/// Smallest capacity a bounded queue is given.
pub const MIN_CAPACITY: usize = 16;

/// Largest capacity request whose power-of-two rounding still fits in a `usize`.
pub const MAX_REQUEST: usize = usize::MAX / 2 + 1;

/// `n` is a power of two: 1, 2, 4, 8, ...
pub open spec fn is_power_of_two(n: nat) -> bool
    decreases n,
{
    if n == 1 {
        true
    } else if n < 2 || n % 2 == 1 {
        false
    } else {
        is_power_of_two(n / 2)
    }
}

/// `p` is the smallest power of two that is not below `n`.
pub open spec fn is_next_power_of_two(n: nat, p: nat) -> bool {
    &&& is_power_of_two(p)
    &&& n <= p
    &&& (p == 1 || p / 2 < n)
}

/// `c` is the capacity a queue gets when `requested` slots are asked for:
/// the larger of [`MIN_CAPACITY`] and the smallest power of two not below
/// `requested`.
pub open spec fn is_effective_capacity(requested: nat, c: nat) -> bool {
    &&& is_power_of_two(c)
    &&& MIN_CAPACITY <= c
    &&& requested <= c
    &&& (c == MIN_CAPACITY || c / 2 < requested)
}

/// The smallest capacity is itself a power of two.
pub proof fn lemma_min_capacity_is_power_of_two()
    ensures
        is_power_of_two(MIN_CAPACITY as nat),
{
    assert(is_power_of_two(1));
    assert(is_power_of_two(2));
    assert(is_power_of_two(4));
    assert(is_power_of_two(8));
    assert(is_power_of_two(16));
}

/// Doubling keeps a power of two.
pub proof fn lemma_double_power_of_two(p: nat)
    requires
        is_power_of_two(p),
    ensures
        is_power_of_two(2 * p),
{
    assert((2 * p) % 2 == 0);
    assert((2 * p) / 2 == p);
}

/// Two powers of two that both sit at the smallest place not below `n` are equal:
/// the rounding is unique.
pub proof fn lemma_next_power_of_two_unique(n: nat, p: nat, q: nat)
    requires
        is_next_power_of_two(n, p),
        is_next_power_of_two(n, q),
    ensures
        p == q,
    decreases p + q,
{
    if p != 1 && q != 1 {
        assert(p % 2 == 0 && q % 2 == 0);
        let m = ((n + 1) / 2) as nat;
        assert(is_next_power_of_two(m, p / 2));
        assert(is_next_power_of_two(m, q / 2));
        lemma_next_power_of_two_unique(m, p / 2, q / 2);
    } else if p == 1 && q != 1 {
        assert(q % 2 == 0);
    } else if q == 1 && p != 1 {
        assert(p % 2 == 0);
    }
}

/// The smallest power of two not below `n` is below every other power of two
/// not below `n`.
pub proof fn lemma_next_power_of_two_least(n: nat, p: nat, q: nat)
    requires
        is_next_power_of_two(n, p),
        is_power_of_two(q),
        n <= q,
    ensures
        p <= q,
    decreases q,
{
    if q != 1 && p != 1 {
        assert(p % 2 == 0 && q % 2 == 0);
        let m = ((n + 1) / 2) as nat;
        assert(is_next_power_of_two(m, p / 2));
        lemma_next_power_of_two_least(m, p / 2, q / 2);
    } else if q == 1 && p != 1 {
        assert(p % 2 == 0);
    }
}

/// Capacity rounding: whatever is asked for, a queue gets the larger of
/// [`MIN_CAPACITY`] and the smallest power of two not below the request.
pub proof fn law_effective_capacity(requested: nat, c: nat, p: nat)
    requires
        is_effective_capacity(requested, c),
        is_next_power_of_two(requested, p),
    ensures
        c == if p < MIN_CAPACITY { MIN_CAPACITY as nat } else { p },
{
    if c == MIN_CAPACITY {
        lemma_next_power_of_two_least(requested, p, c);
    } else {
        assert(c != 1);
        lemma_next_power_of_two_unique(requested, c, p);
    }
}

/// A power of two has no bit in common with its predecessor, so masking with
/// `p - 1` keeps the remainder modulo `p`.
pub proof fn lemma_mask_is_mod(x: usize, p: usize)
    requires
        is_power_of_two(p as nat),
    ensures
        x & ((p - 1) as usize) == x % p,
    decreases p,
{
    if p == 1 {
        assert(x & 0 == x % 1) by (bit_vector);
    } else {
        let h: usize = p / 2;
        lemma_mask_is_mod(x / 2, h);
        assert(x & ((p - 1) as usize) == ((x / 2) & ((h - 1) as usize)) * 2 + x % 2)
            by (bit_vector)
            requires
                p == 2 * h,
                h > 0,
        ;
        lemma_mod_breakdown(x as int, 2, h as int);
    }
}

/// Rounds `v` up to the smallest power of two that is not below it.
pub fn round_up_to_next_highest_power_of_two(v: usize) -> (r: usize)
    requires
        v <= MAX_REQUEST,
    ensures
        is_next_power_of_two(v as nat, r as nat),
{
    let mut p: usize = 1;
    while p < v
        invariant
            v <= MAX_REQUEST,
            is_power_of_two(p as nat),
            p == 1 || p / 2 < v,
        decreases usize::MAX - p,
    {
        proof {
            lemma_double_power_of_two(p as nat);
        }
        p = p * 2;
    }
    p
}

/// The capacity a queue gets when `requested` slots are asked for.
pub fn effective_capacity(requested: usize) -> (c: usize)
    requires
        requested <= MAX_REQUEST,
    ensures
        is_effective_capacity(requested as nat, c as nat),
{
    if requested < MIN_CAPACITY {
        proof {
            lemma_min_capacity_is_power_of_two();
        }
        MIN_CAPACITY
    } else {
        round_up_to_next_highest_power_of_two(requested)
    }
}

/// The slot after `index` in a ring whose size is `mask + 1`.
pub fn next_node_index(index: usize, mask: usize) -> (r: usize)
    requires
        is_power_of_two((mask + 1) as nat),
        mask < usize::MAX,
        index <= mask,
    ensures
        r == (index + 1) % (mask + 1),
{
    proof {
        lemma_mask_is_mod((index + 1) as usize, (mask + 1) as usize);
    }
    (index + 1) & mask
}

} // verus!
