//! Rounding a size up to the kernel's commit granule.

use vstd::prelude::*;

verus! {

/// Size in bytes of one unit of memory that the kernel commits.
pub const COMMIT_GRANULE: u64 = 0x200000;

/// `s` rounded up to the next multiple of `g`.
pub open spec fn round_up(s: int, g: int) -> int {
    if s % g == 0 {
        s
    } else {
        s + (g - s % g)
    }
}

/// `a` is a multiple of `g` that is at least `s`.
pub open spec fn covers(a: int, s: int, g: int) -> bool {
    a % g == 0 && a >= s
}

/// The rounded size is a multiple of the granule, never below the size and
/// less than one granule above it.
pub proof fn lemma_round_up_bounds(s: int, g: int)
    requires
        s >= 0,
        g > 0,
    ensures
        covers(round_up(s, g), s, g),
        round_up(s, g) < s + g,
{
    let r = s % g;
    assert(0 <= r < g) by (nonlinear_arith)
        requires
            g > 0,
            r == s % g,
    ;
    if r != 0 {
        assert((s + (g - r)) % g == 0) by (nonlinear_arith)
            requires
                g > 0,
                r == s % g,
        ;
    }
}

/// Rounding up gives the smallest multiple of the granule that is at least
/// the size, and leaves a size that is already a multiple as it is.
pub proof fn lemma_round_up_least(s: int, g: int, m: int)
    requires
        s >= 0,
        g > 0,
        covers(m, s, g),
    ensures
        covers(round_up(s, g), s, g),
        round_up(s, g) <= m,
        s % g == 0 ==> round_up(s, g) == s,
{
    lemma_round_up_bounds(s, g);
    let a = round_up(s, g);
    // Two multiples of `g` less than `g` apart are equal.
    if m < a {
        assert(false) by (nonlinear_arith)
            requires
                g > 0,
                m % g == 0,
                a % g == 0,
                s <= m,
                m < a,
                a < s + g,
        ;
    }
}

/// `size` rounded up to the next multiple of `granule`, or `None` where that
/// multiple is not a `u64`.
pub fn align_up(size: u64, granule: u64) -> (r: Option<u64>)
    requires
        granule > 0,
    ensures
        r is Some <==> round_up(size as int, granule as int) <= u64::MAX,
        r matches Some(a) ==> a == round_up(size as int, granule as int),
{
    let rem = size % granule;
    if rem == 0 {
        Some(size)
    } else if granule - rem <= u64::MAX - size {
        Some(size + (granule - rem))
    } else {
        None
    }
}

} // verus!
