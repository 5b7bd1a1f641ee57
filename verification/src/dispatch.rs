//! Sizing of the compute pass's dispatch grid.
//!
//! The post-process shader runs in workgroups that each cover a 7x7-texel
//! tile.  The grid on each axis is the ceiling division of the screen
//! dimension by 7, plus a fixed padding of 8 extra workgroups; the shader
//! bounds-checks and no-ops for out-of-range invocations, so the orchestrator
//! never clips the dispatch counts itself.

use vstd::prelude::*;

verus! {

/// The number of workgroups dispatched along one axis for a span of
/// `pixels` texels: ceiling division by the 7-texel tile, plus the fixed
/// padding of 8 workgroups.
pub open spec fn dispatch_count(pixels: int) -> int {
    (pixels + 6) / 7 + 8
}

/// `(pixels + 6) / 7` is the ceiling of `pixels / 7`: the quotient is
/// unchanged when 7 divides `pixels` and rounds up by one otherwise.
proof fn lemma_ceil_by_seven(p: int)
    requires
        p >= 0,
    ensures
        p % 7 == 0 ==> (p + 6) / 7 == p / 7,
        p % 7 != 0 ==> (p + 6) / 7 == p / 7 + 1,
{
    vstd::arithmetic::div_mod::lemma_fundamental_div_mod(p, 7);
    if p % 7 == 0 {
        vstd::arithmetic::div_mod::lemma_fundamental_div_mod_converse_div(p + 6, 7, p / 7, 6);
    } else {
        vstd::arithmetic::div_mod::lemma_fundamental_div_mod_converse_div(
            p + 6,
            7,
            p / 7 + 1,
            p % 7 - 1,
        );
    }
}

/// Over-coverage: the dispatch grid along one axis reaches every texel of
/// that axis, `dispatch_count(p) * 7 >= p`.
pub proof fn lemma_dispatch_covers(p: int)
    requires
        p >= 1,
    ensures
        dispatch_count(p) * 7 >= p,
{
    vstd::arithmetic::div_mod::lemma_fundamental_div_mod(p + 6, 7);
}

/// Compute the dispatch count along one axis for a screen dimension of
/// `pixels` texels.
pub fn dispatch_dim(pixels: u32) -> (r: u32)
    requires
        1 <= pixels,
    ensures
        r == dispatch_count(pixels as int),
        r as int * 7 >= pixels as int,
{
    proof {
        lemma_ceil_by_seven(pixels as int);
        lemma_dispatch_covers(pixels as int);
        vstd::arithmetic::div_mod::lemma_div_is_ordered(pixels as int, u32::MAX as int, 7);
    }
    let quotient: u32 = pixels / 7;
    if pixels % 7 == 0 {
        quotient + 8
    } else {
        quotient + 9
    }
}

} // verus!
