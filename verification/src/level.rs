use vstd::prelude::*;
use vstd::arithmetic::power2::{pow2, lemma2_to64, lemma_pow2_pos, lemma_pow2_unfold};
use crate::error::ConvertError;

verus! {

/// The deepest level: a grid that stays within one cell of the origin has it.
pub const MAX_LEVEL: usize = 19;

/// The largest extent that still has a level, `2^19`.
pub const MAX_EXTENT: u32 = 524288;

/// The number of doublings of 1 that it takes to reach `extent`: the least `k`
/// with `extent <= 2^k` (see `lemma_doublings_least`).
pub open spec fn doublings(extent: nat) -> nat
    decreases extent,
{
    if extent <= 1 {
        0
    } else {
        1 + doublings((extent + 1) / 2)
    }
}

/// The level of a grid whose bounding box reaches `extent` from the origin:
/// one below the deepest for each doubling that the extent takes. It is
/// negative where the extent takes more doublings than there are levels.
pub open spec fn level_of(extent: nat) -> int {
    MAX_LEVEL - doublings(extent)
}

/// `k` doublings reach `extent` exactly when `k` is at least `doublings(extent)`.
pub proof fn lemma_doublings_least(extent: nat, k: nat)
    ensures
        extent <= pow2(k) <==> doublings(extent) <= k,
    decreases k,
{
    if extent <= 1 {
        lemma_pow2_pos(k);
    } else if k == 0 {
        lemma2_to64();
    } else {
        lemma_pow2_unfold(k);
        lemma_doublings_least((extent + 1) / 2, (k - 1) as nat);
    }
}

/// An extent has a level from 0 to 19 exactly when it is at most `2^19`, and
/// that level `l` is the deepest one whose reach `2^(19 - l)` covers it.
pub proof fn lemma_level_covers(extent: nat)
    ensures
        level_of(extent) <= MAX_LEVEL,
        level_of(extent) >= 0 <==> extent <= MAX_EXTENT,
        level_of(extent) >= 0 ==> extent <= pow2((MAX_LEVEL - level_of(extent)) as nat),
        0 <= level_of(extent) < MAX_LEVEL ==> extent > pow2(
            (MAX_LEVEL - level_of(extent) - 1) as nat,
        ),
{
    lemma2_to64();
    lemma_doublings_least(extent, 19);
    lemma_doublings_least(extent, doublings(extent));
    if doublings(extent) > 0 {
        lemma_doublings_least(extent, (doublings(extent) - 1) as nat);
    }
}

/// A grid that reaches further never has a deeper level.
pub proof fn lemma_level_monotonic(smaller: nat, larger: nat)
    requires
        smaller < larger,
    ensures
        level_of(smaller) >= level_of(larger),
{
    let k = doublings(larger);
    lemma_doublings_least(larger, k);
    lemma_doublings_least(smaller, k);
}

/// The level of a grid whose largest absolute bounding-box component is
/// `max_val`: 19 for an extent of at most 1, one less for each doubling.
pub fn get_level(max_val: u32) -> (level: usize)
    requires
        max_val <= MAX_EXTENT,
    ensures
        level == level_of(max_val as nat),
{
    let mut max_dim: u32 = 1;
    let mut level: usize = MAX_LEVEL;
    proof {
        lemma2_to64();
        lemma_doublings_least(max_val as nat, 19);
    }
    while max_val > max_dim
        invariant
            level <= MAX_LEVEL,
            max_dim == pow2((MAX_LEVEL - level) as nat),
            max_dim <= MAX_EXTENT,
            max_val <= MAX_EXTENT,
            doublings(max_val as nat) <= 19,
            doublings(max_val as nat) >= MAX_LEVEL - level,
        decreases level,
    {
        proof {
            let k = (MAX_LEVEL - level) as nat;
            lemma_doublings_least(max_val as nat, k);
            lemma_pow2_unfold(k + 1);
            lemma2_to64();
        }
        max_dim = max_dim * 2;
        level = level - 1;
    }
    proof {
        lemma_doublings_least(max_val as nat, (MAX_LEVEL - level) as nat);
    }
    level
}

/// How far a coordinate lies from the origin.
pub open spec fn magnitude(c: i32) -> nat {
    if c < 0 {
        (-c) as nat
    } else {
        c as nat
    }
}

/// The larger of two extents.
pub open spec fn wider(a: nat, b: nat) -> nat {
    if a >= b {
        a
    } else {
        b
    }
}

/// The extent of a bounding box: the largest magnitude among the components
/// of its two corners.
pub open spec fn box_extent(min: [i32; 3], max: [i32; 3]) -> nat {
    wider(
        wider(wider(magnitude(min[0]), magnitude(min[1])), magnitude(min[2])),
        wider(wider(magnitude(max[0]), magnitude(max[1])), magnitude(max[2])),
    )
}

/// The magnitude of one coordinate. The most negative coordinate has one too:
/// it does not fit the signed type, and does fit the unsigned one.
pub fn component_magnitude(c: i32) -> (m: u32)
    ensures
        m == magnitude(c),
{
    if c >= 0 {
        c as u32
    } else if c == i32::MIN {
        2147483648u32
    } else {
        (-c) as u32
    }
}

/// The larger of two extents.
fn larger(a: u32, b: u32) -> (m: u32)
    ensures
        m == wider(a as nat, b as nat),
{
    if a >= b {
        a
    } else {
        b
    }
}

/// The extent of the bounding box with corners `min` and `max`.
pub fn bounds_extent(min: [i32; 3], max: [i32; 3]) -> (extent: u32)
    ensures
        extent == box_extent(min, max),
{
    let low = larger(
        larger(component_magnitude(min[0]), component_magnitude(min[1])),
        component_magnitude(min[2]),
    );
    let high = larger(
        larger(component_magnitude(max[0]), component_magnitude(max[1])),
        component_magnitude(max[2]),
    );
    larger(low, high)
}

/// The level of a grid that reaches `max_val` from the origin, where it has
/// one: an extent beyond `MAX_EXTENT` is refused, and no other is.
pub fn encode_level(max_val: u32) -> (result: Result<usize, ConvertError>)
    ensures
        match result {
            Ok(level) => max_val <= MAX_EXTENT && level == level_of(max_val as nat) && level
                <= MAX_LEVEL,
            Err(e) => max_val > MAX_EXTENT && e == ConvertError::GridTooLarge,
        },
{
    if max_val > MAX_EXTENT {
        Err(ConvertError::GridTooLarge)
    } else {
        proof {
            lemma_level_covers(max_val as nat);
        }
        Ok(get_level(max_val))
    }
}

/// The level shared by every record of a grid with the bounding box from
/// `min` to `max`. A box that reaches further than `MAX_EXTENT` from the
/// origin has no level, and nothing else fails.
pub fn grid_level(min: [i32; 3], max: [i32; 3]) -> (result: Result<usize, ConvertError>)
    ensures
        match result {
            Ok(level) => box_extent(min, max) <= MAX_EXTENT && level == level_of(
                box_extent(min, max),
            ) && level <= MAX_LEVEL,
            Err(e) => box_extent(min, max) > MAX_EXTENT && e == ConvertError::GridTooLarge,
        },
{
    encode_level(bounds_extent(min, max))
}

} // verus!
