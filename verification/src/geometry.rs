//! Output pixel dimensions for page rendering: the larger source axis is
//! scaled to the requested maximum dimension (clamped to at least 1), the
//! other axis follows in proportion, rounded to the nearest integer and
//! clamped to at least 1. Ties treat width as the controlling axis.

use vstd::prelude::*;

verus! {

/// Output pixel size for a rendered page.
pub struct ImageSize {
    pub width: u16,
    pub height: u16,
}

pub open spec fn nat_max(a: nat, b: nat) -> nat {
    if a >= b {
        a
    } else {
        b
    }
}

/// `max_dimension * small / large`, rounded half up.
pub open spec fn round_scaled(max_dimension: u16, small: nat, large: nat) -> nat {
    ((2 * (max_dimension as int) * (small as int) + large) / (2 * (large as int))) as nat
}

/// The width of the output image.
pub open spec fn geometry_width(source_width: u64, source_height: u64, max_dimension: u16) -> nat {
    if source_width >= source_height {
        nat_max(max_dimension as nat, 1)
    } else {
        nat_max(round_scaled(max_dimension, source_width as nat, source_height as nat), 1)
    }
}

/// The height of the output image.
pub open spec fn geometry_height(source_width: u64, source_height: u64, max_dimension: u16) -> nat {
    if source_width >= source_height {
        nat_max(round_scaled(max_dimension, source_height as nat, source_width as nat), 1)
    } else {
        nat_max(max_dimension as nat, 1)
    }
}

/// The scaled minor axis never exceeds the requested dimension.
proof fn lemma_round_scaled_le(max_dimension: u16, small: nat, large: nat)
    requires
        small <= large,
        large >= 1,
    ensures
        round_scaled(max_dimension, small, large) <= max_dimension,
{
    let m = max_dimension as nat;
    let num = 2 * m * small + large;
    let den = 2 * large;
    assert(num < den * (m + 1)) by (nonlinear_arith)
        requires
            small <= large,
            large >= 1,
            num == 2 * m * small + large,
            den == 2 * large,
    ;
    assert(num / den <= m) by (nonlinear_arith)
        requires
            num < den * (m + 1),
            den >= 1,
    ;
}

/// Scale the minor axis of a source of `small` by `large` pixels so that the
/// major axis would land on `max_dimension`, rounding to nearest and clamping
/// to at least 1.
fn scale_minor_axis(max_dimension: u16, small: u64, large: u64) -> (r: u16)
    requires
        1 <= small <= large,
    ensures
        r == nat_max(round_scaled(max_dimension, small as nat, large as nat), 1),
{
    proof {
        lemma_round_scaled_le(max_dimension, small as nat, large as nat);
        assert(2 * (max_dimension as int) * (small as int) + (large as int)
            < 0x1_0000_0000_0000_0000_0000_0000_0000_0000) by (nonlinear_arith)
            requires
                max_dimension <= 0xFFFF,
                small <= 0xFFFF_FFFF_FFFF_FFFF,
                large <= 0xFFFF_FFFF_FFFF_FFFF,
        ;
    }
    let num: u128 = 2u128 * (max_dimension as u128) * (small as u128) + (large as u128);
    let den: u128 = 2u128 * (large as u128);
    let q: u128 = num / den;
    assert(q <= max_dimension);
    let q16: u16 = q as u16;
    if q16 >= 1 {
        q16
    } else {
        1
    }
}

/// Compute the output pixel dimensions for a source page of
/// `source_width` by `source_height`, preserving the aspect ratio while the
/// larger axis lands exactly on `max_dimension` (clamped to at least 1).
pub fn compute_geometry(source_width: u64, source_height: u64, max_dimension: u16) -> (g:
    ImageSize)
    requires
        source_width >= 1,
        source_height >= 1,
    ensures
        g.width == geometry_width(source_width, source_height, max_dimension),
        g.height == geometry_height(source_width, source_height, max_dimension),
        nat_max(g.width as nat, g.height as nat) == nat_max(max_dimension as nat, 1),
        g.width >= 1,
        g.height >= 1,
{
    if source_width >= source_height {
        proof {
            lemma_round_scaled_le(max_dimension, source_height as nat, source_width as nat);
        }
        let width: u16 = if max_dimension >= 1 {
            max_dimension
        } else {
            1
        };
        let height = scale_minor_axis(max_dimension, source_height, source_width);
        ImageSize { width, height }
    } else {
        proof {
            lemma_round_scaled_le(max_dimension, source_width as nat, source_height as nat);
        }
        let width = scale_minor_axis(max_dimension, source_width, source_height);
        let height: u16 = if max_dimension >= 1 {
            max_dimension
        } else {
            1
        };
        ImageSize { width, height }
    }
}

} // verus!
