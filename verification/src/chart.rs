//! The level scale behind the text bar charts.
//!
//! A chart cell shows one of nine levels: empty for a zero sample, and
//! eight fill heights for the rest, each level covering one eighth of the
//! scale up to the chart's maximum.

use vstd::prelude::*;

use crate::arith::spec_ceil_div;

verus! {

/// How many fill heights a chart cell distinguishes above the empty one.
pub const BAR_LEVELS: u8 = 8;

/// The fill level of one chart cell: zero for a zero sample, otherwise
/// the sample's eighth of the scale, rounded up.
pub open spec fn spec_bar_level(value: u64, max_value: u64) -> int
    recommends
        max_value >= 1,
        value <= max_value,
{
    if value == 0 {
        0
    } else {
        spec_ceil_div(8 * value, max_value as int)
    }
}

/// The fill level of one chart cell, between zero and eight.
pub fn bar_level(value: u64, max_value: u64) -> (r: u8)
    requires
        max_value >= 1,
        value <= max_value,
    ensures
        r as int == spec_bar_level(value, max_value),
        r <= BAR_LEVELS,
{
    if value == 0 {
        return 0;
    }
    let a: u128 = 8u128 * value as u128;
    let b: u128 = max_value as u128;
    let q = a / b;
    let rem = a % b;
    proof {
        assert(a / b <= 8 && (a % b != 0 ==> a / b < 8)) by (nonlinear_arith)
            requires
                b >= 1,
                0 <= a <= 8 * b,
        ;
    }
    let level = if rem > 0 {
        q + 1
    } else {
        q
    };
    level as u8
}

} // verus!
