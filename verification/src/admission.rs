//! The admission rule: how a busy ratio, two watermarks and one random draw
//! decide whether the caller should shed work.
//!
//! Below the low watermark work is always admitted, at or above the high
//! watermark it is always rejected. In between, the share of rejected calls
//! rises linearly with the ratio, so that callers who sample the same ratio
//! at the same moment do not all flip together.

use vstd::prelude::*;
use vstd::set_lib::*;

verus! {

/// The percentage of calls that are rejected at `ratio`, for a ratio inside
/// the band `low <= ratio < high`: the position of the ratio in the band,
/// scaled to a hundred and rounded down.
pub open spec fn rejection_percentage(low: u32, high: u32, ratio: u32) -> int
    recommends
        low <= ratio < high,
{
    (ratio - low) * 100 / (high - low)
}

/// The decision for a given ratio and a given random draw. `true` means that
/// the caller should treat the pool as too busy. Of the draw only the
/// remainder modulo a hundred counts.
pub open spec fn too_busy(low: u32, high: u32, ratio: u32, draw: u32) -> bool {
    if ratio < low {
        false
    } else if ratio >= high {
        true
    } else {
        draw % 100 < rejection_percentage(low, high, ratio)
    }
}

/// The draws between 0 and 99 on which a call at `ratio` is rejected.
pub open spec fn rejected_draws(low: u32, high: u32, ratio: u32) -> Set<int> {
    Set::new(|draw: int| 0 <= draw < 100 && too_busy(low, high, ratio, draw as u32))
}

/// Below the low watermark every call is admitted, whatever the draw.
pub proof fn lemma_admits_below_low_watermark(low: u32, high: u32, ratio: u32, draw: u32)
    requires
        ratio < low,
    ensures
        !too_busy(low, high, ratio, draw),
{
}

/// From the high watermark upwards every call is rejected, whatever the draw.
pub proof fn lemma_rejects_from_high_watermark(low: u32, high: u32, ratio: u32, draw: u32)
    requires
        low < high,
        high <= ratio,
    ensures
        too_busy(low, high, ratio, draw),
{
}

/// Two draws with the same remainder modulo a hundred are decided alike.
pub proof fn lemma_decision_reads_draw_modulo_hundred(
    low: u32,
    high: u32,
    ratio: u32,
    draw: u32,
    other: u32,
)
    requires
        draw % 100 == other % 100,
    ensures
        too_busy(low, high, ratio, draw) == too_busy(low, high, ratio, other),
{
}

/// Inside the band the rejection percentage lies between 0 and 99, and it is
/// the exact share `(ratio - low) / (high - low)` of a hundred, rounded down.
pub proof fn lemma_rejection_percentage_is_linear(low: u32, high: u32, ratio: u32)
    requires
        low <= ratio < high,
    ensures
        0 <= rejection_percentage(low, high, ratio) <= 99,
        rejection_percentage(low, high, ratio) * (high - low) <= (ratio - low) * 100,
        (ratio - low) * 100 < (rejection_percentage(low, high, ratio) + 1) * (high - low),
{
    let scaled: int = (ratio - low) * 100;
    let width: int = high - low;
    let percentage: int = scaled / width;
    assert(0 <= percentage <= 99 && percentage * width <= scaled < (percentage + 1) * width)
        by (nonlinear_arith)
        requires
            0 <= scaled,
            0 < width,
            scaled < 100 * width,
            percentage == scaled / width,
    ;
}

/// Inside the band, out of the hundred draws that are equally likely,
/// exactly as many are rejected as the rejection percentage says. With a
/// uniform draw the rate of rejection is therefore the linear share
/// `(ratio - low) / (high - low)`, rounded down to whole percents.
pub proof fn lemma_rejection_rate(low: u32, high: u32, ratio: u32)
    requires
        low <= ratio < high,
    ensures
        rejected_draws(low, high, ratio).finite(),
        rejected_draws(low, high, ratio).len() == rejection_percentage(low, high, ratio),
{
    let percentage = rejection_percentage(low, high, ratio);
    lemma_rejection_percentage_is_linear(low, high, ratio);
    lemma_int_range(0, percentage);
    assert(rejected_draws(low, high, ratio) =~= set_int_range(0, percentage));
}

/// Outside the band no draw matters: below it none of the hundred draws is
/// rejected, from the high watermark upwards all of them are.
pub proof fn lemma_rejection_rate_outside_band(low: u32, high: u32, ratio: u32)
    requires
        low < high,
        ratio < low || high <= ratio,
    ensures
        rejected_draws(low, high, ratio).finite(),
        rejected_draws(low, high, ratio).len() == (if ratio < low {
            0int
        } else {
            100int
        }),
{
    if ratio < low {
        assert(rejected_draws(low, high, ratio) =~= Set::<int>::empty());
    } else {
        lemma_int_range(0, 100);
        assert(rejected_draws(low, high, ratio) =~= set_int_range(0, 100));
    }
}

/// A draw that is rejected at one ratio is rejected at every higher one: the
/// share of rejected calls never falls as the pool gets busier.
pub proof fn lemma_rejection_grows_with_ratio(
    low: u32,
    high: u32,
    ratio: u32,
    higher: u32,
    draw: u32,
)
    requires
        low < high,
        ratio <= higher,
        too_busy(low, high, ratio, draw),
    ensures
        too_busy(low, high, higher, draw),
{
    if higher < high {
        let width: int = high - low;
        let scaled: int = (ratio - low) * 100;
        let scaled_higher: int = (higher - low) * 100;
        assert(scaled / width <= scaled_higher / width) by (nonlinear_arith)
            requires
                0 < width,
                scaled <= scaled_higher,
        ;
    }
}

/// Computes the rejection percentage of a ratio inside the band. The product
/// is formed in 64 bits, so that no band is too wide for it.
pub fn percentage_in_band(low: u32, high: u32, ratio: u32) -> (percentage: u32)
    requires
        low <= ratio < high,
    ensures
        percentage == rejection_percentage(low, high, ratio),
        percentage <= 99,
{
    proof {
        lemma_rejection_percentage_is_linear(low, high, ratio);
    }
    let position: u64 = (ratio - low) as u64;
    let width: u64 = (high - low) as u64;
    let scaled: u64 = position * 100;
    (scaled / width) as u32
}

} // verus!
