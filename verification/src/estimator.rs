//! The busy estimator: two immutable watermarks and one shared cell that
//! holds the current smoothed busy ratio.
//!
//! The cell is written by a single sampler and read by any number of callers
//! without locks. It is a gauge and orders nothing else, so relaxed loads and
//! stores suffice. What a load returns depends on the writes of other threads
//! and is therefore not part of any contract here: the decision is specified
//! for every ratio that may be observed.

use crate::admission::percentage_in_band;
use crate::admission::too_busy;
use crate::entropy::random_draw;
use std::sync::atomic::AtomicU32;
use std::sync::atomic::Ordering;
use vstd::prelude::*;

verus! {

/// The immutable configuration of an estimator.
pub struct Watermarks {
    /// Below this ratio work is always admitted.
    pub low: u32,
    /// At or above this ratio work is always rejected.
    pub high: u32,
}

/// The state that all handles of one estimator share.
pub struct TooBusyShared {
    low_watermark: u32,
    high_watermark: u32,
    ratio_busy_ewma: AtomicU32,
}

impl View for TooBusyShared {
    type V = Watermarks;

    closed spec fn view(&self) -> Watermarks {
        Watermarks { low: self.low_watermark, high: self.high_watermark }
    }
}

impl TooBusyShared {
    #[verifier::type_invariant]
    spec fn watermarks_ordered(self) -> bool {
        self.low_watermark < self.high_watermark
    }

    /// Creates an estimator whose ratio starts at zero.
    pub fn new(low_watermark: u32, high_watermark: u32) -> (shared: Self)
        requires
            low_watermark < high_watermark,
        ensures
            shared@ == (Watermarks { low: low_watermark, high: high_watermark }),
    {
        TooBusyShared { low_watermark, high_watermark, ratio_busy_ewma: AtomicU32::new(0) }
    }

    /// The low watermark, which is always below the high one.
    pub fn low_watermark(&self) -> (low: u32)
        ensures
            low == self@.low,
            low < self@.high,
    {
        proof {
            use_type_invariant(self);
        }
        self.low_watermark
    }

    /// The high watermark, which is always above the low one.
    pub fn high_watermark(&self) -> (high: u32)
        ensures
            high == self@.high,
            self@.low < high,
    {
        proof {
            use_type_invariant(self);
        }
        self.high_watermark
    }

    /// Reads the current smoothed busy ratio. Never blocks.
    pub fn ratio_busy_ewma(&self) -> u32 {
        self.ratio_busy_ewma.load(Ordering::Relaxed)
    }

    /// Publishes a new smoothed busy ratio with a single store.
    pub fn publish(&self, ratio_busy_ewma: u32) {
        self.ratio_busy_ewma.store(ratio_busy_ewma, Ordering::Relaxed);
    }

    /// Decides for an observed ratio and a given random draw: never too busy
    /// below the low watermark, always from the high watermark upwards, and
    /// in between where the draw, reduced modulo a hundred, falls below the
    /// rejection percentage.
    pub fn calculate_proabilistic_too_busy(&self, draw: u32, ratio_busy_ewma: u32) -> (reject: bool)
        ensures
            reject == too_busy(self@.low, self@.high, ratio_busy_ewma, draw),
            ratio_busy_ewma < self@.low ==> !reject,
            ratio_busy_ewma >= self@.high ==> reject,
    {
        proof {
            use_type_invariant(self);
        }
        if ratio_busy_ewma < self.low_watermark {
            return false;
        } else if ratio_busy_ewma >= self.high_watermark {
            return true;
        }
        // Between the watermarks a growing share of the calls is rejected,
        // from none at the low watermark to 99 in a hundred below the high.
        let percentage = percentage_in_band(
            self.low_watermark,
            self.high_watermark,
            ratio_busy_ewma,
        );
        draw % 100 < percentage
    }

    /// Decides for an observed ratio, drawing from the thread's random source
    /// where the ratio lies between the watermarks and nowhere else. Outside
    /// the band the decision is fixed; inside, it is the decision for the
    /// value that was drawn.
    pub fn eval_at(&self, ratio_busy_ewma: u32) -> (reject: bool)
        ensures
            ratio_busy_ewma < self@.low ==> !reject,
            ratio_busy_ewma >= self@.high ==> reject,
            exists|draw: u32| reject == too_busy(self@.low, self@.high, ratio_busy_ewma, draw),
    {
        proof {
            use_type_invariant(self);
        }
        let draw: u32 = if self.low_watermark <= ratio_busy_ewma && ratio_busy_ewma
            < self.high_watermark {
            random_draw()
        } else {
            0
        };
        self.calculate_proabilistic_too_busy(draw, ratio_busy_ewma)
    }

    /// Reads the current ratio and decides whether the pool is too busy.
    pub fn eval(&self) -> bool {
        let ratio_busy_ewma = self.ratio_busy_ewma();
        self.eval_at(ratio_busy_ewma)
    }
}

} // verus!
