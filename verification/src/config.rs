//! The configuration of an estimator and its sampler, and the builder that
//! validates it.
//!
//! The setters record what they are given. The configuration is validated
//! once, as a whole, when the estimator is built, so that the order in which
//! the watermarks are set makes no difference.

use crate::estimator::TooBusyShared;
use crate::estimator::Watermarks;
use crate::feeder::FeederState;
use crate::feeder::LoadFeeder;
use crate::handle::TooBusy;
use crate::duration::duration_millis;
use std::sync::Arc;
use std::time::Duration;
use vstd::prelude::*;

verus! {

/// The low watermark of a builder that was not given one, in percent.
pub const DEFAULT_LOW_WATERMARK: u32 = 85;

/// The high watermark of a builder that was not given one, in percent.
pub const DEFAULT_HIGH_WATERMARK: u32 = 95;

/// The smoothing weight of a builder that was not given one: the bits of the
/// single-precision number nearest to one tenth.
pub const DEFAULT_EWMA_ALPHA: u32 = 0x3DCC_CCCD;

/// The sampling interval of a builder that was not given one, in seconds.
pub const DEFAULT_INTERVAL_SECS: u64 = 1;

/// The bits of the single-precision number one.
pub const EWMA_ALPHA_ONE: u32 = 0x3F80_0000;

/// Whether a smoothing weight, given by the bits of a single-precision
/// number, lies strictly between zero and one.
///
/// Positive single-precision numbers are ordered as their bits are. Zero has
/// the bits 0, so every pattern from 1 up to the one below `EWMA_ALPHA_ONE` is
/// a number above zero and below one. The patterns above are the numbers
/// from one upwards, the infinities, the values that are no numbers, and,
/// with the top bit set, zero with a minus sign and all negative numbers.
pub open spec fn ewma_alpha_in_range(bits: u32) -> bool {
    0 < bits < EWMA_ALPHA_ONE
}

/// Decides whether a smoothing weight lies strictly between zero and one.
pub fn is_ewma_alpha_in_range(bits: u32) -> (valid: bool)
    ensures
        valid == ewma_alpha_in_range(bits),
{
    0 < bits && bits < EWMA_ALPHA_ONE
}

/// Why a configuration was refused.
#[derive(Debug, Clone, Copy, PartialEq, Eq)]
pub enum ConfigError {
    /// The low watermark is not below the high watermark.
    WatermarksOutOfOrder,
    /// The smoothing weight is not strictly between zero and one.
    EwmaAlphaOutOfRange,
}

/// What a builder holds.
pub struct Settings {
    /// The sampling interval.
    pub interval: Duration,
    /// The low watermark, in percent.
    pub low_watermark: u32,
    /// The high watermark, in percent.
    pub high_watermark: u32,
    /// The weight of the previous smoothed value, as the bits of a
    /// single-precision number.
    pub ewma_alpha: u32,
}

impl Settings {
    /// Whether an estimator can be built from these settings.
    pub open spec fn valid(self) -> bool {
        self.low_watermark < self.high_watermark && ewma_alpha_in_range(self.ewma_alpha)
    }

    /// Whether these are the settings of a builder that was given nothing.
    pub open spec fn is_default(self) -> bool {
        &&& duration_millis(self.interval) == DEFAULT_INTERVAL_SECS * 1000
        &&& self.low_watermark == DEFAULT_LOW_WATERMARK
        &&& self.high_watermark == DEFAULT_HIGH_WATERMARK
        &&& self.ewma_alpha == DEFAULT_EWMA_ALPHA
    }

    /// The error that building from these settings gives, where they are not
    /// valid. The watermarks are looked at first.
    pub open spec fn error(self) -> ConfigError {
        if self.low_watermark >= self.high_watermark {
            ConfigError::WatermarksOutOfOrder
        } else {
            ConfigError::EwmaAlphaOutOfRange
        }
    }
}

/// Collects the configuration of an estimator.
pub struct TooBusyBuilder {
    interval: Duration,
    low_watermark: u32,
    high_watermark: u32,
    ewma_alpha: u32,
}

impl View for TooBusyBuilder {
    type V = Settings;

    closed spec fn view(&self) -> Settings {
        Settings {
            interval: self.interval,
            low_watermark: self.low_watermark,
            high_watermark: self.high_watermark,
            ewma_alpha: self.ewma_alpha,
        }
    }
}

/// The default settings can be built from.
pub proof fn lemma_default_is_valid(settings: Settings)
    requires
        settings.is_default(),
    ensures
        settings.valid(),
{
}

impl TooBusyBuilder {
    /// Sets the sampling interval.
    pub fn interval(self, interval: Duration) -> (builder: TooBusyBuilder)
        ensures
            builder@ == (Settings { interval, ..self@ }),
    {
        TooBusyBuilder { interval, ..self }
    }

    /// Sets the ratio from which calls begin to be rejected.
    pub fn low_watermark(self, low_watermark: u32) -> (builder: TooBusyBuilder)
        ensures
            builder@ == (Settings { low_watermark, ..self@ }),
    {
        TooBusyBuilder { low_watermark, ..self }
    }

    /// Sets the ratio from which every call is rejected.
    pub fn high_watermark(self, high_watermark: u32) -> (builder: TooBusyBuilder)
        ensures
            builder@ == (Settings { high_watermark, ..self@ }),
    {
        TooBusyBuilder { high_watermark, ..self }
    }

    /// Sets the weight that the previous smoothed value has in the next one,
    /// given as the bits of a single-precision number. A smaller weight
    /// follows the load faster, a larger one smooths more.
    pub fn ewma_alpha(self, ewma_alpha: u32) -> (builder: TooBusyBuilder)
        ensures
            builder@ == (Settings { ewma_alpha, ..self@ }),
    {
        TooBusyBuilder { ewma_alpha, ..self }
    }

    /// Validates the configuration and builds the estimator with the sampler
    /// that is to feed it. The estimator's ratio starts at zero, and the
    /// sampler has seen no busy time.
    pub fn build(self) -> (built: Result<(TooBusy, LoadFeeder), ConfigError>)
        ensures
            built.is_ok() <==> self@.valid(),
            built matches Err(error) ==> error == self@.error(),
            built matches Ok((too_busy, feeder)) ==> {
                &&& too_busy@ == (Watermarks {
                    low: self@.low_watermark,
                    high: self@.high_watermark,
                })
                &&& feeder@ == (FeederState {
                    interval: self@.interval,
                    ewma_alpha: self@.ewma_alpha,
                    latest_total_busy_accumulated: 0,
                    stopped: false,
                })
            },
    {
        if self.low_watermark >= self.high_watermark {
            return Err(ConfigError::WatermarksOutOfOrder);
        }
        if !is_ewma_alpha_in_range(self.ewma_alpha) {
            return Err(ConfigError::EwmaAlphaOutOfRange);
        }
        let inner = Arc::new(TooBusyShared::new(self.low_watermark, self.high_watermark));
        let feeder = LoadFeeder::new(self.interval, self.ewma_alpha);
        Ok((TooBusy::from_shared(inner), feeder))
    }
}

impl Default for TooBusyBuilder {
    /// A builder with an interval of one second, watermarks of 85 and 95
    /// percent, and a smoothing weight of one tenth.
    fn default() -> (builder: Self)
        ensures
            builder@.is_default(),
    {
        TooBusyBuilder {
            interval: Duration::from_secs(DEFAULT_INTERVAL_SECS),
            low_watermark: DEFAULT_LOW_WATERMARK,
            high_watermark: DEFAULT_HIGH_WATERMARK,
            ewma_alpha: DEFAULT_EWMA_ALPHA,
        }
    }
}

} // verus!
