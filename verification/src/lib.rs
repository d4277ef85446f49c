//! Admission control for a fixed worker pool: a smoothed busy ratio, two
//! watermarks, and a probabilistic accept/reject decision between them.
//!
//! - [`admission`] states the rule that turns a ratio and a random draw into
//!   a decision, and proves what it promises: nothing is rejected below the
//!   low watermark, everything from the high watermark upwards, and in
//!   between a share that rises linearly.
//! - [`estimator`] holds the watermarks and the shared cell with the current
//!   ratio, and decides on what it reads there.
//! - [`handle`] is the cloneable handle that request-handling code calls.
//! - [`config`] collects and validates the configuration.
//! - [`feeder`] holds the sampler's state and decides, tick by tick, whether
//!   it goes on and how much busy time it folds into the ratio.
//! - [`duration`] and [`entropy`] hold what is taken on trust from the
//!   standard library's durations and from the random source.
//!
//! The library owns no timer, no task and no runtime. Whoever runs the
//! sampler waits for its ticks, reads the workers' busy time, smooths the
//! ratio and publishes it through [`TooBusyShared::publish`].

pub mod admission;
pub mod config;
pub mod duration;
pub mod entropy;
pub mod estimator;
pub mod feeder;
pub mod handle;

pub use config::ConfigError;
pub use config::TooBusyBuilder;
pub use estimator::TooBusyShared;
pub use feeder::LoadFeeder;
pub use handle::TooBusy;
