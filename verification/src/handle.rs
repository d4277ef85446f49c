//! The public handle to an estimator.

use crate::config::TooBusyBuilder;
use crate::estimator::TooBusyShared;
use crate::estimator::Watermarks;
use std::sync::Arc;
use vstd::prelude::*;

verus! {

/// `Arc::clone` hands out one more pointer to the same allocation, so what
/// the new pointer leads to is what the old one leads to. The estimator
/// itself is not copied.
#[verifier::external_body]
fn share(shared: &Arc<TooBusyShared>) -> (other: Arc<TooBusyShared>)
    ensures
        other == *shared,
{
    Arc::clone(shared)
}

/// Tells whether the worker pool is too busy to take more work.
///
/// The handle is counted by reference and cheap to clone. All clones lead to
/// the same estimator, which lives as long as one of them does.
pub struct TooBusy {
    inner: Arc<TooBusyShared>,
}

impl View for TooBusy {
    type V = Watermarks;

    closed spec fn view(&self) -> Watermarks {
        self.inner@
    }
}

impl TooBusy {
    /// A builder with the default configuration.
    pub fn builder() -> (builder: TooBusyBuilder)
        ensures
            builder@.is_default(),
    {
        TooBusyBuilder::default()
    }

    /// Wraps an estimator in a handle.
    pub(crate) fn from_shared(inner: Arc<TooBusyShared>) -> (too_busy: Self)
        ensures
            too_busy@ == inner@,
    {
        TooBusy { inner }
    }

    /// The estimator that this handle leads to. A sampler keeps a weak
    /// reference to it, so that it never keeps the estimator alive.
    pub fn shared(&self) -> (shared: &Arc<TooBusyShared>)
        ensures
            shared@ == self@,
    {
        &self.inner
    }

    /// Reads the current smoothed busy ratio of the pool. Never blocks.
    pub fn ratio_busy_ewma(&self) -> u32 {
        self.inner.ratio_busy_ewma()
    }

    /// Decides whether the pool is too busy right now. Never below the low
    /// watermark, always from the high watermark upwards, and in between for
    /// a share of the calls that rises with the ratio.
    pub fn eval(&self) -> bool {
        self.inner.eval()
    }
}

impl Clone for TooBusy {
    /// Another handle to the same estimator.
    fn clone(&self) -> (other: Self)
        ensures
            other == *self,
    {
        TooBusy { inner: share(&self.inner) }
    }
}

} // verus!
