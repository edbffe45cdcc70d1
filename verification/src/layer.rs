//! Construction of limiters from a threshold, a provider and a retry interval.

use std::time::Duration;
use vstd::prelude::*;

use crate::memory::{AvailableMemory, Threshold};
use crate::service::{LimiterState, MemoryLimit};

verus! {

/// The duration of `millis` milliseconds.
pub uninterp spec fn duration_of_millis(millis: u64) -> Duration;

/// `std::time::Duration::from_millis` is taken on trust: it returns the duration
/// of the given number of milliseconds, the same for the same number.
pub assume_specification[ Duration::from_millis ](millis: u64) -> (duration: Duration)
    ensures
        duration == duration_of_millis(millis),
;

/// The retry interval of a layer for which none was chosen, in milliseconds.
pub const DEFAULT_RETRY_MILLIS: u64 = 50;

/// A layer as a value: the configuration that its limiters get.
pub struct LayerView<M> {
    pub threshold: Threshold,
    pub retry_interval: Duration,
    pub provider: M,
}

/// Enforces a limit on the underlying service when a memory [`Threshold`] is met.
///
/// A limiter made by this layer only signals "not ready". To shed load, put a
/// collaborator in front of it that answers "not ready" with a rejection;
/// without one, callers wait until the memory is available again.
#[derive(Debug)]
pub struct MemoryLimitLayer<M> where M: AvailableMemory {
    threshold: Threshold,
    /// Interval after which the next memory check is due, if the threshold is
    /// exceeded. It has no effect for a caller that rejects instead of waiting.
    retry_interval: Duration,
    /// Memory stats provider
    provider: M,
}

impl<M: AvailableMemory> View for MemoryLimitLayer<M> {
    type V = LayerView<M>;

    closed spec fn view(&self) -> LayerView<M> {
        LayerView {
            threshold: self.threshold,
            retry_interval: self.retry_interval,
            provider: self.provider,
        }
    }
}

impl<M: AvailableMemory> MemoryLimitLayer<M> {
    /// Get the available memory. Can be used to validate the memory stats
    /// provider before adding the layer. The result is the provider's own.
    pub fn available_memory(&self) -> (sample: Result<usize, String>)
        ensures
            call_ensures(M::available_memory, (&self@.provider,), sample),
    {
        self.provider.available_memory()
    }

    /// Create a new memory limit layer with the default retry interval of 50ms.
    pub fn new(threshold: Threshold, provider: M) -> (layer: Self)
        ensures
            layer@ == (LayerView {
                threshold,
                retry_interval: duration_of_millis(DEFAULT_RETRY_MILLIS),
                provider,
            }),
    {
        MemoryLimitLayer {
            threshold,
            provider,
            retry_interval: Duration::from_millis(DEFAULT_RETRY_MILLIS),
        }
    }

    /// Set a custom retry interval, which determines when the next memory check
    /// is due if the threshold is exceeded.
    pub fn with_retry_interval(self, retry_interval: Duration) -> (layer: Self)
        ensures
            layer@ == (LayerView { retry_interval, ..self@ }),
    {
        MemoryLimitLayer { threshold: self.threshold, provider: self.provider, retry_interval }
    }

    /// Wraps `service` in a limiter with this layer's configuration. The limiter
    /// starts undecided.
    pub fn layer<S>(&self, service: S) -> (limiter: MemoryLimit<S, M>)
        ensures
            limiter@.inner == service,
            limiter@.threshold == self@.threshold,
            cloned(self@.provider, limiter@.mem_checker),
            limiter@.retry_interval == self@.retry_interval,
            limiter@.state == LimiterState::Unknown,
    {
        MemoryLimit::new(
            service,
            self.threshold.clone(),
            self.provider.clone(),
            self.retry_interval,
        )
    }

    /// The threshold that limiters of this layer enforce.
    pub fn threshold(&self) -> (threshold: &Threshold)
        ensures
            *threshold == self@.threshold,
    {
        &self.threshold
    }

    /// The retry interval that limiters of this layer get.
    pub fn retry_interval(&self) -> (retry_interval: Duration)
        ensures
            retry_interval == self@.retry_interval,
    {
        self.retry_interval
    }
}

impl<M: AvailableMemory> Clone for MemoryLimitLayer<M> {
    fn clone(&self) -> (layer: Self)
        ensures
            layer@.threshold == self@.threshold,
            layer@.retry_interval == self@.retry_interval,
            cloned(self@.provider, layer@.provider),
    {
        MemoryLimitLayer {
            threshold: self.threshold.clone(),
            retry_interval: self.retry_interval,
            provider: self.provider.clone(),
        }
    }
}

} // verus!
