//! The memory limiter and its two-phase protocol.
//!
//! A caller first checks readiness and then invokes. The readiness check takes
//! a memory sample and applies the threshold to it. The limiter never waits and
//! never calls the wrapped unit by itself: each check ends in a [`Readiness`]
//! that tells the caller what to do next, and `call` hands the wrapped unit
//! out for the one invocation that a cleared check entitles to.
//!
//! A provider that cannot take a sample is a fatal condition of the check that
//! met it: the failure is reported by that check, at once, and is neither
//! retried nor held back until the next invocation.

use std::time::Duration;
use vstd::prelude::*;

use crate::error::MemCheckFailure;
use crate::memory::{sample_view, AvailableMemory, Threshold};

verus! {

/// Where a limiter stands in the protocol "check readiness, then invoke".
#[derive(Clone, Copy, Debug, PartialEq, Eq, Structural)]
pub enum LimiterState {
    /// Undecided. The limiter is new, a fresh copy or has just been invoked, or
    /// its last check could not take a sample.
    Unknown,
    /// The last check found the memory constrained; a re-check is due after the
    /// retry interval.
    NotReady,
    /// The last check cleared the threshold. Consumed by the next invocation.
    Ready,
}

/// What a readiness check asks of whoever drives the limiter.
#[must_use]
#[derive(Debug)]
pub enum Readiness {
    /// The memory is constrained. Arm the re-check timer to fire `retry_after`
    /// from now, replacing any earlier deadline, and report "not ready yet".
    /// When the timer fires, check again: that it fired says nothing about the
    /// memory.
    Constrained { retry_after: Duration },
    /// The threshold is cleared and the limiter is ready. Whether the caller
    /// may go on is now for the wrapped unit's own readiness to say.
    Cleared,
    /// The provider could not take a sample. Report this error; it is not retried.
    Failed(MemCheckFailure),
}

/// A `Readiness` with the failure seen as the text of its cause.
pub enum ReadinessView {
    Constrained { retry_after: Duration },
    Cleared,
    Failed(Option<Seq<char>>),
}

impl View for Readiness {
    type V = ReadinessView;

    open spec fn view(&self) -> ReadinessView {
        match self {
            Readiness::Constrained { retry_after } => ReadinessView::Constrained {
                retry_after: *retry_after,
            },
            Readiness::Cleared => ReadinessView::Cleared,
            Readiness::Failed(failure) => ReadinessView::Failed(failure@),
        }
    }
}

/// Something that happens to a limiter: a readiness check that observed a
/// sample, or an invocation.
pub enum Event {
    Check(Result<nat, Seq<char>>),
    Call,
}

/// The limiter as a value: what it wraps, its configuration, and its state.
pub struct LimiterView<T, M> {
    pub inner: T,
    pub threshold: Threshold,
    pub mem_checker: M,
    pub retry_interval: Duration,
    pub state: LimiterState,
}

impl<T, M> LimiterView<T, M> {
    pub open spec fn is_ready(self) -> bool {
        self.state == LimiterState::Ready
    }

    /// What a readiness check that observed `sample` asks of its caller.
    pub open spec fn outcome_of(self, sample: Result<nat, Seq<char>>) -> ReadinessView {
        match sample {
            Ok(bytes) => if self.threshold.constrained(bytes) {
                ReadinessView::Constrained { retry_after: self.retry_interval }
            } else {
                ReadinessView::Cleared
            },
            Err(cause) => ReadinessView::Failed(Some(cause)),
        }
    }

    /// The limiter after a readiness check that observed `sample`. Only the
    /// state changes, and it depends on the sample alone.
    pub open spec fn checked(self, sample: Result<nat, Seq<char>>) -> Self {
        LimiterView {
            state: match sample {
                Ok(bytes) => if self.threshold.constrained(bytes) {
                    LimiterState::NotReady
                } else {
                    LimiterState::Ready
                },
                Err(_) => LimiterState::Unknown,
            },
            ..self
        }
    }

    /// The limiter after an invocation: readiness is used up.
    pub open spec fn called(self) -> Self {
        LimiterView { state: LimiterState::Unknown, ..self }
    }

    pub open spec fn step(self, event: Event) -> Self {
        match event {
            Event::Check(sample) => self.checked(sample),
            Event::Call => self.called(),
        }
    }

    /// The limiter after `events`, in order.
    pub open spec fn run(self, events: Seq<Event>) -> Self
        decreases events.len(),
    {
        if events.len() == 0 {
            self
        } else {
            self.run(events.drop_last()).step(events.last())
        }
    }

    /// Whether every invocation among `events` finds the limiter ready.
    pub open spec fn follows_protocol(self, events: Seq<Event>) -> bool {
        forall|i: int|
            0 <= i < events.len() && events[i] is Call ==> #[trigger] self.run(
                events.take(i),
            ).is_ready()
    }
}

/// `count` readiness checks in a row that all observe `sample`.
pub open spec fn same_checks(sample: Result<nat, Seq<char>>, count: nat) -> Seq<Event> {
    Seq::new(count, |i: int| Event::Check(sample))
}

/// Whether `event` is a readiness check that clears `threshold`.
pub open spec fn clears(threshold: Threshold, event: Event) -> bool {
    event matches Event::Check(Ok(bytes)) && !threshold.constrained(bytes)
}

/// A run changes nothing of a limiter but its state.
pub proof fn lemma_run_keeps_configuration<T, M>(
    limiter: LimiterView<T, M>,
    events: Seq<Event>,
)
    ensures
        limiter.run(events) == (LimiterView {
            state: limiter.run(events).state,
            ..limiter
        }),
    decreases events.len(),
{
    if events.len() > 0 {
        lemma_run_keeps_configuration(limiter, events.drop_last());
    }
}

/// Readiness comes from the most recent event alone: after a run of at least
/// one event the limiter is ready exactly if the last event was a readiness
/// check that cleared the threshold. An invocation, a constrained sample and a
/// failed measurement each leave the limiter not ready, whatever went before.
pub proof fn law_ready_iff_last_check_cleared<T, M>(
    limiter: LimiterView<T, M>,
    events: Seq<Event>,
)
    requires
        events.len() > 0,
    ensures
        limiter.run(events).is_ready() <==> clears(limiter.threshold, events.last()),
{
    lemma_run_keeps_configuration(limiter, events.drop_last());
}

/// Readiness is single-use: in a run that starts from a limiter that is not
/// ready and in which every invocation finds the limiter ready, each invocation
/// comes directly after a readiness check that cleared the threshold.
pub proof fn law_call_follows_clearing_check<T, M>(
    limiter: LimiterView<T, M>,
    events: Seq<Event>,
    i: int,
)
    requires
        !limiter.is_ready(),
        limiter.follows_protocol(events),
        0 <= i < events.len(),
        events[i] is Call,
    ensures
        i > 0,
        clears(limiter.threshold, events[i - 1]),
{
    let before = events.take(i);
    assert(limiter.run(before).is_ready());
    if i == 0 {
        assert(limiter.run(before) == limiter);
    } else {
        law_ready_iff_last_check_cleared(limiter, before);
        assert(before.last() == events[i - 1]);
    }
}

/// A measurement that failed is reported as a failure that carries its cause,
/// and leaves the limiter not ready; it is never passed off as "not ready yet".
/// Nothing but a failed measurement is reported as a failure: a constrained
/// sample only ever suspends.
pub proof fn law_failure_iff_measurement_failed<T, M>(
    limiter: LimiterView<T, M>,
    sample: Result<nat, Seq<char>>,
)
    ensures
        sample is Err <==> limiter.outcome_of(sample) is Failed,
        sample matches Err(cause) ==> limiter.outcome_of(sample) == ReadinessView::Failed(
            Some(cause),
        ),
        sample is Err ==> !limiter.checked(sample).is_ready(),
{
}

/// While the provider keeps reporting a sample below the threshold, every
/// readiness check suspends the caller for one full retry interval and leaves
/// the limiter not ready, however many checks there are. The first check after
/// the sample has been raised to a value that is not constrained clears the
/// limiter.
pub proof fn law_constrained_until_raised<T, M>(
    limiter: LimiterView<T, M>,
    low: nat,
    checks: nat,
    raised: nat,
)
    requires
        limiter.threshold.constrained(low),
        !limiter.threshold.constrained(raised),
    ensures
        forall|k: nat|
            1 <= k <= checks ==> (#[trigger] limiter.run(
                same_checks(Ok(low), k),
            )).state == LimiterState::NotReady,
        forall|k: nat|
            k <= checks ==> (#[trigger] limiter.run(
                same_checks(Ok(low), k),
            )).outcome_of(Ok(low)) == (ReadinessView::Constrained {
                retry_after: limiter.retry_interval,
            }),
        ({
            let suspended = limiter.run(same_checks(Ok(low), checks));
            &&& suspended.outcome_of(Ok(raised)) == ReadinessView::Cleared
            &&& suspended.checked(Ok(raised)).is_ready()
        }),
{
    assert forall|k: nat| k <= checks implies {
        let after = #[trigger] limiter.run(same_checks(Ok(low), k));
        &&& k >= 1 ==> after.state == LimiterState::NotReady
        &&& after.outcome_of(Ok(low)) == (ReadinessView::Constrained {
            retry_after: limiter.retry_interval,
        })
    } by {
        let events = same_checks(Ok(low), k);
        lemma_run_keeps_configuration(limiter, events);
        if k >= 1 {
            lemma_run_keeps_configuration(limiter, events.drop_last());
        }
    }
    lemma_run_keeps_configuration(limiter, same_checks(Ok(low), checks));
}

/// Enforces a limit on the wrapped unit while a memory threshold is met.
///
/// The limiter decides; it neither waits nor calls the wrapped unit. A caller
/// drives it through `poll_ready` and, once that has cleared the threshold,
/// `call`.
#[derive(Debug)]
pub struct MemoryLimit<T, M> where M: AvailableMemory {
    inner: T,
    threshold: Threshold,
    mem_checker: M,
    retry_interval: Duration,
    state: LimiterState,
}

impl<T, M: AvailableMemory> View for MemoryLimit<T, M> {
    type V = LimiterView<T, M>;

    closed spec fn view(&self) -> LimiterView<T, M> {
        LimiterView {
            inner: self.inner,
            threshold: self.threshold,
            mem_checker: self.mem_checker,
            retry_interval: self.retry_interval,
            state: self.state,
        }
    }
}

impl<T, M: AvailableMemory> MemoryLimit<T, M> {
    /// Create a new memory limiter. No readiness has been established yet.
    pub fn new(
        inner: T,
        threshold: Threshold,
        mem_checker: M,
        retry_interval: Duration,
    ) -> (limiter: Self)
        ensures
            limiter@ == (LimiterView {
                inner,
                threshold,
                mem_checker,
                retry_interval,
                state: LimiterState::Unknown,
            }),
    {
        MemoryLimit {
            inner,
            threshold,
            mem_checker,
            retry_interval,
            state: LimiterState::Unknown,
        }
    }

    /// The readiness check: takes a sample from the provider and decides on it
    /// as `on_sample` does.
    pub fn poll_ready(&mut self) -> (outcome: Readiness)
        ensures
            exists|sample: Result<usize, String>|
                {
                    &&& #[trigger] call_ensures(
                        M::available_memory,
                        (&old(self)@.mem_checker,),
                        sample,
                    )
                    &&& final(self)@ == old(self)@.checked(sample_view(sample))
                    &&& outcome@ == old(self)@.outcome_of(sample_view(sample))
                },
    {
        let sample = self.mem_checker.available_memory();
        self.on_sample(sample)
    }

    /// Decides a readiness check on the sample that the provider returned.
    ///
    /// A failed measurement is reported at once and leaves the limiter
    /// undecided. A sample that the threshold counts as constrained suspends
    /// the caller for one full retry interval. Any other sample makes the
    /// limiter ready.
    pub fn on_sample(&mut self, sample: Result<usize, String>) -> (outcome: Readiness)
        ensures
            final(self)@ == old(self)@.checked(sample_view(sample)),
            outcome@ == old(self)@.outcome_of(sample_view(sample)),
    {
        match sample {
            Ok(bytes) => {
                if self.threshold.is_constrained(bytes) {
                    self.state = LimiterState::NotReady;
                    Readiness::Constrained { retry_after: self.retry_interval }
                } else {
                    self.state = LimiterState::Ready;
                    Readiness::Cleared
                }
            },
            Err(cause) => {
                self.state = LimiterState::Unknown;
                Readiness::Failed(MemCheckFailure::new(cause))
            },
        }
    }

    /// The invocation: uses up the readiness and hands out the wrapped unit for
    /// the one call that it entitles to.
    ///
    /// Invoking a limiter that is not ready is a violation of the protocol; the
    /// precondition rules it out.
    pub fn call(&mut self) -> (inner: &mut T)
        requires
            old(self)@.is_ready(),
        ensures
            *inner == old(self)@.inner,
            final(self)@ == (LimiterView { inner: *final(inner), ..old(self)@.called() }),
    {
        self.state = LimiterState::Unknown;
        &mut self.inner
    }

    /// The invocation for callers that cannot show that the limiter is ready:
    /// hands out the wrapped unit as `call` does if the limiter is ready, and
    /// `None`, with the limiter unchanged, if it is not. `None` marks a bug of
    /// the caller, who must not go on with the request.
    pub fn try_call(&mut self) -> (inner: Option<&mut T>)
        ensures
            match inner {
                Some(inner) => {
                    &&& old(self)@.is_ready()
                    &&& *inner == old(self)@.inner
                    &&& final(self)@ == (LimiterView {
                        inner: *final(inner),
                        ..old(self)@.called()
                    })
                },
                None => !old(self)@.is_ready() && final(self)@ == old(self)@,
            },
    {
        if self.is_ready() {
            Some(self.call())
        } else {
            None
        }
    }

    /// Whether the last readiness check cleared the threshold and no invocation
    /// has used that up.
    pub fn is_ready(&self) -> (ready: bool)
        ensures
            ready == self@.is_ready(),
    {
        self.state == LimiterState::Ready
    }

    /// Where the limiter stands in the protocol.
    pub fn state(&self) -> (state: LimiterState)
        ensures
            state == self@.state,
    {
        self.state
    }

    /// The threshold that the limiter enforces.
    pub fn threshold(&self) -> (threshold: &Threshold)
        ensures
            *threshold == self@.threshold,
    {
        &self.threshold
    }

    /// How long the caller is suspended after a constrained sample.
    pub fn retry_interval(&self) -> (retry_interval: Duration)
        ensures
            retry_interval == self@.retry_interval,
    {
        self.retry_interval
    }

    /// Get a reference to the inner service
    pub fn get_ref(&self) -> (inner: &T)
        ensures
            *inner == self@.inner,
    {
        &self.inner
    }

    /// Get a mutable reference to the inner service
    pub fn get_mut(&mut self) -> (inner: &mut T)
        ensures
            *inner == old(self)@.inner,
            final(self)@ == (LimiterView { inner: *final(inner), ..old(self)@ }),
    {
        &mut self.inner
    }

    /// Consume `self`, returning the inner service
    pub fn into_inner(self) -> (inner: T)
        ensures
            inner == self@.inner,
    {
        self.inner
    }
}

impl<T: Clone, M: AvailableMemory> Clone for MemoryLimit<T, M> {
    /// Duplicates the configuration, never the state: the clone starts
    /// undecided, whatever `self` had established.
    fn clone(&self) -> (limiter: Self)
        ensures
            cloned(self@.inner, limiter@.inner),
            limiter@.threshold == self@.threshold,
            cloned(self@.mem_checker, limiter@.mem_checker),
            limiter@.retry_interval == self@.retry_interval,
            limiter@.state == LimiterState::Unknown,
    {
        MemoryLimit {
            inner: self.inner.clone(),
            threshold: self.threshold.clone(),
            mem_checker: self.mem_checker.clone(),
            retry_interval: self.retry_interval,
            state: LimiterState::Unknown,
        }
    }
}

} // verus!
