use std::time::Duration;

use tower_memlim::{
    error::MemCheckFailure,
    future::ResponseFuture,
    layer::{MemoryLimitLayer, DEFAULT_RETRY_MILLIS},
    memory::{AvailableMemory, Threshold},
    service::{LimiterState, MemoryLimit, Readiness},
};

#[derive(Clone, Debug, PartialEq)]
struct Fixed(Result<usize, String>);

impl AvailableMemory for Fixed {
    fn available_memory(&self) -> Result<usize, String> {
        self.0.clone()
    }
}

fn limiter(min: u64, millis: u64) -> MemoryLimit<Vec<u8>, Fixed> {
    MemoryLimit::new(
        vec![1, 2, 3],
        Threshold::MinAvailableBytes(min),
        Fixed(Ok(0)),
        Duration::from_millis(millis),
    )
}

#[test]
fn failure_carries_its_cause() {
    let failure = MemCheckFailure::new(String::from("meminfo is gone"));
    assert_eq!(failure.cause(), Some(&String::from("meminfo is gone")));
    assert_eq!(failure.into_cause(), Some(String::from("meminfo is gone")));
}

#[test]
fn default_failure_has_no_cause() {
    let failure = MemCheckFailure::default();
    assert_eq!(failure.cause(), None);
    assert_eq!(failure.into_cause(), None);
}

#[test]
fn taking_a_failure_leaves_none_behind() {
    let mut failure = MemCheckFailure::new(String::from("cause"));
    let taken = failure.take();
    assert_eq!(taken.into_cause(), Some(String::from("cause")));
    assert_eq!(failure.cause(), None);
    // Taking again yields the emptied failure.
    assert_eq!(failure.take().into_cause(), None);
}

#[test]
fn called_handle_gives_the_inner_future() {
    let handle = ResponseFuture::called(7u32);
    assert!(matches!(handle.into_result(), Ok(7)));
}

#[test]
fn failed_handle_gives_the_failure() {
    let handle: ResponseFuture<u32> =
        ResponseFuture::failed(MemCheckFailure::new(String::from("cause")));
    match handle.into_result() {
        Err(failure) => assert_eq!(failure.into_cause(), Some(String::from("cause"))),
        Ok(_) => panic!("a failed handle has no inner future"),
    }
}

#[test]
fn layer_defaults_to_fifty_milliseconds() {
    assert_eq!(DEFAULT_RETRY_MILLIS, 50);
    let layer = MemoryLimitLayer::new(Threshold::MinAvailableBytes(10), Fixed(Ok(0)));
    assert_eq!(layer.retry_interval(), Duration::from_millis(50));
    assert_eq!(layer.retry_interval().as_millis(), 50);
    assert!(matches!(layer.threshold(), Threshold::MinAvailableBytes(10)));
}

#[test]
fn layer_takes_a_custom_retry_interval() {
    let layer = MemoryLimitLayer::new(Threshold::MinAvailableBytes(10), Fixed(Ok(0)))
        .with_retry_interval(Duration::from_secs(3));
    assert_eq!(layer.retry_interval(), Duration::from_secs(3));
    assert!(matches!(layer.threshold(), Threshold::MinAvailableBytes(10)));
    assert_eq!(layer.available_memory(), Ok(0));
}

#[test]
fn layer_reports_what_the_provider_reports() {
    let fine = MemoryLimitLayer::new(Threshold::MinAvailableBytes(10), Fixed(Ok(4096)));
    assert_eq!(fine.available_memory(), Ok(4096));
    let broken = MemoryLimitLayer::new(
        Threshold::MinAvailableBytes(10),
        Fixed(Err(String::from("unavailable"))),
    );
    assert_eq!(broken.available_memory(), Err(String::from("unavailable")));
}

#[test]
fn layer_hands_its_configuration_to_the_limiter() {
    let layer = MemoryLimitLayer::new(Threshold::MinAvailableBytes(77), Fixed(Ok(76)))
        .with_retry_interval(Duration::from_millis(5));
    let mut made = layer.layer("inner");
    assert_eq!(*made.get_ref(), "inner");
    assert!(matches!(made.threshold(), Threshold::MinAvailableBytes(77)));
    assert_eq!(made.retry_interval(), Duration::from_millis(5));
    assert_eq!(made.state(), LimiterState::Unknown);
    // The provider came along: 76 is below 77.
    match made.poll_ready() {
        Readiness::Constrained { retry_after } => {
            assert_eq!(retry_after, Duration::from_millis(5))
        }
        other => panic!("expected a constrained check, got {:?}", other),
    }
    // The layer can be used again.
    let again = layer.layer("other");
    assert_eq!(*again.get_ref(), "other");
}

#[test]
fn layer_clone_keeps_the_configuration() {
    let layer = MemoryLimitLayer::new(Threshold::MinAvailableBytes(10), Fixed(Ok(12)))
        .with_retry_interval(Duration::from_millis(20));
    let copy = layer.clone();
    assert!(matches!(copy.threshold(), Threshold::MinAvailableBytes(10)));
    assert_eq!(copy.retry_interval(), Duration::from_millis(20));
    assert_eq!(copy.available_memory(), Ok(12));
}

#[test]
fn new_limiter_stores_what_it_is_given() {
    let made = limiter(10, 50);
    assert_eq!(*made.get_ref(), vec![1, 2, 3]);
    assert!(matches!(made.threshold(), Threshold::MinAvailableBytes(10)));
    assert_eq!(made.retry_interval(), Duration::from_millis(50));
    assert_eq!(made.state(), LimiterState::Unknown);
    assert!(!made.is_ready());
    assert_eq!(made.into_inner(), vec![1, 2, 3]);
}

#[test]
fn get_mut_reaches_the_inner_unit_and_keeps_the_state() {
    let mut made = limiter(10, 50);
    made.get_mut().push(4);
    assert_eq!(*made.get_ref(), vec![1, 2, 3, 4]);
    assert_eq!(made.state(), LimiterState::Unknown);

    assert!(matches!(made.on_sample(Ok(10)), Readiness::Cleared));
    made.get_mut().push(5);
    assert_eq!(made.state(), LimiterState::Ready);
    assert_eq!(made.into_inner(), vec![1, 2, 3, 4, 5]);
}

#[test]
fn constrained_sample_suspends_for_the_retry_interval() {
    let mut made = limiter(10, 250);
    match made.on_sample(Ok(9)) {
        Readiness::Constrained { retry_after } => {
            assert_eq!(retry_after, Duration::from_millis(250))
        }
        other => panic!("expected a constrained check, got {:?}", other),
    }
    assert_eq!(made.state(), LimiterState::NotReady);
    assert!(!made.is_ready());
}

#[test]
fn every_constrained_check_asks_for_a_full_interval() {
    let mut made = limiter(10, 50);
    for _ in 0..5 {
        match made.poll_ready() {
            Readiness::Constrained { retry_after } => {
                assert_eq!(retry_after, Duration::from_millis(50))
            }
            other => panic!("expected a constrained check, got {:?}", other),
        }
        assert_eq!(made.state(), LimiterState::NotReady);
    }
    assert!(matches!(made.on_sample(Ok(10)), Readiness::Cleared));
    assert_eq!(made.state(), LimiterState::Ready);
}

#[test]
fn boundary_sample_clears_the_limiter() {
    let mut made = limiter(10, 50);
    assert!(matches!(made.on_sample(Ok(10)), Readiness::Cleared));
    assert_eq!(made.state(), LimiterState::Ready);
    assert!(made.is_ready());
}

#[test]
fn failed_sample_is_reported_with_its_cause() {
    let mut made = limiter(10, 50);
    match made.on_sample(Err(String::from("memory.max: permission denied"))) {
        Readiness::Failed(failure) => assert_eq!(
            failure.into_cause(),
            Some(String::from("memory.max: permission denied"))
        ),
        other => panic!("expected a failed check, got {:?}", other),
    }
    assert_eq!(made.state(), LimiterState::Unknown);
}

#[test]
fn failed_sample_after_a_constrained_one_is_not_a_silent_wait() {
    let mut made = limiter(10, 50);
    assert!(matches!(made.on_sample(Ok(3)), Readiness::Constrained { .. }));
    assert!(matches!(
        made.on_sample(Err(String::from("gone"))),
        Readiness::Failed(_)
    ));
    assert_eq!(made.state(), LimiterState::Unknown);
}

#[test]
fn call_uses_the_readiness_up() {
    let mut made = limiter(10, 50);
    assert!(matches!(made.on_sample(Ok(11)), Readiness::Cleared));
    assert!(made.is_ready());
    made.call().push(9);
    assert!(!made.is_ready());
    assert_eq!(made.state(), LimiterState::Unknown);
    assert_eq!(*made.get_ref(), vec![1, 2, 3, 9]);
    // The next check starts over.
    assert!(matches!(made.on_sample(Ok(11)), Readiness::Cleared));
    assert!(made.is_ready());
}

#[test]
fn clone_does_not_inherit_readiness() {
    let mut made = limiter(10, 75);
    assert!(matches!(made.on_sample(Ok(11)), Readiness::Cleared));
    let mut copy = made.clone();
    assert!(made.is_ready());
    assert!(!copy.is_ready());
    assert_eq!(copy.state(), LimiterState::Unknown);
    assert_eq!(*copy.get_ref(), vec![1, 2, 3]);
    assert!(matches!(copy.threshold(), Threshold::MinAvailableBytes(10)));
    assert_eq!(copy.retry_interval(), Duration::from_millis(75));
    // The copies are independent.
    assert!(matches!(copy.on_sample(Ok(1)), Readiness::Constrained { .. }));
    assert!(made.is_ready());
    copy.get_mut().clear();
    assert_eq!(*made.get_ref(), vec![1, 2, 3]);
}

#[test]
fn try_call_refuses_a_limiter_that_is_not_ready() {
    let mut made = limiter(10, 50);
    // Undecided.
    assert!(made.try_call().is_none());
    assert_eq!(made.state(), LimiterState::Unknown);
    // Constrained.
    assert!(matches!(made.on_sample(Ok(9)), Readiness::Constrained { .. }));
    assert!(made.try_call().is_none());
    assert_eq!(made.state(), LimiterState::NotReady);
    // Failed.
    assert!(matches!(
        made.on_sample(Err(String::from("gone"))),
        Readiness::Failed(_)
    ));
    assert!(made.try_call().is_none());
    assert_eq!(*made.get_ref(), vec![1, 2, 3]);
}

#[test]
fn try_call_hands_out_the_inner_unit_once() {
    let mut made = limiter(10, 50);
    assert!(matches!(made.on_sample(Ok(10)), Readiness::Cleared));
    match made.try_call() {
        Some(inner) => inner.push(7),
        None => panic!("a cleared limiter admits one invocation"),
    }
    assert_eq!(*made.get_ref(), vec![1, 2, 3, 7]);
    assert_eq!(made.state(), LimiterState::Unknown);
    assert!(made.try_call().is_none());
}

#[test]
fn repeated_cleared_checks_admit_one_invocation() {
    let mut made = limiter(10, 50);
    assert!(matches!(made.on_sample(Ok(10)), Readiness::Cleared));
    assert!(matches!(made.on_sample(Ok(usize::MAX)), Readiness::Cleared));
    assert!(made.try_call().is_some());
    assert!(made.try_call().is_none());
}
