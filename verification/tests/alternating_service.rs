use std::convert::Infallible;
use std::sync::atomic::AtomicUsize;
use std::sync::atomic::Ordering;
use std::sync::Arc;
use std::task::Context;
use std::task::Wake;
use std::task::Waker;

use futures::task::noop_waker_ref;
use ready_service::alternating_service::AlternatingRequest;
use ready_service::alternating_service::AlternatingResponse;
use ready_service::alternating_service::AlternatingService;
use ready_service::service::Readiness;
use ready_service::service::Service;

/// A waker that counts how often it is woken.
struct CountingWaker {
    wakes: AtomicUsize,
}

impl Wake for CountingWaker {
    fn wake(self: Arc<Self>) {
        self.wakes.fetch_add(1, Ordering::SeqCst);
    }

    fn wake_by_ref(self: &Arc<Self>) {
        self.wakes.fetch_add(1, Ordering::SeqCst);
    }
}

fn pending() -> Readiness<Infallible> {
    Readiness::Pending
}

fn ready_ok() -> Readiness<Infallible> {
    Readiness::Ready(Ok(()))
}

#[test]
fn alternating_service_test_poll_ready() {
    let mut service = AlternatingService::default();

    let res = service.poll_ready(&mut Context::from_waker(noop_waker_ref()));
    assert!(res.is_pending());

    let res = service.poll_ready(&mut Context::from_waker(noop_waker_ref()));
    assert!(res.is_ready());
}

#[test]
fn check_until_ready_then_call_twice_over() {
    let mut cx = Context::from_waker(noop_waker_ref());

    // the loop checks until the service is ready, because the first check is pending
    let mut service = AlternatingService::default();
    while service.poll_ready(&mut cx).is_pending() {}
    let _response = service.call(AlternatingRequest).unwrap();

    // the same service goes through the cycle again
    while service.poll_ready(&mut cx).is_pending() {}
    let _response = service.call(AlternatingRequest).unwrap();
}

#[test]
fn first_check_is_pending_second_grants_then_call_then_pending() {
    let mut cx = Context::from_waker(noop_waker_ref());
    let mut service = AlternatingService::default();

    assert_eq!(service.poll_ready(&mut cx), pending());
    assert_eq!(service.poll_ready(&mut cx), ready_ok());
    assert_eq!(service.call(AlternatingRequest), Ok(AlternatingResponse));
    assert_eq!(service.poll_ready(&mut cx), pending());
}

#[test]
fn caller_loop_ends_after_two_checks() {
    let mut cx = Context::from_waker(noop_waker_ref());
    let mut service = AlternatingService::default();

    let mut checks = 0;
    loop {
        checks += 1;
        if service.poll_ready(&mut cx) == ready_ok() {
            break;
        }
        assert!(checks < 100);
    }
    assert_eq!(checks, 2);
    assert_eq!(service.call(AlternatingRequest), Ok(AlternatingResponse));
}

#[test]
fn checks_alternate_with_a_call_after_each_grant() {
    let mut cx = Context::from_waker(noop_waker_ref());
    let mut service = AlternatingService::default();

    for i in 0..20 {
        let res = service.poll_ready(&mut cx);
        if i % 2 == 0 {
            assert_eq!(res, pending());
        } else {
            assert_eq!(res, ready_ok());
            assert_eq!(service.call(AlternatingRequest), Ok(AlternatingResponse));
        }
    }
}

#[test]
fn checks_alternate_without_calls() {
    let mut cx = Context::from_waker(noop_waker_ref());
    let mut service = AlternatingService::default();

    for i in 0..20 {
        let res = service.poll_ready(&mut cx);
        if i % 2 == 0 {
            assert_eq!(res, pending());
        } else {
            assert_eq!(res, ready_ok());
        }
    }
}

#[test]
fn checks_alternate_when_only_some_grants_are_used() {
    let mut cx = Context::from_waker(noop_waker_ref());
    let mut service = AlternatingService::default();

    for i in 0..24 {
        let res = service.poll_ready(&mut cx);
        if i % 2 == 0 {
            assert_eq!(res, pending());
        } else {
            assert_eq!(res, ready_ok());
            if i % 3 == 0 {
                assert_eq!(service.call(AlternatingRequest), Ok(AlternatingResponse));
            }
        }
    }
}

#[test]
fn new_service_has_no_grant() {
    let service = AlternatingService::default();
    assert!(!service.has_grant());
}

#[test]
fn pending_check_gives_no_grant() {
    let mut cx = Context::from_waker(noop_waker_ref());
    let mut service = AlternatingService::default();

    assert_eq!(service.poll_ready(&mut cx), pending());
    assert!(!service.has_grant());
}

#[test]
fn grant_is_used_up_by_one_call() {
    let mut cx = Context::from_waker(noop_waker_ref());
    let mut service = AlternatingService::default();

    assert_eq!(service.poll_ready(&mut cx), pending());
    assert_eq!(service.poll_ready(&mut cx), ready_ok());
    assert!(service.has_grant());

    assert_eq!(service.call(AlternatingRequest), Ok(AlternatingResponse));
    assert!(!service.has_grant());

    assert_eq!(service.poll_ready(&mut cx), pending());
    assert!(!service.has_grant());
    assert_eq!(service.poll_ready(&mut cx), ready_ok());
    assert!(service.has_grant());
}

#[test]
fn unused_grant_is_withdrawn_by_the_next_check() {
    let mut cx = Context::from_waker(noop_waker_ref());
    let mut service = AlternatingService::default();

    assert_eq!(service.poll_ready(&mut cx), pending());
    assert_eq!(service.poll_ready(&mut cx), ready_ok());
    assert!(service.has_grant());
    assert_eq!(service.poll_ready(&mut cx), pending());
    assert!(!service.has_grant());
}

#[test]
fn pending_check_wakes_the_waker_once() {
    let counter = Arc::new(CountingWaker { wakes: AtomicUsize::new(0) });
    let waker = Waker::from(counter.clone());
    let mut cx = Context::from_waker(&waker);
    let mut service = AlternatingService::default();

    assert_eq!(service.poll_ready(&mut cx), pending());
    assert_eq!(counter.wakes.load(Ordering::SeqCst), 1);
}

#[test]
fn granting_check_does_not_wake_the_waker() {
    let counter = Arc::new(CountingWaker { wakes: AtomicUsize::new(0) });
    let waker = Waker::from(counter.clone());
    let mut cx = Context::from_waker(&waker);
    let mut service = AlternatingService::default();

    assert_eq!(service.poll_ready(&mut cx), pending());
    assert_eq!(service.poll_ready(&mut cx), ready_ok());
    assert_eq!(counter.wakes.load(Ordering::SeqCst), 1);

    assert_eq!(service.call(AlternatingRequest), Ok(AlternatingResponse));
    assert_eq!(counter.wakes.load(Ordering::SeqCst), 1);

    assert_eq!(service.poll_ready(&mut cx), pending());
    assert_eq!(counter.wakes.load(Ordering::SeqCst), 2);
}

#[test]
fn services_do_not_share_state() {
    let mut cx = Context::from_waker(noop_waker_ref());
    let mut first = AlternatingService::default();
    let mut second = AlternatingService::default();

    assert_eq!(first.poll_ready(&mut cx), pending());
    assert_eq!(second.poll_ready(&mut cx), pending());
    assert_eq!(first.poll_ready(&mut cx), ready_ok());
    assert!(first.has_grant());
    assert!(!second.has_grant());
    assert_eq!(second.poll_ready(&mut cx), ready_ok());
}

#[test]
fn readiness_tells_its_variants_apart() {
    assert!(pending().is_pending());
    assert!(!pending().is_ready());
    assert!(ready_ok().is_ready());
    assert!(!ready_ok().is_pending());

    let failed: Readiness<&str> = Readiness::Ready(Err("down"));
    assert!(failed.is_ready());
    assert!(!failed.is_pending());
}
