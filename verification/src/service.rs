//! The protocol that every service follows: a readiness check that may grant
//! capacity for one request, and a call that uses the grant.

use std::task::Context;
use std::task::Waker;
use vstd::prelude::*;

verus! {

/// `std::task::Context`, the handle through which a service reaches the
/// caller's waker. Nothing is known of its contents.
#[verifier::external_type_specification]
#[verifier::external_body]
pub struct ExContext<'a>(Context<'a>);

/// `std::task::Waker`, the caller's wake-up token. Nothing is known of its
/// contents.
#[verifier::external_type_specification]
#[verifier::external_body]
pub struct ExWaker(Waker);

/// `Context::waker` hands out the waker that the context was made from.
/// Nothing is claimed of it.
pub assume_specification<'a>[ Context::<'a>::waker ](cx: &Context<'a>) -> (waker: &'a Waker);

/// `Waker::wake_by_ref` tells the caller's scheduler to check the service
/// again. Its effect lies outside the library, so nothing is claimed of it.
pub assume_specification[ Waker::wake_by_ref ](waker: &Waker);

/// What a readiness check reports.
#[derive(Debug, PartialEq)]
pub enum Readiness<E> {
    /// The check is settled: `Ok` grants capacity for one call, `Err` reports
    /// that the service has failed.
    Ready(Result<(), E>),
    /// The service has no capacity now and has asked the waker to have it
    /// checked again.
    Pending,
}

impl<E> Readiness<E> {
    /// Whether the check granted capacity for one call: it is settled, and
    /// without a failure.
    pub open spec fn grants(self) -> bool {
        self matches Readiness::Ready(Ok(_))
    }

    /// True when the check is settled, with a grant or with a failure.
    pub fn is_ready(&self) -> (b: bool)
        ensures
            b == (self is Ready),
    {
        match self {
            Readiness::Ready(_) => true,
            Readiness::Pending => false,
        }
    }

    /// True when the service had no capacity.
    pub fn is_pending(&self) -> (b: bool)
        ensures
            b == (self is Pending),
    {
        match self {
            Readiness::Ready(_) => false,
            Readiness::Pending => true,
        }
    }
}

/// A component that takes requests one at a time and says beforehand whether
/// it can take the next one.
///
/// A caller checks readiness with `poll_ready` until it reports
/// `Ready(Ok(()))`, which grants capacity for one request, and then hands the
/// request over with `call`. Calling without a grant breaks the protocol:
/// `call` requires the grant, so verified callers cannot do it, and other
/// callers test `has_grant` first.
pub trait Service<Request> {
    /// What the service answers to a request.
    type Response;

    /// How the service reports that it has failed.
    type Error;

    /// Whether the service holds a grant that no call has used yet.
    spec fn granted(&self) -> bool;

    /// Tells whether `call` may be called now.
    fn has_grant(&self) -> (b: bool)
        ensures
            b == self.granted(),
    ;

    /// Checks whether the service can take a request, without blocking.
    ///
    /// The service holds a grant afterwards exactly when the check reports
    /// `Ready(Ok(()))`; a grant that was not used does not outlast the next
    /// check. Before it reports `Pending`, the service asks the
    /// waker of `cx` to have it checked again.
    fn poll_ready(&mut self, cx: &mut Context<'_>) -> (res: Readiness<Self::Error>)
        ensures
            final(self).granted() == res.grants(),
    ;

    /// Hands `req` to the service and returns its answer.
    fn call(&mut self, req: Request) -> (res: Result<Self::Response, Self::Error>)
        requires
            old(self).granted(),
    ;
}

} // verus!
