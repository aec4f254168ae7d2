//! A service with one unit of capacity that comes back on every other
//! readiness check, so that a caller has to wait and check again.

use crate::service::Readiness;
use crate::service::Service;
use std::convert::Infallible;
use std::task::Context;
use vstd::prelude::*;

verus! {

/// The request that an `AlternatingService` takes. It carries nothing.
#[derive(Debug, PartialEq)]
pub struct AlternatingRequest;

/// The answer of an `AlternatingService`. It carries nothing.
#[derive(Debug, PartialEq)]
pub struct AlternatingResponse;

/// The state of an `AlternatingService`, as contracts see it.
pub struct Gate {
    /// Whether the next readiness check will report `Ready(Ok(()))`.
    pub ready: bool,
    /// Whether a grant is outstanding: the last check reported
    /// `Ready(Ok(()))` and no call has used it.
    pub granted: bool,
}

impl Gate {
    /// The state of a new service: not ready, and no grant.
    pub open spec fn fresh() -> Gate {
        Gate { ready: false, granted: false }
    }

    /// What a readiness check reports in this state.
    pub open spec fn outcome(self) -> Readiness<Infallible> {
        if self.ready {
            Readiness::Ready(Ok(()))
        } else {
            Readiness::Pending
        }
    }

    /// The state that a readiness check leaves: readiness has flipped, and a
    /// grant is outstanding exactly when the check reported `Ready(Ok(()))`.
    pub open spec fn after_check(self) -> Gate {
        Gate { ready: !self.ready, granted: self.ready }
    }

    /// The state that a call leaves: the grant is used up and the service is
    /// not ready.
    pub open spec fn after_call(self) -> Gate {
        Gate { ready: false, granted: false }
    }
}

/// A service that reports `Pending` and `Ready(Ok(()))` in turn, and takes
/// one request after each `Ready(Ok(()))`.
#[derive(Debug)]
pub struct AlternatingService {
    ready_state: bool,
    grant: bool,
}

impl View for AlternatingService {
    type V = Gate;

    closed spec fn view(&self) -> Gate {
        Gate { ready: self.ready_state, granted: self.grant }
    }
}

impl AlternatingService {
    /// A grant is never outstanding while the next check would hand out
    /// another one.
    #[verifier::type_invariant]
    spec fn at_most_one_grant(self) -> bool {
        !(self.ready_state && self.grant)
    }
}

impl Default for AlternatingService {
    /// A new service: its first readiness check reports `Pending`.
    fn default() -> (service: Self)
        ensures
            service@ == Gate::fresh(),
    {
        AlternatingService { ready_state: false, grant: false }
    }
}

impl Service<AlternatingRequest> for AlternatingService {
    type Response = AlternatingResponse;

    type Error = Infallible;

    open spec fn granted(&self) -> bool {
        self@.granted
    }

    fn has_grant(&self) -> (b: bool) {
        self.grant
    }

    /// Reports what the state before the check calls for, and flips
    /// readiness. When it reports `Pending` it first wakes the waker of `cx`,
    /// so that the caller checks again.
    fn poll_ready(&mut self, cx: &mut Context<'_>) -> (res: Readiness<Infallible>)
        ensures
            res == old(self)@.outcome(),
            final(self)@ == old(self)@.after_check(),
    {
        if self.ready_state {
            self.ready_state = false;
            self.grant = true;
            Readiness::Ready(Ok(()))
        } else {
            cx.waker().wake_by_ref();
            self.grant = false;
            self.ready_state = true;
            Readiness::Pending
        }
    }

    /// Uses up the grant and answers the request.
    fn call(&mut self, _req: AlternatingRequest) -> (res: Result<AlternatingResponse, Infallible>)
        ensures
            res == Ok::<AlternatingResponse, Infallible>(AlternatingResponse),
            final(self)@ == old(self)@.after_call(),
    {
        self.ready_state = false;
        self.grant = false;
        Ok(AlternatingResponse)
    }
}

/// One use of a service: a readiness check or a call.
pub enum Step {
    /// A readiness check.
    Check,
    /// A call.
    Call,
}

impl Gate {
    /// The state that `step` leaves.
    pub open spec fn after(self, step: Step) -> Gate {
        match step {
            Step::Check => self.after_check(),
            Step::Call => self.after_call(),
        }
    }

    /// Whether the protocol allows `step` in this state: a check is always
    /// allowed, a call only with a grant.
    pub open spec fn allows(self, step: Step) -> bool {
        step is Call ==> self.granted
    }
}

/// The state of a service that was new and then went through `steps`.
pub open spec fn state_after(steps: Seq<Step>) -> Gate
    decreases steps.len(),
{
    if steps.len() == 0 {
        Gate::fresh()
    } else {
        state_after(steps.drop_last()).after(steps.last())
    }
}

/// Whether a new service allows each of `steps` in turn, that is, whether
/// every call among them finds a grant.
pub open spec fn follows_protocol(steps: Seq<Step>) -> bool
    decreases steps.len(),
{
    steps.len() == 0 || (follows_protocol(steps.drop_last()) && state_after(
        steps.drop_last(),
    ).allows(steps.last()))
}

/// What the readiness checks among `steps` report, in order, on a service
/// that was new.
pub open spec fn check_outcomes(steps: Seq<Step>) -> Seq<Readiness<Infallible>>
    decreases steps.len(),
{
    if steps.len() == 0 {
        Seq::empty()
    } else {
        let earlier = check_outcomes(steps.drop_last());
        match steps.last() {
            Step::Check => earlier.push(state_after(steps.drop_last()).outcome()),
            Step::Call => earlier,
        }
    }
}

/// What the check at position `i` reports when checks alternate and the
/// first one reports `Pending`.
pub open spec fn alternation(i: int) -> Readiness<Infallible> {
    if i % 2 == 0 {
        Readiness::Pending
    } else {
        Readiness::Ready(Ok(()))
    }
}

/// A grant is outstanding exactly when the latest step was a readiness check
/// that reported `Ready(Ok(()))`. Neither an earlier check nor one with a
/// call after it gives a grant.
pub proof fn lemma_grant_comes_from_latest_check(steps: Seq<Step>)
    ensures
        state_after(steps).granted <==> steps.len() > 0 && steps.last() is Check && state_after(
            steps.drop_last(),
        ).outcome() == Readiness::<Infallible>::Ready(Ok(())),
{
}

/// On a new service whose calls all find a grant, the readiness checks
/// report `Pending`, `Ready(Ok(()))`, `Pending`, `Ready(Ok(()))` and so on,
/// however many calls and checks there are.
pub proof fn lemma_checks_alternate(steps: Seq<Step>)
    requires
        follows_protocol(steps),
    ensures
        forall|i: int|
            0 <= i < check_outcomes(steps).len() ==> #[trigger] check_outcomes(steps)[i]
                == alternation(i),
        state_after(steps).outcome() == alternation(check_outcomes(steps).len() as int),
        !(state_after(steps).ready && state_after(steps).granted),
    decreases steps.len(),
{
    if steps.len() > 0 {
        lemma_checks_alternate(steps.drop_last());
    }
}

/// After a readiness check that reported `Ready(Ok(()))`, one call is
/// allowed and a second call right after it is not.
pub proof fn lemma_grant_is_used_once(steps: Seq<Step>)
    requires
        follows_protocol(steps),
        steps.len() > 0,
        steps.last() is Check,
        check_outcomes(steps).last() == Readiness::<Infallible>::Ready(Ok(())),
    ensures
        follows_protocol(steps.push(Step::Call)),
        !follows_protocol(steps.push(Step::Call).push(Step::Call)),
{
    assert(steps.push(Step::Call).drop_last() == steps);
}

/// Every call that the protocol allows comes right after a readiness check
/// that reported `Ready(Ok(()))`: not first, not after another call, and not
/// after a check that reported `Pending`.
pub proof fn lemma_call_follows_granting_check(steps: Seq<Step>)
    requires
        follows_protocol(steps.push(Step::Call)),
    ensures
        steps.len() > 0,
        steps.last() is Check,
        check_outcomes(steps).last() == Readiness::<Infallible>::Ready(Ok(())),
{
    assert(steps.push(Step::Call).drop_last() == steps);
}

/// A new service allows no call: its first step has to be a readiness check.
pub proof fn lemma_new_service_allows_no_call()
    ensures
        !Gate::fresh().allows(Step::Call),
        !follows_protocol(seq![Step::Call]),
        forall|steps: Seq<Step>|
            steps.len() > 0 && #[trigger] follows_protocol(steps) ==> steps[0] is Check,
{
    assert forall|steps: Seq<Step>|
        steps.len() > 0 && #[trigger] follows_protocol(steps) implies steps[0] is Check by {
        lemma_first_step_is_check(steps);
    }
}

proof fn lemma_first_step_is_check(steps: Seq<Step>)
    requires
        steps.len() > 0,
        follows_protocol(steps),
    ensures
        steps[0] is Check,
    decreases steps.len(),
{
    if steps.len() > 1 {
        lemma_first_step_is_check(steps.drop_last());
    }
}

} // verus!
