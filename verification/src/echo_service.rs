//! A service without state that is always ready and answers each request
//! with the text it was given.

use crate::service::Readiness;
use crate::service::Service;
use std::convert::Infallible;
use std::task::Context;
use vstd::prelude::*;
use vstd::std_specs::convert::IntoSpec;

verus! {

/// A request to echo: the text to send back.
#[derive(Debug, PartialEq)]
pub struct EchoRequest(pub String);

/// The answer to an `EchoRequest`: the text that came in.
#[derive(Debug, PartialEq)]
pub struct EchoResponse(pub String);

impl EchoRequest {
    /// The text of the request, as a new `String`.
    pub fn to_string(&self) -> (text: String)
        ensures
            text == self.0,
    {
        self.0.clone()
    }
}

impl EchoResponse {
    /// The text of the answer, as a new `String`.
    pub fn to_string(&self) -> (text: String)
        ensures
            text == self.0,
    {
        self.0.clone()
    }
}

impl<T: Into<String>> From<T> for EchoRequest {
    /// Makes a request out of anything that converts into a `String`: the
    /// text is what `value.into()` gives.
    fn from(value: T) -> (request: Self)
        ensures
            call_ensures(<T as Into<String>>::into, (value,), request.0),
    {
        EchoRequest(value.into())
    }
}

impl<T: Into<String>> vstd::std_specs::convert::FromSpecImpl<T> for EchoRequest {
    open spec fn obeys_from_spec() -> bool {
        <T as IntoSpec<String>>::obeys_into_spec()
    }

    open spec fn from_spec(value: T) -> Self {
        EchoRequest(value.into_spec())
    }
}

impl<T: Into<String>> From<T> for EchoResponse {
    /// Makes an answer out of anything that converts into a `String`: the
    /// text is what `value.into()` gives.
    fn from(value: T) -> (response: Self)
        ensures
            call_ensures(<T as Into<String>>::into, (value,), response.0),
    {
        EchoResponse(value.into())
    }
}

impl<T: Into<String>> vstd::std_specs::convert::FromSpecImpl<T> for EchoResponse {
    open spec fn obeys_from_spec() -> bool {
        <T as IntoSpec<String>>::obeys_into_spec()
    }

    open spec fn from_spec(value: T) -> Self {
        EchoResponse(value.into_spec())
    }
}

/// A service that keeps no state: it is ready at every check and answers
/// each request with the request's own text.
#[derive(Debug)]
pub struct EchoService;

impl Service<EchoRequest> for EchoService {
    type Response = EchoResponse;

    type Error = Infallible;

    /// An echo service can always be called.
    open spec fn granted(&self) -> bool {
        true
    }

    fn has_grant(&self) -> (b: bool) {
        true
    }

    /// Reports `Ready(Ok(()))`, whatever happened before. The waker is never
    /// needed.
    fn poll_ready(&mut self, _cx: &mut Context<'_>) -> (res: Readiness<Infallible>)
        ensures
            res == Readiness::<Infallible>::Ready(Ok(())),
    {
        Readiness::Ready(Ok(()))
    }

    /// Answers with the text of `req`, unchanged.
    fn call(&mut self, req: EchoRequest) -> (res: Result<EchoResponse, Infallible>)
        ensures
            res == Ok::<EchoResponse, Infallible>(EchoResponse(req.0)),
    {
        Ok(EchoResponse(req.0))
    }
}

} // verus!
