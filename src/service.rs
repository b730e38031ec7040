//! The service protocol: poll for readiness, then call with a request.
use vstd::prelude::*;

verus! {

/// The readiness outcome of futures 0.1, carried through unchanged.
#[verifier::external_type_specification]
#[verifier::external_body]
#[verifier::reject_recursive_types(T)]
pub struct ExAsync<T>(futures::Async<T>);

/// A client that is polled for readiness and then called with one request.
pub trait Service: Sized {
    type Request;
    type Response;
    type Error;
    type Future;

    /// `post` and `r` are a possible state and outcome of `poll_ready` on `self`.
    spec fn polled(self, post: Self, r: Result<futures::Async<()>, Self::Error>) -> bool;

    /// `post` and `f` are a possible state and future of `call(request)` on `self`.
    spec fn called(self, post: Self, request: Self::Request, f: Self::Future) -> bool;

    /// Reports whether the client can take a request now: ready, not yet ready, or failed.
    fn poll_ready(&mut self) -> (r: Result<futures::Async<()>, Self::Error>)
        ensures
            old(self).polled(*final(self), r),
    ;

    /// Hands one request to the client and returns the deferred response.
    fn call(&mut self, request: Self::Request) -> (f: Self::Future)
        ensures
            old(self).called(*final(self), request, f),
    ;
}

/// A factory that builds clients against a target.
pub trait NewClient: Sized {
    type Target: Clone;
    type Error;
    type Client: Service;

    /// The targets against which this factory builds a client without failing.
    spec fn valid_target(target: Self::Target) -> bool;

    /// `post` and `r` are a possible state and outcome of `new_client(&target)` on `self`.
    spec fn constructed(
        self,
        target: Self::Target,
        post: Self,
        r: Result<Self::Client, Self::Error>,
    ) -> bool;

    /// A clone of a valid target is valid too.
    proof fn lemma_clone_keeps_valid(a: Self::Target, b: Self::Target)
        requires
            Self::valid_target(a),
            cloned(a, b),
        ensures
            Self::valid_target(b),
    ;

    /// Builds a new client against `target`.
    fn new_client(&mut self, target: &Self::Target) -> (r: Result<Self::Client, Self::Error>)
        ensures
            r is Ok <==> Self::valid_target(*target),
            old(self).constructed(*target, *final(self), r),
    ;
}

/// Turns one factory into another.
pub trait MakeClient<N> {
    type NewClient;

    /// `r` is what `make_client(next)` on `self` returns.
    spec fn made(self, next: N, r: Self::NewClient) -> bool;

    fn make_client(&self, next: N) -> (r: Self::NewClient)
        ensures
            self.made(next, r),
    ;
}

} // verus!
