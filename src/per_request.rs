//! A factory adapter and a client that build a disposable client per request.
use vstd::prelude::*;

use crate::protocol::{fresh_tally, next_tally, Step, Tally};
use crate::service::{MakeClient, NewClient, Service};

verus! {

/// Makes a `NewClientPerRequest` from any factory.
pub struct Make;

/// A `NewClient` that builds a single-serving client for each request.
#[derive(Debug)]
pub struct NewClientPerRequest<N: NewClient>(N);

/// A `Service` that hands each request to a client of its own.
///
/// It has no `Clone` or `Debug`: those would need them on `N::Client`, which
/// `NewClient` does not ask for.
///
/// A client bound by `poll_ready` serves the next request; a call without one
/// builds a client on the spot. `ClientPerRequest` does not handle any
/// underlying error, and an instance is not to be used after an error.
pub struct ClientPerRequest<N: NewClient> {
    // When `poll_ready` is called, the client for the next request may be bound
    // ahead of time. It serves only that request.
    next: Option<N::Client>,
    new_client: ValidNewClient<N>,
    served: Ghost<nat>,
}

/// A target against which every `N` builds clients without failing.
struct ValidTarget<N: NewClient> {
    target: N::Target,
}

impl<N: NewClient> ValidTarget<N> {
    #[verifier::type_invariant]
    spec fn is_valid(self) -> bool {
        N::valid_target(self.target)
    }
}

/// A `NewClient` and a target against which it is known to build clients.
///
/// It has no `Debug`, which would need it on `N::Target`. Its `Clone` is written
/// out, since a clone of the target is known to be valid only by
/// `NewClient::lemma_clone_keeps_valid`.
pub struct ValidNewClient<N: NewClient> {
    new_client: N,
    target: ValidTarget<N>,
    built: Ghost<nat>,
}

impl<N: NewClient> ValidNewClient<N> {
    /// The factory.
    pub closed spec fn factory(self) -> N {
        self.new_client
    }

    /// The target, against which the factory does not fail.
    pub closed spec fn target(self) -> N::Target {
        self.target.target
    }

    /// How many clients were built against the target, the validating one included.
    pub closed spec fn built(self) -> nat {
        self.built@
    }

    /// Builds a client against the target, which cannot fail.
    pub fn mk(&mut self) -> (r: N::Client)
        ensures
            final(self).target() == old(self).target(),
            N::valid_target(final(self).target()),
            final(self).built() == old(self).built() + 1,
            old(self).factory().constructed(old(self).target(), final(self).factory(), Ok(r)),
    {
        proof {
            use_type_invariant(&self.target);
        }
        let r = self.new_client.new_client(&self.target.target);
        self.built = Ghost(self.built@ + 1);
        proof {
            use_type_invariant(&self.target);
        }
        match r {
            Ok(c) => c,
            // The target is valid, so the factory does not fail on it.
            Err(_) => vstd::pervasive::unreached(),
        }
    }
}

impl<N: NewClient + Clone> Clone for ValidNewClient<N> {
    fn clone(&self) -> (r: Self)
        ensures
            cloned(self.factory(), r.factory()),
            cloned(self.target(), r.target()),
            r.built() == self.built(),
    {
        proof {
            use_type_invariant(&self.target);
        }
        let target = self.target.target.clone();
        proof {
            N::lemma_clone_keeps_valid(self.target.target, target);
        }
        ValidNewClient {
            new_client: self.new_client.clone(),
            target: ValidTarget { target },
            built: Ghost(self.built@),
        }
    }
}

impl<N: NewClient> MakeClient<N> for Make {
    type NewClient = NewClientPerRequest<N>;

    open spec fn made(self, next: N, r: NewClientPerRequest<N>) -> bool {
        r.inner() == next
    }

    fn make_client(&self, next: N) -> (r: NewClientPerRequest<N>) {
        NewClientPerRequest(next)
    }
}

impl<N: NewClient> NewClientPerRequest<N> {
    /// The factory that builds the clients.
    pub closed spec fn inner(self) -> N {
        self.0
    }
}

impl<N: NewClient + Clone> Clone for NewClientPerRequest<N> {
    fn clone(&self) -> (r: Self)
        ensures
            cloned(self.inner(), r.inner()),
    {
        NewClientPerRequest(self.0.clone())
    }
}

impl<N: NewClient + Clone> NewClient for NewClientPerRequest<N> {
    type Target = N::Target;
    type Error = N::Error;
    type Client = ClientPerRequest<N>;

    open spec fn valid_target(target: N::Target) -> bool {
        N::valid_target(target)
    }

    /// On success the new client holds the client that the inner factory built
    /// against `target`, bound for its first request, a clone of `target`, and a
    /// clone of the inner factory for the clients to come. On failure the inner factory's error comes back unchanged.
    open spec fn constructed(
        self,
        target: N::Target,
        post: Self,
        r: Result<ClientPerRequest<N>, N::Error>,
    ) -> bool {
        match r {
            Ok(s) => {
                &&& s.tally() == fresh_tally()
                &&& cloned(target, s.target())
                &&& cloned(post.inner(), s.factory())
                &&& s.slot() is Some
                &&& self.inner().constructed(target, post.inner(), Ok(s.slot()->0))
            },
            Err(e) => self.inner().constructed(target, post.inner(), Err(e)),
        }
    }

    proof fn lemma_clone_keeps_valid(a: N::Target, b: N::Target) {
        N::lemma_clone_keeps_valid(a, b);
    }

    /// Builds one client against `target` at once, so that an unusable target
    /// fails here, and binds it for the first request.
    fn new_client(&mut self, target: &N::Target) -> (r: Result<ClientPerRequest<N>, N::Error>) {
        let next = match self.0.new_client(target) {
            Ok(c) => c,
            Err(e) => return Err(e),
        };
        let bound = target.clone();
        proof {
            N::lemma_clone_keeps_valid(*target, bound);
        }
        let valid = ValidNewClient {
            new_client: self.0.clone(),
            target: ValidTarget { target: bound },
            built: Ghost(1),
        };
        Ok(ClientPerRequest { next: Some(next), new_client: valid, served: Ghost(0) })
    }
}

impl<N: NewClient> ClientPerRequest<N> {
    /// The client bound for the next request, if any.
    pub closed spec fn slot(self) -> Option<N::Client> {
        self.next
    }

    /// The target that every client here is built against.
    pub closed spec fn target(self) -> N::Target {
        self.new_client.target()
    }

    /// The factory that builds the clients here.
    pub closed spec fn factory(self) -> N {
        self.new_client.factory()
    }

    /// How many clients were built against the target, the validating one included.
    pub closed spec fn built(self) -> nat {
        self.new_client.built()
    }

    /// How many requests were handed to a client.
    pub closed spec fn served(self) -> nat {
        self.served@
    }

    /// What this client has done so far: a client is bound exactly when the
    /// slot holds one.
    pub open spec fn tally(self) -> Tally {
        Tally { armed: self.slot() is Some, built: self.built(), served: self.served() }
    }
}

impl<N: NewClient> Service for ClientPerRequest<N> {
    type Request = <<N as NewClient>::Client as Service>::Request;
    type Response = <<N as NewClient>::Client as Service>::Response;
    type Error = <<N as NewClient>::Client as Service>::Error;
    type Future = <<N as NewClient>::Client as Service>::Future;

    /// A bound client is polled in place and stays bound, whatever its poll
    /// gives. Without one, a new client is built and polled, and bound only if
    /// its poll did not fail. The outcome is that client's, unchanged.
    open spec fn polled(
        self,
        post: Self,
        r: Result<futures::Async<()>, <<N as NewClient>::Client as Service>::Error>,
    ) -> bool {
        &&& post.tally() == next_tally(self.tally(), Step::Poll(r is Ok))
        &&& post.target() == self.target()
        &&& match self.slot() {
            Some(c) => {
                &&& post.slot() is Some
                &&& c.polled(post.slot()->0, r)
                &&& post.factory() == self.factory()
            },
            None => exists|k: N::Client, k2: N::Client|
                {
                    &&& self.factory().constructed(self.target(), post.factory(), Ok(k))
                    &&& #[trigger] k.polled(k2, r)
                    &&& (r is Ok ==> post.slot() == Some(k2))
                },
        }
    }

    /// The request goes to the bound client, or to a client built for it when
    /// none is bound; its future comes back unchanged, and none is bound after.
    open spec fn called(
        self,
        post: Self,
        request: <<N as NewClient>::Client as Service>::Request,
        f: <<N as NewClient>::Client as Service>::Future,
    ) -> bool {
        &&& post.tally() == next_tally(self.tally(), Step::Call)
        &&& post.target() == self.target()
        &&& post.slot() is None
        &&& match self.slot() {
            Some(c) => {
                &&& exists|c2: N::Client| #[trigger] c.called(c2, request, f)
                &&& post.factory() == self.factory()
            },
            None => exists|k: N::Client, k2: N::Client|
                {
                    &&& self.factory().constructed(self.target(), post.factory(), Ok(k))
                    &&& #[trigger] k.called(k2, request, f)
                },
        }
    }

    fn poll_ready(&mut self) -> (r: Result<futures::Async<()>, Self::Error>) {
        match self.next.take() {
            Some(mut svc) => {
                let r = svc.poll_ready();
                self.next = Some(svc);
                r
            },
            None => {
                let mut svc = self.new_client.mk();
                let r = svc.poll_ready();
                match r {
                    Ok(ready) => {
                        self.next = Some(svc);
                        Ok(ready)
                    },
                    Err(e) => Err(e),
                }
            },
        }
    }

    fn call(&mut self, request: Self::Request) -> (f: Self::Future) {
        // A client bound in `poll_ready` is consumed; otherwise one is built now.
        let mut svc = match self.next.take() {
            Some(svc) => svc,
            None => self.new_client.mk(),
        };
        self.served = Ghost(self.served@ + 1);
        svc.call(request)
    }
}

} // verus!
