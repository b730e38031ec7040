//! The bookkeeping of a per-request client, as a state machine over steps.
use vstd::prelude::*;

verus! {

/// One step of the protocol, as seen from outside the client.
pub enum Step {
    /// A readiness poll; `true` when it did not fail (ready or not yet ready).
    Poll(bool),
    /// A call with one request.
    Call,
}

/// What a per-request client has done so far.
pub ghost struct Tally {
    /// A client is bound and waits for the next request.
    pub armed: bool,
    /// How many clients were built against the target, the validating one included.
    pub built: nat,
    /// How many requests were handed to a client.
    pub served: nat,
}

/// The tally of a client just made: the validating client is bound, nothing served.
pub open spec fn fresh_tally() -> Tally {
    Tally { armed: true, built: 1, served: 0 }
}

/// The tally after one step.
///
/// A poll with a bound client goes to that client and builds nothing. A poll
/// without one builds a client and keeps it bound unless its poll failed. A call
/// takes the bound client, or builds one when none is bound, and leaves none bound.
pub open spec fn next_tally(t: Tally, s: Step) -> Tally {
    match s {
        Step::Poll(ok) => if t.armed {
            t
        } else {
            Tally { armed: ok, built: t.built + 1, served: t.served }
        },
        Step::Call => Tally {
            armed: false,
            built: if t.armed { t.built } else { t.built + 1 },
            served: t.served + 1,
        },
    }
}

/// The tally after a sequence of steps.
pub open spec fn run(t: Tally, steps: Seq<Step>) -> Tally
    decreases steps.len(),
{
    if steps.len() == 0 {
        t
    } else {
        run(next_tally(t, steps[0]), steps.drop_first())
    }
}

/// `n` polls that do not fail.
pub open spec fn polls(n: nat) -> Seq<Step> {
    Seq::new(n, |i: int| Step::Poll(true))
}

/// `n` calls.
pub open spec fn calls(n: nat) -> Seq<Step> {
    Seq::new(n, |i: int| Step::Call)
}

/// Running `a` then `b` is running `a + b`.
pub proof fn lemma_run_append(t: Tally, a: Seq<Step>, b: Seq<Step>)
    ensures
        run(t, a + b) == run(run(t, a), b),
    decreases a.len(),
{
    if a.len() > 0 {
        assert((a + b).drop_first() =~= a.drop_first() + b);
        lemma_run_append(next_tally(t, a[0]), a.drop_first(), b);
    } else {
        assert(a + b =~= b);
    }
}

/// Running one step is taking that step.
pub proof fn lemma_run_one(t: Tally, s: Step)
    ensures
        run(t, seq![s]) == next_tally(t, s),
{
    let one = seq![s];
    assert(one.drop_first() =~= Seq::<Step>::empty());
    assert(run(next_tally(t, s), Seq::<Step>::empty()) == next_tally(t, s));
}

/// Polls on a client that is bound build nothing and leave it bound.
pub proof fn lemma_polls_on_armed(t: Tally, n: nat)
    requires
        t.armed,
    ensures
        run(t, polls(n)) == t,
    decreases n,
{
    if n > 0 {
        assert(polls(n).drop_first() =~= polls((n - 1) as nat));
        lemma_polls_on_armed(t, (n - 1) as nat);
    }
}

/// The first poll of a fresh client goes to the validating client: no second
/// client is built, however the poll turns out.
pub proof fn lemma_first_poll_reuses(ok: bool)
    ensures
        run(fresh_tally(), seq![Step::Poll(ok)]).built == 1,
        run(fresh_tally(), seq![Step::Poll(ok)]).armed,
{
    lemma_run_one(fresh_tally(), Step::Poll(ok));
}

/// After a call, the next poll builds a new client and does not reuse the one
/// that served the call.
pub proof fn lemma_poll_after_call_builds(t: Tally, ok: bool)
    ensures
        next_tally(next_tally(t, Step::Call), Step::Poll(ok)).built
            == next_tally(t, Step::Call).built + 1,
        !next_tally(t, Step::Call).armed,
{
}

/// Calls without any poll are each served: the first by the validating client,
/// each later one by a client built for it.
pub proof fn lemma_calls_without_polls(n: nat)
    requires
        n >= 1,
    ensures
        run(fresh_tally(), calls(n)) == (Tally { armed: false, built: n, served: n }),
    decreases n,
{
    if n == 1 {
        assert(calls(1) =~= seq![Step::Call]);
        lemma_run_one(fresh_tally(), Step::Call);
    } else {
        assert(calls(n) =~= calls((n - 1) as nat) + seq![Step::Call]);
        lemma_calls_without_polls((n - 1) as nat);
        lemma_run_append(fresh_tally(), calls((n - 1) as nat), seq![Step::Call]);
        lemma_run_one(run(fresh_tally(), calls((n - 1) as nat)), Step::Call);
    }
}

/// Polls, a call, polls and a call build exactly two clients and serve two
/// requests, however many polls come before each call, when none fails.
pub proof fn lemma_two_rounds(a: nat, b: nat)
    requires
        a >= 1,
        b >= 1,
    ensures
        run(fresh_tally(), polls(a) + seq![Step::Call] + polls(b) + seq![Step::Call])
            == (Tally { armed: false, built: 2, served: 2 }),
{
    let c = seq![Step::Call];
    lemma_run_append(fresh_tally(), polls(a) + c + polls(b), c);
    lemma_run_append(fresh_tally(), polls(a) + c, polls(b));
    lemma_run_append(fresh_tally(), polls(a), c);
    lemma_polls_on_armed(fresh_tally(), a);
    let t1 = next_tally(fresh_tally(), Step::Call);
    assert(t1 == Tally { armed: false, built: 1, served: 1 });
    lemma_run_one(run(fresh_tally(), polls(a)), Step::Call);
    let t2 = next_tally(t1, Step::Poll(true));
    assert(polls(b) =~= seq![Step::Poll(true)] + polls((b - 1) as nat));
    lemma_run_append(t1, seq![Step::Poll(true)], polls((b - 1) as nat));
    lemma_run_one(t1, Step::Poll(true));
    lemma_polls_on_armed(t2, (b - 1) as nat);
    lemma_run_one(run(fresh_tally(), polls(a) + c + polls(b)), Step::Call);
}

} // verus!
