use std::cell::RefCell;
use std::collections::VecDeque;
use std::rc::Rc;

use client_per_request::{Make, MakeClient, NewClient, NewClientPerRequest, Service};
use futures::Async;

/// What the fake factory and its clients have seen.
#[derive(Default)]
struct Log {
    built: usize,
    polls: Vec<usize>,
    calls: Vec<(usize, u32)>,
    outcomes: VecDeque<Result<Async<()>, String>>,
}

type Shared = Rc<RefCell<Log>>;

struct FakeClient {
    id: usize,
    log: Shared,
}

impl Service for FakeClient {
    type Request = u32;
    type Response = u32;
    type Error = String;
    type Future = (usize, u32);

    // The traits' logical items have to exist outside the verifier too; the
    // fakes make no promise about their outcomes.
    fn polled(self, _post: Self, _r: Result<Async<()>, String>) -> bool {
        true
    }

    fn called(self, _post: Self, _request: u32, _f: (usize, u32)) -> bool {
        true
    }

    fn poll_ready(&mut self) -> Result<Async<()>, String> {
        let mut log = self.log.borrow_mut();
        log.polls.push(self.id);
        log.outcomes.pop_front().unwrap_or(Ok(Async::Ready(())))
    }

    fn call(&mut self, request: u32) -> (usize, u32) {
        self.log.borrow_mut().calls.push((self.id, request));
        (self.id, request)
    }
}

#[derive(Clone)]
struct FakeFactory {
    log: Shared,
}

impl NewClient for FakeFactory {
    type Target = String;
    type Error = String;
    type Client = FakeClient;

    fn valid_target(target: String) -> bool {
        target.as_str() != "unreachable"
    }

    fn constructed(
        self,
        _target: String,
        _post: Self,
        _r: Result<FakeClient, String>,
    ) -> bool {
        true
    }

    fn lemma_clone_keeps_valid(_a: String, _b: String) {}

    fn new_client(&mut self, target: &String) -> Result<FakeClient, String> {
        if target.as_str() == "unreachable" {
            return Err(format!("cannot reach {}", target));
        }
        let mut log = self.log.borrow_mut();
        log.built += 1;
        Ok(FakeClient { id: log.built, log: self.log.clone() })
    }
}

fn setup() -> (Shared, NewClientPerRequest<FakeFactory>) {
    let log: Shared = Rc::new(RefCell::new(Log::default()));
    let factory = FakeFactory { log: log.clone() };
    (log, Make.make_client(factory))
}

fn built(log: &Shared) -> usize {
    log.borrow().built
}

#[test]
fn first_poll_reuses_validating_client() {
    let (log, mut factory) = setup();
    let mut svc = factory.new_client(&"a".to_string()).ok().unwrap();
    assert_eq!(built(&log), 1);
    assert!(matches!(svc.poll_ready(), Ok(Async::Ready(()))));
    assert_eq!(built(&log), 1);
    assert_eq!(log.borrow().polls, vec![1]);
}

#[test]
fn poll_after_call_builds_new_client() {
    let (log, mut factory) = setup();
    let mut svc = factory.new_client(&"a".to_string()).ok().unwrap();
    assert!(svc.poll_ready().is_ok());
    assert_eq!(svc.call(5), (1, 5));
    assert_eq!(built(&log), 1);
    assert!(svc.poll_ready().is_ok());
    assert_eq!(built(&log), 2);
    assert_eq!(log.borrow().polls, vec![1, 2]);
}

#[test]
fn call_without_poll_builds_on_demand() {
    let (log, mut factory) = setup();
    let mut svc = factory.new_client(&"a".to_string()).ok().unwrap();
    assert_eq!(svc.call(1), (1, 1));
    assert_eq!(svc.call(2), (2, 2));
    assert_eq!(svc.call(3), (3, 3));
    assert_eq!(built(&log), 3);
    assert!(log.borrow().polls.is_empty());
    assert_eq!(log.borrow().calls, vec![(1, 1), (2, 2), (3, 3)]);
}

#[test]
fn pending_polls_build_nothing() {
    let (log, mut factory) = setup();
    let mut svc = factory.new_client(&"a".to_string()).ok().unwrap();
    log.borrow_mut().outcomes.push_back(Ok(Async::NotReady));
    log.borrow_mut().outcomes.push_back(Ok(Async::NotReady));
    assert!(matches!(svc.poll_ready(), Ok(Async::NotReady)));
    assert!(matches!(svc.poll_ready(), Ok(Async::NotReady)));
    assert!(matches!(svc.poll_ready(), Ok(Async::Ready(()))));
    assert_eq!(svc.call(10), (1, 10));
    log.borrow_mut().outcomes.push_back(Ok(Async::NotReady));
    log.borrow_mut().outcomes.push_back(Ok(Async::NotReady));
    log.borrow_mut().outcomes.push_back(Ok(Async::NotReady));
    assert!(matches!(svc.poll_ready(), Ok(Async::NotReady)));
    assert!(matches!(svc.poll_ready(), Ok(Async::NotReady)));
    assert!(matches!(svc.poll_ready(), Ok(Async::NotReady)));
    assert!(matches!(svc.poll_ready(), Ok(Async::Ready(()))));
    assert_eq!(svc.call(20), (2, 20));
    assert_eq!(built(&log), 2);
    assert_eq!(log.borrow().calls, vec![(1, 10), (2, 20)]);
}

#[test]
fn two_requests_scenario() {
    let (log, mut factory) = setup();
    let mut svc = factory.new_client(&"a".to_string()).ok().unwrap();
    assert_eq!(built(&log), 1);
    assert!(matches!(svc.poll_ready(), Ok(Async::Ready(()))));
    assert_eq!(built(&log), 1);
    assert_eq!(svc.call(7), (1, 7));
    assert_eq!(built(&log), 1);
    log.borrow_mut().outcomes.push_back(Ok(Async::NotReady));
    assert!(matches!(svc.poll_ready(), Ok(Async::NotReady)));
    assert_eq!(built(&log), 2);
    assert_eq!(svc.call(8), (2, 8));
    assert_eq!(built(&log), 2);
    assert_eq!(log.borrow().calls, vec![(1, 7), (2, 8)]);
    // The slot is empty again: the next call builds a third client.
    assert_eq!(svc.call(9), (3, 9));
}

#[test]
fn poll_error_of_bound_client_is_propagated() {
    let (log, mut factory) = setup();
    let mut svc = factory.new_client(&"a".to_string()).ok().unwrap();
    log.borrow_mut().outcomes.push_back(Err("broken".to_string()));
    assert_eq!(svc.poll_ready().err(), Some("broken".to_string()));
    assert_eq!(built(&log), 1);
    // The bound client stays bound.
    assert_eq!(svc.call(4), (1, 4));
}

#[test]
fn poll_error_of_new_client_is_propagated_and_client_dropped() {
    let (log, mut factory) = setup();
    let mut svc = factory.new_client(&"a".to_string()).ok().unwrap();
    assert_eq!(svc.call(1), (1, 1));
    log.borrow_mut().outcomes.push_back(Err("refused".to_string()));
    assert_eq!(svc.poll_ready().err(), Some("refused".to_string()));
    assert_eq!(built(&log), 2);
    // The failed client was not kept: the call builds a third.
    assert_eq!(svc.call(2), (3, 2));
}

#[test]
fn unusable_target_fails_at_construction() {
    let (log, mut factory) = setup();
    let r = factory.new_client(&"unreachable".to_string());
    assert_eq!(r.err().map(|_| ()), Some(()));
    assert_eq!(built(&log), 0);
}

#[test]
fn unusable_target_error_is_the_factory_error() {
    let (_log, mut factory) = setup();
    match factory.new_client(&"unreachable".to_string()) {
        Err(e) => assert_eq!(e, "cannot reach unreachable"),
        Ok(_) => panic!("the target should be refused"),
    }
}

#[test]
fn each_service_builds_against_its_own_target() {
    let (log, mut factory) = setup();
    let mut a = factory.new_client(&"a".to_string()).ok().unwrap();
    let mut b = factory.new_client(&"b".to_string()).ok().unwrap();
    assert_eq!(built(&log), 2);
    assert_eq!(a.call(1), (1, 1));
    assert_eq!(b.call(2), (2, 2));
    assert_eq!(a.call(3), (3, 3));
    assert_eq!(built(&log), 3);
}

#[test]
fn cloned_factory_builds_through_the_same_inner_factory() {
    let (log, factory) = setup();
    let mut copy = factory.clone();
    let mut svc = copy.new_client(&"a".to_string()).ok().unwrap();
    assert_eq!(built(&log), 1);
    assert_eq!(svc.call(1), (1, 1));
    assert_eq!(svc.call(2), (2, 2));
    assert_eq!(built(&log), 2);
}
