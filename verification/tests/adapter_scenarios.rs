use cxx_future::adapter::CxxFuture;
use cxx_future::adapter::Phase;
use cxx_future::adapter::PollResult;
use cxx_future::capability::WakerToken;
use cxx_future::counterpart::ModelCounterpart;
use cxx_future::exception::Exception;

#[test]
fn scenario_not_ready_then_wake() {
    let fake = ModelCounterpart::completes_on_registration(Ok(7u64));
    let mut fut = CxxFuture::new(fake);
    assert_eq!(fut.current_phase(), Phase::Pending);

    let token = WakerToken { id: 11 };
    match fut.poll(token) {
        PollResult::Suspended => {}
        _ => panic!("first poll must suspend"),
    }
    assert_eq!(fut.current_phase(), Phase::WakerRegistered);

    // The operation completed right after registration, on the foreign side:
    // the trampoline ran on exactly the registered token and reclaimed it.
    assert_eq!(fut.counterpart().wake_count(), 1);
    assert_eq!(fut.counterpart().woken_token(), Some(token));
    assert!(!fut.counterpart().holds_waker());

    match fut.poll(WakerToken { id: 12 }) {
        PollResult::Ready(Ok(v)) => assert_eq!(v, 7),
        _ => panic!("re-poll after the wake must be ready"),
    }
    assert_eq!(fut.current_phase(), Phase::Complete);
    assert!(fut.counterpart().result_taken());
    assert_eq!(fut.counterpart().register_count(), 1);
}

#[test]
fn scenario_immediately_ready() {
    let fake = ModelCounterpart::already_completed(Ok(5u32));
    let mut fut = CxxFuture::new(fake);
    match fut.poll(WakerToken { id: 1 }) {
        PollResult::Ready(Ok(v)) => assert_eq!(v, 5),
        _ => panic!("must be ready on the first poll"),
    }
    // Zero waker registrations, zero wakes.
    assert_eq!(fut.counterpart().register_count(), 0);
    assert_eq!(fut.counterpart().wake_count(), 0);
    assert!(!fut.counterpart().holds_waker());
    fut.destroy();
    assert_eq!(fut.counterpart().destroy_count(), 1);
}

#[test]
fn scenario_foreign_failure() {
    let outcome: Result<u32, Exception> = Err(Exception::new(String::from("boom")));
    let fake = ModelCounterpart::already_completed(outcome);
    let mut fut = CxxFuture::new(fake);
    match fut.poll(WakerToken { id: 2 }) {
        PollResult::Ready(Err(e)) => assert_eq!(e.what().as_str(), "boom"),
        _ => panic!("the failure must be surfaced"),
    }
    fut.destroy();
    assert_eq!(fut.counterpart().destroy_count(), 1);
    assert_eq!(fut.current_phase(), Phase::Destroyed);
}

#[test]
fn scenario_destroyed_while_pending() {
    let fake = ModelCounterpart::<u64>::never_ready();
    let mut fut = CxxFuture::new(fake);
    match fut.poll(WakerToken { id: 3 }) {
        PollResult::Suspended => {}
        _ => panic!("a never-ready operation must suspend"),
    }
    assert!(fut.counterpart().holds_waker());
    assert_eq!(fut.counterpart().register_count(), 1);

    fut.destroy();
    assert_eq!(fut.counterpart().destroy_count(), 1);
    // The outstanding token was reclaimed without running the trampoline.
    assert!(!fut.counterpart().holds_waker());
    assert_eq!(fut.counterpart().wake_count(), 0);
    assert_eq!(fut.current_phase(), Phase::Destroyed);
}

#[test]
fn destroy_before_any_poll() {
    let fake = ModelCounterpart::<u8>::never_ready();
    let mut fut = CxxFuture::new(fake);
    fut.destroy();
    // The foreign release ran exactly once, and the trampoline never ran;
    // no take attempt was ever made.
    assert_eq!(fut.counterpart().destroy_count(), 1);
    assert_eq!(fut.counterpart().wake_count(), 0);
    assert_eq!(fut.counterpart().probe_count(), 0);
    assert_eq!(fut.counterpart().register_count(), 0);
}

#[test]
fn complete_consumes_exactly_once() {
    let fake = ModelCounterpart::already_completed(Ok(1u64));
    let mut fut = CxxFuture::new(fake);
    match fut.poll(WakerToken { id: 5 }) {
        PollResult::Ready(Ok(v)) => assert_eq!(v, 1),
        _ => panic!("must be ready"),
    }
    assert!(fut.counterpart().result_taken());
    assert_eq!(fut.counterpart().probe_count(), 1);
    assert_eq!(fut.current_phase(), Phase::Complete);

    // Completion is terminal for polling: the one remaining transition is
    // destruction, and it makes no further take attempt.
    fut.destroy();
    assert_eq!(fut.counterpart().probe_count(), 1);
    assert_eq!(fut.counterpart().destroy_count(), 1);
}
