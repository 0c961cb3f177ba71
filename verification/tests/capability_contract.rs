use cxx_future::capability::FutureResult;
use cxx_future::capability::ProbeOutcome;
use cxx_future::capability::WakerToken;
use cxx_future::counterpart::ModelCounterpart;
use cxx_future::exception::Exception;

#[test]
fn repeated_probes_before_readiness_change_nothing() {
    let mut fake = ModelCounterpart::<u16>::never_ready();
    let mut round: u32 = 0;
    while round < 3 {
        match fake.try_move_result() {
            ProbeOutcome::Pending => {}
            _ => panic!("a never-ready operation must report pending"),
        }
        round += 1;
    }
    assert_eq!(fake.probe_count(), 3);
    assert!(!fake.result_taken());
    assert!(!fake.holds_waker());
    assert_eq!(fake.wake_count(), 0);
    assert!(!fake.is_destroyed());
}

#[test]
fn wake_before_next_poll_is_not_missed() {
    let mut fake = ModelCounterpart::completes_on_registration(Ok(9i32));
    match fake.try_move_result() {
        ProbeOutcome::Pending => {}
        _ => panic!("still in flight at the first probe"),
    }
    // Handing the token over races the completion: the operation finishes
    // and the trampoline runs before the next probe.
    fake.register_waker(WakerToken { id: 4 });
    assert_eq!(fake.wake_count(), 1);
    assert_eq!(fake.woken_token(), Some(WakerToken { id: 4 }));
    assert!(!fake.holds_waker());
    match fake.try_move_result() {
        ProbeOutcome::Ready(v) => assert_eq!(v, 9),
        _ => panic!("the probe after the wake must observe readiness"),
    }
}

#[test]
fn registration_stores_the_token_while_in_flight() {
    let mut fake = ModelCounterpart::<u8>::never_ready();
    match fake.try_move_result() {
        ProbeOutcome::Pending => {}
        _ => panic!("still in flight"),
    }
    fake.register_waker(WakerToken { id: 21 });
    assert!(fake.holds_waker());
    assert_eq!(fake.wake_count(), 0);
    assert_eq!(fake.register_count(), 1);
}

#[test]
fn destroy_reclaims_everything() {
    let mut fake = ModelCounterpart::completes_on_registration(Ok(3u64));
    match fake.try_move_result() {
        ProbeOutcome::Pending => {}
        _ => panic!("still in flight"),
    }
    fake.destroy();
    assert!(fake.is_destroyed());
    assert_eq!(fake.destroy_count(), 1);
    assert!(!fake.holds_waker());
    assert_eq!(fake.wake_count(), 0);
}

#[test]
fn failure_probe_reports_the_failure() {
    let outcome: Result<u8, Exception> = Err(Exception::new(String::from("torn down")));
    let mut fake = ModelCounterpart::already_completed(outcome);
    match fake.try_move_result() {
        ProbeOutcome::Failed(e) => assert_eq!(e.what().as_str(), "torn down"),
        _ => panic!("the failure must come out of the probe"),
    }
    assert!(fake.result_taken());
}

#[test]
fn exception_carries_description() {
    let e = Exception::new(String::from("bad alloc"));
    assert_eq!(e.what().as_str(), "bad alloc");
}
