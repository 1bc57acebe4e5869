use papi::backoff::BackoffState;
use papi::events::encode_events;
use papi::events::Counter;
use papi::lock::Action;
use papi::lock::CounterLock;
use papi::lock::LockGuard;
use papi::session::CounterSet;
use papi::status::check_status;
use papi::status::status_description;
use papi::status::CounterError;
use papi::workload::fib;

fn acquire(lock: &mut CounterLock) -> LockGuard {
    lock.try_acquire().expect("lock should be free")
}

#[test]
fn counter_set() {
    let mut lock = CounterLock::new();
    let guard = acquire(&mut lock);
    let events = vec![Counter::PAPI_TOT_INS, Counter::PAPI_TOT_CYC];
    let mut counters = CounterSet::new(&mut lock, guard, &events, 0).unwrap();

    let _start = counters.read(0, &vec![0, 0]).unwrap();
    let _x = fib(14);
    let _stop = counters.accum(0, &vec![9000, 4000]).unwrap();
    counters.stop(&mut lock, 0).unwrap();
}

#[test]
fn lock_mutual_exclusion() {
    let mut lock = CounterLock::new();
    let first = lock.try_acquire();
    assert!(first.is_some());
    // While one guard is outstanding, every further attempt is refused.
    assert!(lock.try_acquire().is_none());
    assert!(lock.try_acquire().is_none());
    lock.release(first.unwrap());
}

#[test]
fn lock_release_enables_acquire() {
    let mut lock = CounterLock::new();
    let guard = acquire(&mut lock);
    assert!(lock.try_acquire().is_none());
    lock.release(guard);
    // After a release the very next attempt succeeds, with no outside help.
    let again = lock.try_acquire();
    assert!(again.is_some());
    lock.release(again.unwrap());
}

#[test]
fn read_idempotent_without_reset() {
    let mut lock = CounterLock::new();
    let guard = acquire(&mut lock);
    let events = vec![Counter::PAPI_TOT_INS];
    let mut session = CounterSet::new(&mut lock, guard, &events, 0).unwrap();

    // No workload between the two reads: the hardware hands back the same
    // totals, and the session reports them unchanged.
    let sample = vec![12345];
    let first = session.read(0, &sample).unwrap();
    let second = session.read(0, &sample).unwrap();
    assert_eq!(first, second);
    assert_eq!(first, vec![12345]);

    // A later read with non-decreased totals never reports less.
    let third = session.read(0, &vec![12400]).unwrap();
    assert!(third[0] >= second[0]);

    session.stop(&mut lock, 0).unwrap();
}

#[test]
fn accum_additive() {
    let mut lock = CounterLock::new();
    let guard = acquire(&mut lock);
    let events = vec![Counter::PAPI_TOT_INS];
    let mut session = CounterSet::new(&mut lock, guard, &events, 0).unwrap();

    // Workload one, then workload two: the second total exceeds the first by
    // exactly the second workload's deltas.
    let first = session.accum(0, &vec![700]).unwrap();
    assert_eq!(first, vec![700]);
    let second = session.accum(0, &vec![41]).unwrap();
    assert_eq!(second, vec![741]);
    assert_eq!(second[0] - first[0], 41);
    assert!(second[0] >= first[0]);

    session.stop(&mut lock, 0).unwrap();
}

#[test]
fn backoff_under_contention() {
    // Synthetic contention: another holder owns the lock for a while; the
    // waiting acquisition keeps retrying under the backoff policy until the
    // holder lets go, and eventually succeeds.
    let mut lock = CounterLock::new();
    let mut holder = Some(acquire(&mut lock));
    let mut policy = BackoffState::new();
    let mut delays: Vec<u64> = Vec::new();
    let mut windows: Vec<u64> = Vec::new();
    let mut remaining_hold: u32 = 5;

    let guard = loop {
        match lock.try_acquire() {
            Some(guard) => break guard,
            None => {
                // Delays are drawn inside the current window; the raw random
                // value here is the worst case, so the delay reveals the
                // window itself.
                let (delay, action) = policy.on_contention(u64::MAX);
                assert_eq!(action, Action::Retry);
                delays.push(delay);
                windows.push(delay + 1);
                if remaining_hold > 0 {
                    remaining_hold -= 1;
                    if remaining_hold == 0 {
                        lock.release(holder.take().unwrap());
                    }
                }
            }
        }
    };

    // The windows double on every retry and never shrink.
    assert_eq!(windows, vec![1, 2, 4, 8, 16]);
    for k in 1..delays.len() {
        assert!(delays[k - 1] <= delays[k]);
    }
    lock.release(guard);
}

#[test]
fn backoff_window_caps() {
    let mut policy = BackoffState::new();
    let mut last_window: u64 = 0;
    for _ in 0..40 {
        // With the largest raw random value the delay is window - 1.
        let (delay, _) = policy.on_contention(u64::MAX);
        let window = delay + 1;
        assert!(window >= last_window);
        assert!(window <= papi::backoff::MAX_BACKOFF_WINDOW);
        last_window = window;
    }
    // Doubling has long reached the cap and stays there.
    assert_eq!(last_window, papi::backoff::MAX_BACKOFF_WINDOW);
}

#[test]
fn backoff_delay_is_random_within_window() {
    let mut policy = BackoffState::new();
    // First window is one unit: the only possible delay is zero.
    let (d0, _) = policy.on_contention(17);
    assert_eq!(d0, 0);
    // Second window is two units: the raw value is reduced into it.
    let (d1, _) = policy.on_contention(17);
    assert_eq!(d1, 17 % 2);
    // Third window is four units.
    let (d2, _) = policy.on_contention(17);
    assert_eq!(d2, 17 % 4);
}

#[test]
fn end_to_end_session() {
    let mut lock = CounterLock::new();
    let guard = acquire(&mut lock);
    let events = vec![Counter::PAPI_TOT_INS];
    let mut session = CounterSet::new(&mut lock, guard, &events, 0).unwrap();

    // A read right after the start: one value, not negative.
    let start = session.read(0, &vec![480]).unwrap();
    assert_eq!(start.len(), 1);
    assert!(start[0] >= 0);

    // A deterministic workload with a known instruction floor.
    let work = fib(14);
    assert_eq!(work, 610);

    // The accumulate after the workload strictly exceeds the read before it.
    let stop = session.accum(0, &vec![2500]).unwrap();
    assert!(stop[0] - start[0] > 0);

    // Releasing the session frees the lock; starting a new session on the
    // same process succeeds immediately.
    session.stop(&mut lock, 0).unwrap();
    let guard = acquire(&mut lock);
    let second = CounterSet::new(&mut lock, guard, &events, 0).unwrap();
    second.stop(&mut lock, 0).unwrap();
}

#[test]
fn invalid_event_reports_native_failure() {
    let mut lock = CounterLock::new();
    let guard = acquire(&mut lock);
    let events = vec![Counter::PAPI_END];
    // The native facility answers the start with its "no such event" status.
    let result = CounterSet::new(&mut lock, guard, &events, -7);
    let err = result.err().expect("start must fail on a bad status");
    assert_eq!(err.status, -7);
    assert_eq!(err.description(), "Event does not exist");
    // The failure released the lock: the next acquisition succeeds.
    let again = lock.try_acquire();
    assert!(again.is_some());
    lock.release(again.unwrap());
}

#[test]
fn read_failure_changes_nothing() {
    let mut lock = CounterLock::new();
    let guard = acquire(&mut lock);
    let events = vec![Counter::PAPI_L1_DCM];
    let mut session = CounterSet::new(&mut lock, guard, &events, 0).unwrap();
    session.read(0, &vec![55]).unwrap();

    // Counters were lost: the read reports the failure and leaves the buffer
    // as it was, as an accumulation of nothing shows.
    let err = session.read(-5, &vec![99]).err().unwrap();
    assert_eq!(err.status, -5);
    assert_eq!(err.description(), "Access to the counters was lost or interrupted");
    let unchanged = session.accum(0, &vec![0]).unwrap();
    assert_eq!(unchanged, vec![55]);

    session.stop(&mut lock, 0).unwrap();
}

#[test]
fn accum_failure_changes_nothing() {
    let mut lock = CounterLock::new();
    let guard = acquire(&mut lock);
    let events = vec![Counter::PAPI_TOT_CYC];
    let mut session = CounterSet::new(&mut lock, guard, &events, 0).unwrap();
    session.accum(0, &vec![8]).unwrap();

    let err = session.accum(-10, &vec![5]).err().unwrap();
    assert_eq!(err.status, -10);
    let unchanged = session.accum(0, &vec![0]).unwrap();
    assert_eq!(unchanged, vec![8]);

    session.stop(&mut lock, 0).unwrap();
}

#[test]
fn stop_failure_still_releases_lock() {
    let mut lock = CounterLock::new();
    let guard = acquire(&mut lock);
    let events = vec![Counter::PAPI_TOT_INS];
    let session = CounterSet::new(&mut lock, guard, &events, 0).unwrap();

    let err = session.stop(&mut lock, -9).err().unwrap();
    assert_eq!(err.status, -9);
    assert_eq!(err.description(), "EventSet is currently not running");
    // Even a failing stop releases the lock.
    let again = lock.try_acquire();
    assert!(again.is_some());
    lock.release(again.unwrap());
}

#[test]
fn check_status_maps_ok_and_failures() {
    assert!(check_status(0).is_ok());
    assert_eq!(check_status(-1), Err(CounterError { status: -1 }));
    assert_eq!(check_status(-24), Err(CounterError { status: -24 }));
    assert_eq!(check_status(7), Err(CounterError { status: 7 }));
}

#[test]
fn status_descriptions_are_the_standard_ones() {
    assert_eq!(status_description(0), "No error");
    assert_eq!(status_description(-1), "Invalid argument");
    assert_eq!(status_description(-2), "Insufficient memory");
    assert_eq!(status_description(-3), "A System/C library call failed");
    assert_eq!(status_description(-4), "Not supported by component");
    assert_eq!(status_description(-7), "Event does not exist");
    assert_eq!(
        status_description(-8),
        "Event exists, but cannot be counted due to counter resource limitations"
    );
    assert_eq!(status_description(-13), "Hardware does not support performance counters");
    assert_eq!(status_description(-16), "PAPI hasn't been initialized yet");
    assert_eq!(status_description(-24), "Bad combination of features");
    assert_eq!(status_description(-14), "Unknown error code");
    assert_eq!(status_description(-999), "Unknown error code");
    assert_eq!(status_description(3), "Unknown error code");
}

#[test]
fn counter_codes_are_the_native_presets() {
    assert_eq!(Counter::PAPI_L1_DCM.code(), 0x8000_0000);
    assert_eq!(Counter::PAPI_L1_ICM.code(), 0x8000_0001);
    assert_eq!(Counter::PAPI_TOT_IIS.code(), 0x8000_0031);
    assert_eq!(Counter::PAPI_TOT_INS.code(), 0x8000_0032);
    assert_eq!(Counter::PAPI_TOT_CYC.code(), 0x8000_003b);
    assert_eq!(Counter::PAPI_REF_CYC.code(), 0x8000_006b);
    assert_eq!(Counter::PAPI_END.code(), 0x8000_006c);
}

#[test]
fn encode_events_translates_in_order() {
    let events = vec![Counter::PAPI_TOT_CYC, Counter::PAPI_TOT_INS, Counter::PAPI_L1_DCM];
    let raw = encode_events(&events);
    assert_eq!(raw, vec![0x8000_003b, 0x8000_0032, 0x8000_0000]);
    assert_eq!(encode_events(&Vec::new()), Vec::<u32>::new());
}

#[test]
fn session_keeps_requested_events() {
    let mut lock = CounterLock::new();
    let guard = acquire(&mut lock);
    let events = vec![Counter::PAPI_TOT_INS, Counter::PAPI_L2_TCM];
    let session = CounterSet::new(&mut lock, guard, &events, 0).unwrap();
    assert_eq!(session.counters(), &events);
    assert_eq!(session.raw_counters(), &vec![0x8000_0032, 0x8000_0007]);
    session.stop(&mut lock, 0).unwrap();
}

#[test]
fn fresh_session_buffer_is_zeroed() {
    let mut lock = CounterLock::new();
    let guard = acquire(&mut lock);
    let events = vec![Counter::PAPI_TOT_INS, Counter::PAPI_TOT_CYC];
    let mut session = CounterSet::new(&mut lock, guard, &events, 0).unwrap();
    let initial = session.accum(0, &vec![0, 0]).unwrap();
    assert_eq!(initial, vec![0, 0]);
    session.stop(&mut lock, 0).unwrap();
}

#[test]
fn fib_values() {
    assert_eq!(fib(0), 1);
    assert_eq!(fib(1), 1);
    assert_eq!(fib(2), 2);
    assert_eq!(fib(14), 610);
}
