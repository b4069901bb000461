use crossbeam_utils::thread::scope;
use gated_lock::Monitor;
use std::collections::VecDeque;
use std::sync::atomic::{AtomicBool, AtomicUsize, Ordering};
use std::time::{Duration, Instant};

/// Blocks the calling thread for about `millis` milliseconds.
fn nap(millis: u64) {
    let gate = parking_lot::Mutex::new(());
    let never = parking_lot::Condvar::new();
    let mut held = gate.lock();
    never.wait_for(&mut held, Duration::from_millis(millis));
}

#[test]
fn monitor_lock_gives_access_to_the_value() {
    let m = Monitor::new(String::from("a"));
    {
        let mut guard = m.lock();
        assert_eq!(*guard, "a");
        guard.push('b');
    }
    assert_eq!(*m.lock(), "ab");
}

#[test]
fn monitor_try_lock_fails_while_held() {
    let m = Monitor::new(1u8);
    let guard = m.lock();
    assert!(m.try_lock().is_none());
    drop(guard);
    assert_eq!(*m.try_lock().unwrap(), 1);
}

#[test]
fn monitor_try_lock_does_not_wait_for_the_holder() {
    let m = Monitor::new(0u8);
    let holding = AtomicBool::new(false);
    let asked = AtomicBool::new(false);
    scope(|scope| {
        scope.spawn(|_| {
            let guard = m.lock();
            holding.store(true, Ordering::SeqCst);
            while !asked.load(Ordering::SeqCst) {
                nap(1);
            }
            drop(guard);
        });
        while !holding.load(Ordering::SeqCst) {
            nap(1);
        }
        let start = Instant::now();
        let attempt = m.try_lock();
        let took = start.elapsed();
        assert!(attempt.is_none());
        assert!(took < Duration::from_millis(100));
        asked.store(true, Ordering::SeqCst);
    })
    .unwrap();
}

#[test]
fn monitor_lock_when_returns_at_once_if_the_condition_holds() {
    let m = Monitor::new(3u32);
    assert_eq!(*m.lock_when(|v| *v == 3), 3);
    assert!(m.try_lock().is_some());
}

#[test]
fn monitor_lock_when_waits_for_the_condition() {
    let m = Monitor::new(0u32);
    let done = AtomicBool::new(false);
    scope(|scope| {
        let waiter = scope.spawn(|_| {
            let seen = *m.lock_when(|v| *v >= 3);
            done.store(true, Ordering::SeqCst);
            seen
        });
        for step in 1..=3u32 {
            nap(20);
            assert!(!done.load(Ordering::SeqCst));
            *m.lock() = step;
        }
        assert_eq!(waiter.join().unwrap(), 3);
    })
    .unwrap();
}

#[test]
fn a_release_wakes_every_waiter_whose_condition_holds() {
    let m = Monitor::new(0u8);
    let served = AtomicUsize::new(0);
    scope(|scope| {
        for _ in 0..4 {
            scope.spawn(|_| {
                let guard = m.lock_when(|v| *v == 1);
                assert_eq!(*guard, 1);
                served.fetch_add(1, Ordering::SeqCst);
            });
        }
        let other = scope.spawn(|_| *m.lock_when(|v| *v == 2));
        nap(20);
        *m.lock() = 1;
        let start = Instant::now();
        while served.load(Ordering::SeqCst) < 4 {
            assert!(start.elapsed() < Duration::from_secs(15));
            nap(1);
        }
        *m.lock() = 2;
        assert_eq!(other.join().unwrap(), 2);
    })
    .unwrap();
}

#[test]
fn a_wait_that_cannot_succeed_times_out_and_leaves_the_lock_free() {
    let m = Monitor::new(0u8);
    let start = Instant::now();
    let outcome = m.lock_when_with_timeout(|_| false, Duration::from_millis(50));
    let took = start.elapsed();
    assert!(outcome.is_none());
    assert!(took >= Duration::from_millis(50));
    scope(|scope| {
        let other = scope.spawn(|_| m.try_lock().map(|guard| *guard));
        assert_eq!(other.join().unwrap(), Some(0));
    })
    .unwrap();
}

#[test]
fn a_bounded_wait_succeeds_at_once_if_the_condition_holds() {
    let m = Monitor::new(9u8);
    let guard = m.lock_when_with_timeout(|v| *v == 9, Duration::from_millis(0));
    assert_eq!(*guard.unwrap(), 9);
}

#[test]
fn a_bounded_wait_succeeds_if_the_condition_comes_true_in_time() {
    let m = Monitor::new(0u8);
    scope(|scope| {
        let waiter = scope.spawn(|_| {
            m.lock_when_with_timeout(|v| *v == 1, Duration::from_secs(10)).map(|guard| *guard)
        });
        nap(20);
        *m.lock() = 1;
        assert_eq!(waiter.join().unwrap(), Some(1));
    })
    .unwrap();
}

#[test]
fn a_bounded_wait_never_returns_a_guard_for_a_false_condition() {
    let m = Monitor::new(0u32);
    let stop = AtomicBool::new(false);
    scope(|scope| {
        scope.spawn(|_| {
            while !stop.load(Ordering::SeqCst) {
                let mut guard = m.lock();
                *guard = (*guard + 1) % 8;
            }
        });
        for _ in 0..50 {
            if let Some(guard) = m.lock_when_with_timeout(|v| *v == 5, Duration::from_millis(2)) {
                assert_eq!(*guard, 5);
            }
            assert!(m.lock_when_with_timeout(|v| *v > 100, Duration::from_millis(1)).is_none());
        }
        stop.store(true, Ordering::SeqCst);
    })
    .unwrap();
}

#[test]
fn await_condition_returns_at_once_if_the_condition_holds() {
    let m = Monitor::new(4u8);
    let guard = m.lock();
    let guard = guard.await_condition(|v| *v == 4);
    assert_eq!(*guard, 4);
    assert!(m.try_lock().is_none());
}

#[test]
fn await_condition_lets_others_in_while_it_waits() {
    let m = Monitor::new(0u8);
    scope(|scope| {
        let waiter = scope.spawn(|_| {
            let mut guard = m.lock();
            *guard = 1;
            let mut guard = guard.await_condition(|v| *v == 2);
            let seen = *guard;
            *guard = 3;
            seen
        });
        let mut guard = m.lock_when(|v| *v == 1);
        *guard = 2;
        drop(guard);
        assert_eq!(waiter.join().unwrap(), 2);
    })
    .unwrap();
    assert_eq!(*m.lock(), 3);
}

#[test]
fn await_with_timeout_gives_the_lock_up_when_time_runs_out() {
    let m = Monitor::new(0u8);
    let guard = m.lock();
    let start = Instant::now();
    let outcome = guard.await_with_timeout(|v| *v == 1, Duration::from_millis(50));
    assert!(outcome.is_none());
    assert!(start.elapsed() >= Duration::from_millis(50));
    assert_eq!(*m.try_lock().unwrap(), 0);
}

#[test]
fn await_with_timeout_keeps_the_lock_if_the_condition_holds() {
    let m = Monitor::new(6u8);
    let guard = m.lock();
    let guard = guard.await_with_timeout(|v| *v == 6, Duration::from_millis(0)).unwrap();
    assert_eq!(*guard, 6);
    assert!(m.try_lock().is_none());
}

#[test]
fn await_with_timeout_succeeds_if_the_condition_comes_true_in_time() {
    let m = Monitor::new(0u8);
    scope(|scope| {
        let waiter = scope.spawn(|_| {
            let guard = m.lock();
            guard.await_with_timeout(|v| *v == 7, Duration::from_secs(10)).map(|guard| *guard)
        });
        nap(20);
        *m.lock() = 7;
        assert_eq!(waiter.join().unwrap(), Some(7));
    })
    .unwrap();
}

#[test]
fn monitor_increments_under_the_lock_are_never_lost() {
    let m = Monitor::new(0u64);
    let inside = AtomicUsize::new(0);
    scope(|scope| {
        for _ in 0..4 {
            scope.spawn(|_| {
                for _ in 0..2_000 {
                    let mut guard = m.lock();
                    assert_eq!(inside.fetch_add(1, Ordering::SeqCst), 0);
                    let before = *guard;
                    *guard = before + 1;
                    assert_eq!(inside.fetch_sub(1, Ordering::SeqCst), 1);
                }
            });
        }
    })
    .unwrap();
    assert_eq!(*m.lock(), 8_000);
}

#[test]
fn monitor_pop_when_nonempty_receives_pushed_values_in_order() {
    let q: Monitor<VecDeque<u32>> = Monitor::new(VecDeque::new());
    scope(|scope| {
        let consumer = scope.spawn(|_| {
            let mut got = Vec::new();
            for _ in 0..3 {
                got.push(q.lock_when(|q| !q.is_empty()).pop_front().unwrap());
            }
            got
        });
        for v in [1u32, 2, 3] {
            q.lock().push_back(v);
            nap(5);
        }
        assert_eq!(consumer.join().unwrap(), vec![1, 2, 3]);
    })
    .unwrap();
}

#[test]
fn monitor_producers_and_consumers_lose_and_duplicate_nothing() {
    const PRODUCERS: usize = 3;
    const CONSUMERS: usize = 4;
    const EACH: usize = 500;
    const TOTAL: usize = PRODUCERS * EACH;
    let q: Monitor<VecDeque<usize>> = Monitor::new(VecDeque::new());
    let tickets = AtomicUsize::new(0);
    let mut seen: Vec<usize> = Vec::new();
    scope(|scope| {
        for p in 0..PRODUCERS {
            let q = &q;
            scope.spawn(move |_| {
                for i in 0..EACH {
                    q.lock().push_back(p * EACH + i);
                }
            });
        }
        let consumers: Vec<_> = (0..CONSUMERS)
            .map(|_| {
                scope.spawn(|_| {
                    let mut got = Vec::new();
                    while tickets.fetch_add(1, Ordering::SeqCst) < TOTAL {
                        got.push(q.lock_when(|q| !q.is_empty()).pop_front().unwrap());
                    }
                    got
                })
            })
            .collect();
        for consumer in consumers {
            seen.extend(consumer.join().unwrap());
        }
    })
    .unwrap();
    seen.sort();
    assert_eq!(seen, (0..TOTAL).collect::<Vec<_>>());
    assert!(q.lock().is_empty());
}

#[test]
fn monitor_holder_that_panics_releases_the_lock() {
    let m = Monitor::new(1u8);
    scope(|scope| {
        let holder = scope.spawn(|_| {
            let mut guard = m.lock();
            *guard = 2;
            panic!("the holder gives up");
        });
        assert!(holder.join().is_err());
    })
    .unwrap();
    assert_eq!(*m.try_lock().unwrap(), 2);
}

#[test]
fn monitor_condition_that_panics_leaves_the_lock_free() {
    let m = Monitor::new(1u8);
    scope(|scope| {
        let waiter = scope.spawn(|_| {
            let guard = m.lock_when(|v| {
                if *v == 1 {
                    panic!("the condition gives up");
                }
                true
            });
            *guard
        });
        assert!(waiter.join().is_err());
    })
    .unwrap();
    assert_eq!(*m.try_lock().unwrap(), 1);
}

#[test]
fn a_monitor_renders_under_its_own_name() {
    let m = Monitor::new(5u8);
    assert_eq!(m.render().unwrap(), "Monitor(5)");
    let guard = m.lock();
    assert_eq!(m.render().unwrap(), "Monitor(<locked>)");
    drop(guard);
    assert_eq!(m.render().unwrap(), "Monitor(5)");
}
