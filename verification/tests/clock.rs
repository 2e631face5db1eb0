use conveyor_city::clock::{Clock, ClockConfigError};

#[test]
fn zero_period_is_rejected() {
    assert_eq!(Clock::new(0), Err(ClockConfigError::ZeroPeriod));
}

#[test]
fn fresh_clock_holds_full_period() {
    let clock = Clock::new(5000).unwrap();
    assert_eq!(clock.period, 5000);
    assert_eq!(clock.remaining, 5000);
}

#[test]
fn does_not_fire_before_period() {
    let mut clock = Clock::new(5000).unwrap();
    assert!(!clock.tick(4999));
    assert_eq!(clock.remaining, 1);
}

#[test]
fn fires_when_elapsed_reaches_period() {
    let mut clock = Clock::new(5000).unwrap();
    assert!(!clock.tick(2000));
    assert!(clock.tick(3000));
}

#[test]
fn boundary_firing_reloads_full_period() {
    let mut clock = Clock::new(5000).unwrap();
    assert!(clock.tick(5000));
    assert_eq!(clock.remaining, 5000);
}

#[test]
fn firing_carries_surplus_into_next_round() {
    let mut clock = Clock::new(5000).unwrap();
    assert!(clock.tick(7000));
    assert_eq!(clock.remaining, 3000);
}

#[test]
fn surplus_wraps_over_whole_periods() {
    let mut clock = Clock::new(5000).unwrap();
    assert!(clock.tick(12000));
    assert_eq!(clock.remaining, 3000);
}

#[test]
fn remaining_stays_within_one_period() {
    let mut clock = Clock::new(7).unwrap();
    let elapsed_times = [3u64, 1, 9, 0, 20, 6, 7, 2, 5];
    for &elapsed in elapsed_times.iter() {
        clock.tick(elapsed);
        assert!(1 <= clock.remaining && clock.remaining <= 7);
    }
}

#[test]
fn fires_at_least_once_when_total_reaches_period() {
    let mut clock = Clock::new(10).unwrap();
    let elapsed_times = [3u64, 3, 3, 1];
    let mut fired_any = false;
    for &elapsed in elapsed_times.iter() {
        fired_any = clock.tick(elapsed) || fired_any;
    }
    assert!(fired_any);
}
