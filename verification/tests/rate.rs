use hostmon::network::rate::{
    counter_rate, mean_of, RateSample, RateWindow, MIN_POLL_NANOS, NANOS_PER_SECOND,
    WINDOW_CAPACITY,
};

fn pair(rx: u128, tx: u128) -> RateSample {
    RateSample { rx, tx }
}

#[test]
fn constants_have_their_values() {
    assert_eq!(NANOS_PER_SECOND, 1_000_000_000);
    assert_eq!(MIN_POLL_NANOS, 100_000_000);
    assert_eq!(WINDOW_CAPACITY, 3);
}

#[test]
fn counter_rate_divides_growth_by_seconds() {
    assert_eq!(counter_rate(3000, 1000, 1_000_000_000), 2000);
    assert_eq!(counter_rate(3000, 1000, 2_000_000_000), 1000);
    assert_eq!(counter_rate(3000, 1000, 500_000_000), 4000);
    assert_eq!(counter_rate(1001, 1000, 3_000_000_000), 0);
    assert_eq!(counter_rate(1010, 1000, 3_000_000_000), 3);
    assert_eq!(counter_rate(7, 7, 100_000_000), 0);
}

#[test]
fn counter_rate_of_a_counter_that_went_back_is_zero() {
    assert_eq!(counter_rate(10, 1000, 1_000_000_000), 0);
    assert_eq!(counter_rate(0, u64::MAX, 100_000_000), 0);
}

#[test]
fn counter_rate_over_less_than_a_tenth_of_a_second() {
    assert_eq!(counter_rate(5, 0, 1), 5_000_000_000);
    assert_eq!(counter_rate(1000, 0, 50_000_000), 20_000);
    assert_eq!(counter_rate(u64::MAX, 0, 1), (u64::MAX as u128) * 1_000_000_000);
}

#[test]
fn counter_rate_at_the_limits() {
    assert_eq!(counter_rate(u64::MAX, 0, 100_000_000), 10 * (u64::MAX as u128));
    assert_eq!(counter_rate(u64::MAX, 0, u128::MAX), 0);
}

#[test]
fn window_starts_empty() {
    let window = RateWindow::new();
    assert_eq!(window.len(), 0);
    assert!(window.to_vec().is_empty());
}

#[test]
fn window_evicts_the_oldest_first() {
    let mut window = RateWindow::new();
    window.record(pair(1, 10));
    assert_eq!(window.to_vec(), vec![pair(1, 10)]);
    window.record(pair(2, 20));
    window.record(pair(3, 30));
    assert_eq!(window.len(), 3);
    assert_eq!(window.get(0), pair(1, 10));
    window.record(pair(4, 40));
    assert_eq!(window.len(), 3);
    assert_eq!(window.to_vec(), vec![pair(2, 20), pair(3, 30), pair(4, 40)]);
    window.record(pair(5, 50));
    assert_eq!(window.to_vec(), vec![pair(3, 30), pair(4, 40), pair(5, 50)]);
    assert_eq!(window.get(2), pair(5, 50));
}

#[test]
fn smoothed_is_the_mean_rounded_down() {
    let mut window = RateWindow::new();
    window.record(pair(10, 1));
    assert_eq!(window.smoothed(), pair(10, 1));
    window.record(pair(21, 2));
    assert_eq!(window.smoothed(), pair(15, 1));
    window.record(pair(2, 2));
    assert_eq!(window.smoothed(), pair(11, 1));
    window.record(pair(7, 2));
    assert_eq!(window.smoothed(), pair(10, 2));
}

#[test]
fn smoothed_of_the_largest_rates_does_not_overflow() {
    let mut window = RateWindow::new();
    window.record(pair(u128::MAX, u128::MAX));
    window.record(pair(u128::MAX, u128::MAX));
    window.record(pair(u128::MAX, 0));
    assert_eq!(window.smoothed(), pair(u128::MAX, u128::MAX / 3 * 2));
    window.record(pair(u128::MAX - 1, 2));
    assert_eq!(window.smoothed(), pair(u128::MAX - 1, u128::MAX / 3));
}

#[test]
fn mean_of_is_the_sum_by_the_count_rounded_down() {
    assert_eq!(mean_of(&vec![7]), 7);
    assert_eq!(mean_of(&vec![0, 1]), 0);
    assert_eq!(mean_of(&vec![1, 2]), 1);
    assert_eq!(mean_of(&vec![2, 2, 1]), 1);
    assert_eq!(mean_of(&vec![2, 2, 2]), 2);
    assert_eq!(mean_of(&vec![1, 1, 1, 1, 6]), 2);
    assert_eq!(mean_of(&vec![0, 2000]), 1000);
    assert_eq!(mean_of(&vec![u128::MAX, u128::MAX]), u128::MAX);
    assert_eq!(mean_of(&vec![u128::MAX, u128::MAX - 1]), u128::MAX - 1);
    assert_eq!(mean_of(&vec![u128::MAX, 0, 1]), u128::MAX / 3);
}
