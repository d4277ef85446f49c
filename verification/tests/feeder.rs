use std::time::Duration;
use tokio_too_busy::feeder::mean_busy_millis;
use tokio_too_busy::feeder::Action;
use tokio_too_busy::feeder::Observation;
use tokio_too_busy::LoadFeeder;

#[test]
fn mean_of_one_worker() {
    assert_eq!(mean_busy_millis(&vec![5_000_000_000]), Some(5000));
    assert_eq!(mean_busy_millis(&vec![0]), Some(0));
}

#[test]
fn mean_of_several_workers() {
    assert_eq!(mean_busy_millis(&vec![5_000_000_000, 7_000_000_000]), Some(6000));
    assert_eq!(mean_busy_millis(&vec![1_000_000, 2_000_000, 6_000_000]), Some(3));
}

#[test]
fn mean_rounds_down_twice() {
    // 3_999_999 nanoseconds over two workers: 1_999_999 each, one millisecond.
    assert_eq!(mean_busy_millis(&vec![1_999_999, 2_000_000]), Some(1));
    assert_eq!(mean_busy_millis(&vec![999_999]), Some(0));
    assert_eq!(mean_busy_millis(&vec![1_000_000, 1_000_000, 999_999]), Some(0));
}

#[test]
fn mean_agrees_with_durations() {
    let busy = [Duration::new(12, 345_678_901), Duration::new(0, 999_999_999), Duration::new(7, 5)];
    let expected = (busy.iter().sum::<Duration>() / 3).as_millis();
    let nanos: Vec<u128> = busy.iter().map(|duration| duration.as_nanos()).collect();
    assert_eq!(mean_busy_millis(&nanos), Some(expected));
}

#[test]
fn no_mean_of_no_workers() {
    assert_eq!(mean_busy_millis(&Vec::new()), None);
}

#[test]
fn no_mean_where_the_sum_overflows() {
    assert_eq!(mean_busy_millis(&vec![u128::MAX, 1]), None);
    assert_eq!(mean_busy_millis(&vec![1, u128::MAX, 0]), None);
    assert_eq!(
        mean_busy_millis(&vec![u128::MAX]),
        Some(340_282_366_920_938_463_463_374_607_431_768)
    );
    assert_eq!(
        mean_busy_millis(&vec![u128::MAX - 1, 1]),
        Some(170_141_183_460_469_231_731_687_303_715_884)
    );
}

#[test]
fn new_feeder_has_seen_nothing() {
    let mut feeder = LoadFeeder::new(Duration::from_secs(10), 0.1f32.to_bits());
    assert_eq!(feeder.interval(), Duration::from_secs(10));
    assert_eq!(feeder.interval_millis(), 10_000);
    assert_eq!(feeder.ewma_alpha(), 0.1f32.to_bits());
    assert!(!feeder.stopped());
    assert_eq!(feeder.tick(Observation::Busy(5000)), Action::Fold(5000));
}

#[test]
fn interval_is_read_in_whole_milliseconds() {
    let feeder = LoadFeeder::new(Duration::from_micros(2_999), 0.1f32.to_bits());
    assert_eq!(feeder.interval_millis(), 2);
    let feeder = LoadFeeder::new(Duration::from_nanos(999_999), 0.1f32.to_bits());
    assert_eq!(feeder.interval_millis(), 0);
}

#[test]
fn tick_measures_from_the_previous_tick() {
    let mut feeder = LoadFeeder::new(Duration::from_secs(10), 0.1f32.to_bits());
    feeder.start(1_000);
    assert_eq!(feeder.tick(Observation::Busy(6_000)), Action::Fold(5_000));
    assert_eq!(feeder.tick(Observation::Busy(17_000)), Action::Fold(11_000));
    assert_eq!(feeder.tick(Observation::Busy(17_000)), Action::Fold(0));
    assert!(!feeder.stopped());
}

#[test]
fn tick_stops_where_the_target_is_gone() {
    let mut feeder = LoadFeeder::new(Duration::from_secs(1), 0.1f32.to_bits());
    feeder.start(10);
    assert_eq!(feeder.tick(Observation::Busy(20)), Action::Fold(10));
    assert_eq!(feeder.tick(Observation::TargetGone), Action::Stop);
    assert!(feeder.stopped());
}

#[test]
fn stopped_feeder_stays_stopped() {
    let mut feeder = LoadFeeder::new(Duration::from_secs(1), 0.1f32.to_bits());
    assert_eq!(feeder.tick(Observation::TargetGone), Action::Stop);
    assert_eq!(feeder.tick(Observation::Busy(500)), Action::Stop);
    assert_eq!(feeder.tick(Observation::Busy(0)), Action::Stop);
    assert_eq!(feeder.tick(Observation::TargetGone), Action::Stop);
    assert!(feeder.stopped());
}
