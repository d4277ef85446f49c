use tokio_too_busy::TooBusy;
use tokio_too_busy::TooBusyShared;

#[test]
fn ratio_starts_at_zero() {
    let shared = TooBusyShared::new(80, 90);
    assert_eq!(shared.ratio_busy_ewma(), 0);
    let (too_busy, _feeder) = TooBusy::builder().build().unwrap();
    assert_eq!(too_busy.ratio_busy_ewma(), 0);
    assert!(!too_busy.eval());
}

#[test]
fn watermarks_are_kept() {
    let shared = TooBusyShared::new(80, 90);
    assert_eq!(shared.low_watermark(), 80);
    assert_eq!(shared.high_watermark(), 90);
}

#[test]
fn published_ratio_is_read_back() {
    let shared = TooBusyShared::new(80, 90);
    shared.publish(46);
    assert_eq!(shared.ratio_busy_ewma(), 46);
    shared.publish(100);
    assert_eq!(shared.ratio_busy_ewma(), 100);
}

#[test]
fn eval_at_is_fixed_outside_the_band() {
    let shared = TooBusyShared::new(80, 90);
    for _ in 0..1000 {
        assert!(!shared.eval_at(0));
        assert!(!shared.eval_at(79));
        assert!(!shared.eval_at(80));
        assert!(shared.eval_at(90));
        assert!(shared.eval_at(u32::MAX));
    }
    assert_eq!(shared.ratio_busy_ewma(), 0);
}

#[test]
fn eval_at_follows_the_percentage_inside_the_band() {
    let shared = TooBusyShared::new(0, 100);
    let mut rejected: u32 = 0;
    for _ in 0..20_000 {
        if shared.eval_at(25) {
            rejected += 1;
        }
    }
    assert!(rejected > 3_500);
    assert!(rejected < 6_500);
}

#[test]
fn eval_admits_below_low_watermark() {
    let shared = TooBusyShared::new(80, 90);
    shared.publish(79);
    for _ in 0..1000 {
        assert!(!shared.eval());
    }
}

#[test]
fn eval_rejects_from_high_watermark() {
    let shared = TooBusyShared::new(80, 90);
    shared.publish(90);
    for _ in 0..1000 {
        assert!(shared.eval());
    }
    shared.publish(100);
    for _ in 0..1000 {
        assert!(shared.eval());
    }
}

#[test]
fn eval_admits_at_low_watermark() {
    let shared = TooBusyShared::new(80, 90);
    shared.publish(80);
    for _ in 0..1000 {
        assert!(!shared.eval());
    }
}

#[test]
fn eval_rejects_about_half_at_the_midpoint() {
    let shared = TooBusyShared::new(80, 90);
    shared.publish(85);
    let mut rejected: u32 = 0;
    for _ in 0..20_000 {
        if shared.eval() {
            rejected += 1;
        }
    }
    assert!(rejected > 8_000);
    assert!(rejected < 12_000);
}

#[test]
fn eval_draws_vary() {
    let shared = TooBusyShared::new(0, 100);
    shared.publish(50);
    let first = shared.eval();
    let mut differs = false;
    for _ in 0..10_000 {
        if shared.eval() != first {
            differs = true;
        }
    }
    assert!(differs);
}

#[test]
fn clones_lead_to_the_same_estimator() {
    let (too_busy, _feeder) = TooBusy::builder().low_watermark(65).high_watermark(66).build().unwrap();
    let too_busy_cloned = too_busy.clone();
    too_busy.shared().publish(70);
    assert_eq!(too_busy_cloned.ratio_busy_ewma(), 70);
    assert!(too_busy_cloned.eval());
    too_busy_cloned.shared().publish(10);
    assert_eq!(too_busy.ratio_busy_ewma(), 10);
    assert!(!too_busy.eval());
    assert_eq!(too_busy_cloned.shared().low_watermark(), 65);
    assert_eq!(too_busy_cloned.shared().high_watermark(), 66);
}

#[test]
fn estimator_lives_as_long_as_one_handle() {
    let (too_busy, _feeder) = TooBusy::builder().build().unwrap();
    let weak = std::sync::Arc::downgrade(too_busy.shared());
    let too_busy_cloned = too_busy.clone();
    drop(too_busy);
    assert!(weak.upgrade().is_some());
    drop(too_busy_cloned);
    assert!(weak.upgrade().is_none());
}
