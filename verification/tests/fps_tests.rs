use kobel::fps::{FpsCounter, MAX_SAMPLES};

#[test]
fn fps_is_zero_on_empty_history() {
    let counter = FpsCounter::new();
    assert_eq!(counter.fps(), 0);
    assert_eq!(counter.sample_count(), 0);
}

#[test]
fn fps_is_reciprocal_of_mean_sample() {
    // Samples of 10 ms, 20 ms and 30 ms: the mean is 20 ms, so 50 frames
    // per second.
    let mut counter = FpsCounter::new();
    counter.tick(10_000);
    counter.tick(20_000);
    counter.tick(30_000);
    assert_eq!(counter.fps(), 50);
}

#[test]
fn fps_history_is_bounded_and_fifo() {
    let mut counter = FpsCounter::new();
    // One outlier sample, then enough uniform samples to evict it.
    counter.tick(30_000);
    for _ in 0..MAX_SAMPLES {
        counter.tick(10_000);
    }
    assert_eq!(counter.sample_count(), MAX_SAMPLES);
    // With the outlier evicted the mean is exactly 10 ms.
    assert_eq!(counter.fps(), 100);
}

#[test]
fn fps_history_stays_bounded_under_many_samples() {
    let mut counter = FpsCounter::new();
    for i in 0..1_000u32 {
        counter.tick(8_000 + i);
        assert!(counter.sample_count() <= MAX_SAMPLES);
    }
    assert_eq!(counter.sample_count(), MAX_SAMPLES);
}

#[test]
fn fps_is_zero_on_all_zero_samples() {
    let mut counter = FpsCounter::new();
    counter.tick(0);
    counter.tick(0);
    assert_eq!(counter.fps(), 0);
}
