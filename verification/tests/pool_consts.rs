use p25rx::consts::{BASEBAND_SAMPLE_RATE, BUF_BYTES, BUF_COUNT, BUF_SAMPLES, SDR_SAMPLE_RATE};
use p25rx::pool::Pool;

#[test]
fn verify_sample_rate() {
    assert_eq!(BASEBAND_SAMPLE_RATE as usize, 48000);
}

#[test]
fn rates_and_sizes_are_consistent() {
    assert_eq!(SDR_SAMPLE_RATE / BASEBAND_SAMPLE_RATE, 5);
    assert_eq!(BUF_SAMPLES, BUF_BYTES / 2);
    assert_eq!(BUF_COUNT, 16);
}

#[test]
fn pool_checkout_until_empty() {
    let mut pool: Pool<u8> = Pool::with_capacity(BUF_COUNT, 8, 0);
    let mut held = Vec::new();
    for _ in 0..BUF_COUNT {
        let buf = pool.checkout().expect("a buffer should be free");
        assert_eq!(buf.len(), 8);
        held.push(buf);
    }
    // Outstanding checkouts never exceed the capacity: the pool is dry.
    assert!(pool.checkout().is_none());
    assert_eq!(pool.available(), 0);
}

#[test]
fn pool_return_then_checkout_succeeds() {
    let mut pool: Pool<f32> = Pool::with_capacity(2, 4, 0.0);
    let a = pool.checkout().unwrap();
    let _b = pool.checkout().unwrap();
    assert!(pool.checkout().is_none());
    pool.check_in(a);
    // A drop-then-checkout always succeeds.
    assert!(pool.checkout().is_some());
}
