use p25rx::demod::{Throttler, decimated_len, iq_index, iq_level_numer};
use p25rx::sdr::ControlTaskEvent;
use p25rx::stats::{ErrorKind, Stats};

#[test]
fn iq_index_packs_pairs() {
    assert_eq!(iq_index(0, 0), 0);
    assert_eq!(iq_index(0xab, 0xcd), 0xcdab);
    assert_eq!(iq_index(0xff, 0xff), 0xffff);
}

#[test]
fn iq_levels_span_unit_range() {
    // The level of byte b is (2·b − 255) / 255, so the extremes are ±1 and
    // the two middle bytes straddle zero.
    assert_eq!(iq_level_numer(0), -255);
    assert_eq!(iq_level_numer(255), 255);
    assert_eq!(iq_level_numer(127), -1);
    assert_eq!(iq_level_numer(128), 1);
}

#[test]
fn decimation_lengths() {
    assert_eq!(decimated_len(16384, 5), 3276);
    assert_eq!(decimated_len(0, 5), 0);
    assert_eq!(decimated_len(4, 5), 0);
}

#[test]
fn throttler_fires_once_per_period() {
    let mut t = Throttler::new(16);
    let mut fired = 0;
    for _ in 0..16 {
        if t.tick() {
            fired += 1;
        }
    }
    assert_eq!(fired, 1);
    // The next window fires exactly once again, right at its start.
    assert!(t.tick());
    for _ in 0..15 {
        assert!(!t.tick());
    }
}

#[test]
fn stats_tally_errors() {
    let mut st = Stats::new();
    st.record_err(ErrorKind::GolayStd);
    st.record_err(ErrorKind::GolayStd);
    st.record_err(ErrorKind::RsLong);
    assert_eq!(st.golay_std.errs, 2);
    assert_eq!(st.rs_long.errs, 1);
    assert_eq!(st.bch.errs, 0);

    let mut total = Stats::new();
    total.merge(&st);
    total.merge(&st);
    assert_eq!(total.golay_std.errs, 4);
}

#[test]
fn stats_merge_folds_every_counter() {
    let mut other = Stats::new();
    other.cyclic.words = 7;
    other.cyclic.fixed = 2;
    other.rs_med.words = 5;
    other.rs_med.errs = 1;
    other.viterbi_tribit.fixed = 9;

    let mut total = Stats::new();
    total.cyclic.words = 3;
    total.merge(&other);
    assert_eq!(total.cyclic.words, 10);
    assert_eq!(total.cyclic.fixed, 2);
    assert_eq!(total.cyclic.size, 16);
    assert_eq!(total.rs_med.words, 5);
    assert_eq!(total.rs_med.errs, 1);
    assert_eq!(total.viterbi_tribit.fixed, 9);
}

#[test]
fn stats_counters_saturate() {
    let mut st = Stats::new();
    st.bch.errs = u64::MAX;
    st.record_err(ErrorKind::Bch);
    assert_eq!(st.bch.errs, u64::MAX);
}

#[test]
fn control_event_carries_freq() {
    let e = ControlTaskEvent::SetFreq(851_000_000);
    assert_eq!(e.freq(), 851_000_000);
}
