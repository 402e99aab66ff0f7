use p25rx::talkgroups::{CryptoAlgorithm, Filter, TalkgroupSelection};

#[test]
fn test_filter() {
    let mut f = Filter::default();
    assert!(!f.excluded(42));
    f.exclude = false;
    assert!(f.excluded(42));
    f.filt.insert(42);
    assert!(!f.excluded(42));
    f.exclude = true;
    assert!(f.excluded(42));
    assert!(!f.excluded(43));

    let j = f.to_json();
    assert_eq!(j, b"{\"exclude\":true,\"filt\":[42]}".to_vec());

    let f = Filter::from_json(b"{\"filt\": [1, 2, 3], \"exclude\": false}").unwrap();
    assert!(!f.exclude);
    assert_eq!(f.filt.len(), 3);
    assert!(f.filt.contains(1));
    assert!(f.filt.contains(2));
    assert!(f.filt.contains(3));
}

#[test]
fn test_age() {
    let mut ts = TalkgroupSelection::default();
    ts.add_talkgroup(11, 1);
    ts.record_elapsed(10);
    assert_eq!(ts.feats.oldest(), 10);
    ts.add_talkgroup(22, 2);
    ts.record_elapsed(20);
    assert_eq!(ts.feats.oldest(), 30);
    ts.add_talkgroup(33, 3);
    ts.record_elapsed(30);
    assert_eq!(ts.feats.oldest(), 60);
    ts.add_talkgroup(44, 4);
    ts.record_elapsed(40);
    assert_eq!(ts.feats.oldest(), 100);
    assert_eq!(ts.select_idle(), Some((44, 4)));

    ts.clear_state();

    ts.add_talkgroup(11, 1);
    ts.record_elapsed(10);
    assert_eq!(ts.feats.oldest(), 10);
    ts.add_talkgroup(22, 2);
    ts.record_elapsed(20);
    assert_eq!(ts.feats.oldest(), 30);
    ts.add_talkgroup(33, 3);
    ts.record_elapsed(30);
    assert_eq!(ts.feats.oldest(), 60);
    ts.add_talkgroup(44, 4);
    ts.record_elapsed(40);
    assert_eq!(ts.feats.oldest(), 100);
    ts.feats.weights.age = -1000;
    assert_eq!(ts.select_idle(), Some((11, 1)));
}

#[test]
fn test_selection() {
    let mut ts = TalkgroupSelection::default();
    assert_eq!(ts.select_idle(), None);

    // Test initial select.
    ts.add_talkgroup(10, 42);
    assert_eq!(&ts.cur[..], &[10]);
    assert!(ts.cur_preempt.is_empty());
    assert_eq!(ts.select_preempt(), None);
    assert_eq!(ts.select_idle(), Some((10, 42)));
    assert_eq!(ts.feats.recent, 10);
    assert_eq!(ts.select_idle(), None);
    assert_eq!(ts.feats.recent, 10);
    assert_eq!(ts.feats.age.len(), 0);
    assert_eq!(ts.channels.len(), 0);

    // Test preempt talkgroup.
    ts.preempt.insert(20);
    ts.add_talkgroup(10, 800);
    assert_eq!(&ts.cur[..], &[10]);
    assert!(ts.cur_preempt.is_empty());
    ts.add_talkgroup(20, 200);
    assert_eq!(&ts.cur[..], &[10, 20]);
    assert_eq!(&ts.cur_preempt[..], &[20]);
    assert_eq!(ts.feats.recent, 10);
    assert_eq!(ts.select_preempt(), Some((20, 200)));
    assert_eq!(ts.feats.recent, 20);
    assert_eq!(ts.select_preempt(), None);
    assert_eq!(ts.select_idle(), None);
    assert_eq!(ts.feats.age.len(), 0);
    assert_eq!(ts.channels.len(), 0);

    // Test encrypted filter.
    ts.encrypted.insert(20, CryptoAlgorithm::Aes);
    ts.add_talkgroup(20, 12);
    assert!(ts.cur.is_empty());
    assert!(ts.cur_preempt.is_empty());

    // Test user filter.
    ts.filter.filt.insert(30);
    ts.add_talkgroup(30, 22);
    assert!(ts.cur.is_empty());

    // Test user priority.
    ts.feats.prios.insert(40, 100_000);
    ts.add_talkgroup(10, 100);
    ts.add_talkgroup(20, 200);
    ts.add_talkgroup(30, 300);
    ts.add_talkgroup(40, 400);
    ts.add_talkgroup(50, 500);
    assert_eq!(&ts.cur[..], &[10, 40, 50]);
    assert!(ts.cur_preempt.is_empty());
    assert_eq!(ts.select_preempt(), None);
    assert_eq!(ts.select_idle(), Some((40, 400)));
    assert_eq!(ts.feats.recent, 40);
    assert_eq!(ts.select_idle(), None);
    assert_eq!(ts.feats.age.len(), 0);
    assert_eq!(ts.channels.len(), 0);

    ts.clear_state();
    assert_eq!(ts.encrypted.len(), 0);
    assert_eq!(ts.feats.recent, 0);
}

#[test]
fn encrypted_add_is_noop() {
    let mut ts = TalkgroupSelection::default();
    ts.record_encrypted(42, CryptoAlgorithm::Des);
    ts.add_talkgroup(42, 900);
    assert!(ts.cur.is_empty());
    assert_eq!(ts.channels.len(), 0);
    assert_eq!(ts.feats.age.len(), 0);
    // Re-observation keeps the set a set.
    ts.record_encrypted(42, CryptoAlgorithm::Des);
    assert_eq!(ts.encrypted.len(), 1);
}

#[test]
fn fresher_candidate_wins_with_positive_age_weight() {
    let mut ts = TalkgroupSelection::default();
    ts.feats.weights.prio = 0;
    ts.feats.weights.recent = 0;
    ts.add_talkgroup(7, 70);
    ts.record_elapsed(50);
    ts.add_talkgroup(8, 80);
    ts.record_elapsed(50);
    // Talkgroup 8 was stamped later, so with a positive age weight and all
    // other features equal it outscores the older talkgroup 7.
    assert_eq!(ts.select_idle(), Some((8, 80)));
}

#[test]
fn tie_goes_to_earliest_candidate() {
    let mut ts = TalkgroupSelection::default();
    // Two candidates collected in the same sample window with equal
    // priority score identically; insertion order breaks the tie.
    ts.add_talkgroup(5, 50);
    ts.add_talkgroup(6, 60);
    assert_eq!(ts.select_idle(), Some((5, 50)));
}

#[test]
fn filter_json_round_trip() {
    let mut f = Filter::default();
    f.exclude = false;
    f.filt.insert(9);
    f.filt.insert(1000);
    let j = f.to_json();
    assert_eq!(j, b"{\"exclude\":false,\"filt\":[9,1000]}".to_vec());
    let f2 = Filter::from_json(&j).unwrap();
    assert_eq!(f2.exclude, false);
    assert_eq!(f2.filt.len(), 2);
    assert!(f2.filt.contains(9));
    assert!(f2.filt.contains(1000));
}

#[test]
fn filter_json_rejects_malformed() {
    assert!(Filter::from_json(b"").is_none());
    assert!(Filter::from_json(b"{\"exclude\":true}").is_none());
    assert!(Filter::from_json(b"{\"exclude\":true,\"filt\":[65536]}").is_none());
    assert!(Filter::from_json(b"{\"exclude\":maybe,\"filt\":[]}").is_none());
    assert!(Filter::from_json(b"{\"exclude\":true,\"filt\":[1,]}").is_none());
    assert!(Filter::from_json(b"{\"exclude\":true,\"exclude\":false}").is_none());
}

#[test]
fn filter_json_duplicates_collapse() {
    let f = Filter::from_json(b"{\"exclude\":true,\"filt\":[5,5,6]}").unwrap();
    assert_eq!(f.filt.len(), 2);
    assert!(f.filt.contains(5));
    assert!(f.filt.contains(6));
}

#[test]
fn selection_counter_wraps() {
    let mut ts = TalkgroupSelection::default();
    ts.record_elapsed(usize::MAX);
    ts.add_talkgroup(3, 30);
    ts.record_elapsed(usize::MAX);
    // The counter wraps rather than panicking, and the age difference is
    // still the modular distance.
    assert_eq!(ts.feats.oldest(), usize::MAX as u64);
    assert_eq!(ts.select_idle(), Some((3, 30)));
}
