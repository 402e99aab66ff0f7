use p25rx::policy::DataUnit::{
    TrunkingSignaling, VoiceCCFrameGroup, VoiceHeader, VoiceLCFrameGroup, VoiceLCTerminator,
    VoiceSimpleTerminator,
};
use p25rx::policy::PolicyEvent::{ChooseTalkgroup, Resync, ReturnControl};
use p25rx::policy::{NetworkAccessCode, NetworkId, ReceiverPolicy, ReceiverState, Timer};

#[test]
fn test_policy() {
    let mut p = ReceiverPolicy::new(10, 20, 30);
    assert_eq!(p.handle_elapsed(9), None);
    assert_eq!(p.handle_elapsed(1), Some(ChooseTalkgroup));
    assert_eq!(p.handle_elapsed(1), None);
    assert_eq!(p.handle_elapsed(9), Some(ChooseTalkgroup));

    p.enter_traffic();
    assert_eq!(p.handle_elapsed(5), None);
    assert_eq!(p.handle_elapsed(15), Some(ReturnControl));

    p.enter_traffic();
    assert_eq!(p.handle_elapsed(5), None);
    assert_eq!(
        p.handle_nid(NetworkId::new(NetworkAccessCode::Default, VoiceLCTerminator)),
        None
    );
    assert_eq!(
        p.handle_nid(NetworkId::new(NetworkAccessCode::Default, VoiceSimpleTerminator)),
        None
    );
    assert_eq!(p.handle_elapsed(15), Some(ReturnControl));

    p.enter_control();
    assert_eq!(p.handle_elapsed(5), None);
    assert_eq!(p.handle_elapsed(5), Some(ChooseTalkgroup));

    p.enter_traffic();
    assert_eq!(p.handle_elapsed(5), None);
    assert_eq!(
        p.handle_nid(NetworkId::new(NetworkAccessCode::Default, VoiceHeader)),
        None
    );
    assert_eq!(
        p.handle_nid(NetworkId::new(NetworkAccessCode::Default, VoiceLCFrameGroup)),
        None
    );
    assert_eq!(
        p.handle_nid(NetworkId::new(NetworkAccessCode::Default, VoiceCCFrameGroup)),
        None
    );
    assert_eq!(p.handle_elapsed(19), None);
    assert_eq!(p.handle_elapsed(1), Some(ReturnControl));
    p.enter_control();

    p.enter_traffic();
    assert_eq!(
        p.handle_nid(NetworkId::new(NetworkAccessCode::Default, TrunkingSignaling)),
        Some(Resync)
    );

    p.enter_traffic();
    assert_eq!(p.handle_elapsed(5), None);
    assert_eq!(p.handle_call_term(), Some(ReturnControl));
    p.enter_control();

    p.enter_traffic();
    assert_eq!(p.handle_elapsed(5), None);
    assert_eq!(
        p.handle_nid(NetworkId::new(NetworkAccessCode::Default, VoiceHeader)),
        None
    );
    assert_eq!(p.handle_call_term(), Some(ReturnControl));
    p.enter_control();

    p.enter_traffic();
    assert_eq!(p.handle_elapsed(5), None);
    assert_eq!(
        p.handle_nid(NetworkId::new(NetworkAccessCode::Default, VoiceHeader)),
        None
    );
    assert_eq!(p.handle_elapsed(19), None);
    assert_eq!(
        p.handle_nid(NetworkId::new(NetworkAccessCode::Default, VoiceLCFrameGroup)),
        None
    );
    assert_eq!(p.handle_elapsed(19), None);
    assert_eq!(
        p.handle_nid(NetworkId::new(NetworkAccessCode::Default, VoiceCCFrameGroup)),
        None
    );
    assert_eq!(p.handle_elapsed(19), None);
    assert_eq!(
        p.handle_nid(NetworkId::new(NetworkAccessCode::Default, VoiceSimpleTerminator)),
        None
    );
    assert_eq!(
        p.handle_nid(NetworkId::new(NetworkAccessCode::Default, VoiceLCTerminator)),
        None
    );
    assert_eq!(p.handle_elapsed(5), None);
    assert_eq!(
        p.handle_nid(NetworkId::new(NetworkAccessCode::Default, VoiceSimpleTerminator)),
        None
    );
    assert_eq!(p.handle_elapsed(24), None);
    assert_eq!(
        p.handle_nid(NetworkId::new(NetworkAccessCode::Default, VoiceLCTerminator)),
        None
    );
    assert_eq!(p.handle_elapsed(21), Some(ReturnControl));
    p.enter_control();

    p.enter_traffic();
    assert_eq!(p.handle_elapsed(5), None);
    assert_eq!(
        p.handle_nid(NetworkId::new(NetworkAccessCode::Default, VoiceHeader)),
        None
    );
    assert_eq!(p.handle_elapsed(19), None);
    assert_eq!(
        p.handle_nid(NetworkId::new(NetworkAccessCode::Default, VoiceLCFrameGroup)),
        None
    );
    assert_eq!(p.handle_elapsed(19), None);
    assert_eq!(
        p.handle_nid(NetworkId::new(NetworkAccessCode::Default, VoiceCCFrameGroup)),
        None
    );
    assert_eq!(p.handle_elapsed(19), None);
    assert_eq!(
        p.handle_nid(NetworkId::new(NetworkAccessCode::Default, VoiceSimpleTerminator)),
        None
    );
    assert_eq!(p.handle_elapsed(29), None);
    assert_eq!(
        p.handle_nid(NetworkId::new(NetworkAccessCode::Default, VoiceHeader)),
        None
    );
    assert_eq!(p.handle_elapsed(19), None);
    assert_eq!(p.handle_elapsed(1), Some(ReturnControl));
}

#[test]
fn select_window_repeats() {
    let mut p = ReceiverPolicy::new(10, 20, 30);
    assert_eq!(p.handle_elapsed(9), None);
    assert_eq!(p.handle_elapsed(1), Some(ChooseTalkgroup));
    assert_eq!(p.handle_elapsed(9), None);
    assert_eq!(p.handle_elapsed(1), Some(ChooseTalkgroup));
}

#[test]
fn select_overshoot_discarded() {
    let mut p = ReceiverPolicy::new(10, 20, 30);
    // One oversized recording yields a single selection and restarts the
    // window from zero: the overshoot is not carried over.
    assert_eq!(p.handle_elapsed(25), Some(ChooseTalkgroup));
    assert_eq!(p.handle_elapsed(9), None);
    assert_eq!(p.handle_elapsed(1), Some(ChooseTalkgroup));
}

#[test]
fn watchdog_full_window() {
    let mut p = ReceiverPolicy::new(10, 20, 30);
    p.enter_traffic();
    assert_eq!(p.handle_elapsed(20), Some(ReturnControl));
    p.enter_traffic();
    assert_eq!(p.handle_elapsed(19), None);
    assert_eq!(p.handle_elapsed(1), Some(ReturnControl));
}

#[test]
fn traffic_resync_on_tsbk() {
    let mut p = ReceiverPolicy::new(10, 20, 30);
    p.enter_traffic();
    assert_eq!(
        p.handle_nid(NetworkId::new(NetworkAccessCode::Default, TrunkingSignaling)),
        Some(Resync)
    );
}

#[test]
fn timer_saturates_and_expires() {
    let mut t = Timer::new(usize::MAX);
    assert!(!t.expired(usize::MAX - 1));
    assert!(t.expired(usize::MAX));
    assert_eq!(t.cur, usize::MAX);
}

#[test]
fn pause_resumes_on_voice() {
    let mut p = ReceiverPolicy::new(10, 20, 30);
    p.enter_traffic();
    // Arm the watchdog, then pause on a terminator.
    assert_eq!(
        p.handle_nid(NetworkId::new(NetworkAccessCode::Default, VoiceHeader)),
        None
    );
    assert_eq!(
        p.handle_nid(NetworkId::new(NetworkAccessCode::Default, VoiceSimpleTerminator)),
        None
    );
    assert!(matches!(p.state, ReceiverState::Paused(_)));
    // The pause times out after its own window.
    assert_eq!(p.handle_elapsed(29), None);
    assert_eq!(p.handle_elapsed(1), Some(ReturnControl));
}
