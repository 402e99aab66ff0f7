use p25rx::hub::{HubEvent, StateEvent};
use p25rx::policy::{DataUnit, NetworkAccessCode, NetworkId, ReceiverPolicy};
use p25rx::recv::{
    Channel, ChannelParams, MessageEvent, RecvAction, RecvTask, TalkGroup, Tsbk, TsbkBody,
};
use p25rx::talkgroups::{CryptoAlgorithm, TalkgroupSelection};

fn fresh_task(hopping: bool) -> RecvTask {
    let policy = ReceiverPolicy::new(10, 20, 30);
    let talkgroups = TalkgroupSelection::default();
    let (task, acts) = RecvTask::new(851_000_000, hopping, policy, talkgroups);
    // Committing the initial control frequency announces it, flushes audio,
    // and retunes.
    assert_eq!(
        acts,
        vec![
            RecvAction::SendHub(HubEvent::State(StateEvent::UpdateCtlFreq(851_000_000))),
            RecvAction::SendAudioEnd,
            RecvAction::SendHub(HubEvent::UpdateCurFreq(851_000_000)),
            RecvAction::SetSdrFreq(851_000_000),
            RecvAction::ResyncDecoder,
        ]
    );
    task
}

fn grant(tg: u16, ch: Channel) -> Tsbk {
    Tsbk {
        mfg: 0,
        crc_valid: true,
        body: TsbkBody::GroupVoiceGrant { talkgroup: TalkGroup::Other(tg), channel: ch },
    }
}

fn params_update() -> Tsbk {
    Tsbk {
        mfg: 0,
        crc_valid: true,
        body: TsbkBody::ChannelParamsUpdate {
            id: 0,
            base: 170_200_000,
            offset: 0,
            spacing: 100,
            bandwidth: 100,
        },
    }
}

#[test]
fn grant_collects_and_select_hops() {
    let mut task = fresh_task(true);
    let t = params_update();
    let acts = task.handle_event(MessageEvent::TrunkingControl(t));
    assert_eq!(
        acts,
        vec![
            RecvAction::SendHub(HubEvent::TrunkingControl(t)),
            RecvAction::SendHub(HubEvent::State(StateEvent::UpdateChannelParams(t))),
        ]
    );

    let g = grant(42, Channel { id: 0, number: 4 });
    let acts = task.handle_event(MessageEvent::TrunkingControl(g));
    assert_eq!(acts, vec![RecvAction::SendHub(HubEvent::TrunkingControl(g))]);
    assert_eq!(&task.talkgroups.cur[..], &[42]);
    assert_eq!(task.talkgroups.channels.get(42), Some(851_050_000));

    // Fill the selection window: the policy chooses the only candidate and
    // the receiver hops to its traffic channel.
    let acts = task.handle_elapsed(10);
    assert_eq!(
        acts,
        vec![
            RecvAction::SendHub(HubEvent::UpdateCurFreq(851_050_000)),
            RecvAction::SetSdrFreq(851_050_000),
            RecvAction::ResyncDecoder,
            RecvAction::SendHub(HubEvent::UpdateTalkGroup(42)),
        ]
    );
    assert_eq!(task.curgroup, 42);
    assert_eq!(task.curfreq, 851_050_000);
}

#[test]
fn monitor_only_mode_never_retunes() {
    let mut task = fresh_task(false);
    let t = params_update();
    task.handle_event(MessageEvent::TrunkingControl(t));
    let g = grant(42, Channel { id: 0, number: 4 });
    task.handle_event(MessageEvent::TrunkingControl(g));
    let acts = task.handle_elapsed(10);
    // With hopping disabled the selection is consumed but nothing retunes.
    assert_eq!(acts, vec![]);
    assert_eq!(task.curfreq, 851_000_000);
    assert_eq!(task.curgroup, 0);
}

#[test]
fn invalid_tsbk_dropped() {
    let mut task = fresh_task(true);
    let mut g = grant(42, Channel { id: 0, number: 4 });
    g.mfg = 1;
    assert_eq!(task.handle_event(MessageEvent::TrunkingControl(g)), vec![]);
    let mut g = grant(42, Channel { id: 0, number: 4 });
    g.crc_valid = false;
    assert_eq!(task.handle_event(MessageEvent::TrunkingControl(g)), vec![]);
    let u = Tsbk { mfg: 0, crc_valid: true, body: TsbkBody::Unknown };
    assert_eq!(task.handle_event(MessageEvent::TrunkingControl(u)), vec![]);
    assert!(task.talkgroups.cur.is_empty());
}

#[test]
fn encrypted_call_abandoned() {
    let mut task = fresh_task(true);
    let t = params_update();
    task.handle_event(MessageEvent::TrunkingControl(t));
    task.handle_event(MessageEvent::TrunkingControl(grant(42, Channel { id: 0, number: 4 })));
    task.handle_elapsed(10);
    assert_eq!(task.curgroup, 42);

    // The voice header announces encryption: the receiver returns to the
    // control channel and blacklists the talkgroup.
    let acts = task.handle_event(MessageEvent::VoiceHeader { crypto: CryptoAlgorithm::Aes });
    assert_eq!(
        acts,
        vec![
            RecvAction::SendAudioEnd,
            RecvAction::SendHub(HubEvent::UpdateCurFreq(851_000_000)),
            RecvAction::SetSdrFreq(851_000_000),
            RecvAction::ResyncDecoder,
            RecvAction::SendHub(HubEvent::State(StateEvent::UpdateEncrypted(
                42,
                CryptoAlgorithm::Aes,
            ))),
        ]
    );
    assert_eq!(task.talkgroups.encrypted.get(42), Some(CryptoAlgorithm::Aes));

    // A later grant for the blacklisted talkgroup collects nothing.
    task.handle_event(MessageEvent::TrunkingControl(grant(42, Channel { id: 0, number: 4 })));
    assert!(task.talkgroups.cur.is_empty());

    // An unencrypted header changes nothing.
    let acts = task.handle_event(MessageEvent::VoiceHeader {
        crypto: CryptoAlgorithm::Unencrypted,
    });
    assert_eq!(acts, vec![]);
}

#[test]
fn voice_frame_forwarded() {
    let mut task = fresh_task(true);
    assert_eq!(
        task.handle_event(MessageEvent::VoiceFrame),
        vec![RecvAction::SendAudioFrame]
    );
    assert_eq!(task.handle_event(MessageEvent::LowSpeedDataFragment), vec![]);
}

#[test]
fn nid_drives_policy_through_receiver() {
    let mut task = fresh_task(true);
    let t = params_update();
    task.handle_event(MessageEvent::TrunkingControl(t));
    task.handle_event(MessageEvent::TrunkingControl(grant(42, Channel { id: 0, number: 4 })));
    task.handle_elapsed(10);

    // A stale trunking block right after the hop asks for a resync.
    let nid = NetworkId::new(NetworkAccessCode::Default, DataUnit::TrunkingSignaling);
    assert_eq!(
        task.handle_event(MessageEvent::PacketNID(nid)),
        vec![RecvAction::ResyncDecoder]
    );

    // A watchdog timeout returns to the control channel.
    let acts = task.handle_elapsed(20);
    assert_eq!(
        acts,
        vec![
            RecvAction::SendAudioEnd,
            RecvAction::SendHub(HubEvent::UpdateCurFreq(851_000_000)),
            RecvAction::SetSdrFreq(851_000_000),
            RecvAction::ResyncDecoder,
        ]
    );
    assert_eq!(task.curfreq, 851_000_000);
}

#[test]
fn channel_params_compute_frequencies() {
    let p = ChannelParams::new(170_200_000, 0, 100, 100);
    assert_eq!(p.base, 851_000_000);
    assert_eq!(p.spacing, 12_500);
    assert_eq!(p.bandwidth, 12_500);
    assert_eq!(p.rx_freq(0), 851_000_000);
    assert_eq!(p.rx_freq(4), 851_050_000);
}

#[test]
fn control_freq_change_clears_site_state() {
    let mut task = fresh_task(true);
    let t = params_update();
    task.handle_event(MessageEvent::TrunkingControl(t));
    task.handle_event(MessageEvent::TrunkingControl(grant(42, Channel { id: 0, number: 4 })));
    task.handle_event(MessageEvent::VoiceHeader { crypto: CryptoAlgorithm::Des });

    // Same frequency: the site is unchanged, the blacklist stays.
    task.set_control_freq(851_000_000);
    assert_eq!(task.talkgroups.encrypted.len(), 1);

    // A new frequency is a new site: parameters and blacklist are dropped.
    task.set_control_freq(852_000_000);
    assert_eq!(task.talkgroups.encrypted.len(), 0);
    assert_eq!(task.channels.lookup_freq(Channel { id: 0, number: 4 }), None);
    assert_eq!(task.ctlfreq, 852_000_000);
}
