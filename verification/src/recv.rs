//! Receiver logic.
//!
//! The receiver owns the trunking state: the policy machine, the talkgroup
//! selector, the channel parameters of the current site, and the current
//! frequency and talkgroup. It consumes already-decoded protocol records —
//! plain-data mirrors of the event stream that the protocol decoder
//! produces — and answers each with a state change and an ordered list of
//! actions for the surrounding tasks to perform.

use vstd::prelude::*;

use crate::policy::{NetworkId, PolicyEvent, ReceiverPolicy, nid_step};
use crate::stats::Stats;
use crate::talkgroups::{CryptoAlgorithm, TalkgroupSelection};

verus! {

/// A talkgroup address.
#[derive(Copy, Clone, PartialEq, Eq, Structural, Debug)]
pub enum TalkGroup {
    /// Addressed to nobody.
    Nobody,
    /// The default talkgroup.
    Default,
    /// Addressed to everybody.
    Everybody,
    /// A specific talkgroup.
    Other(u16),
}

/// A channel as referenced by trunking packets: a 4-bit id naming a set of
/// channel parameters, and a 12-bit channel number within it.
#[derive(Copy, Clone, PartialEq, Eq, Structural, Debug)]
pub struct Channel {
    /// Which parameter set the channel number is relative to.
    pub id: u8,
    /// Channel number within the parameter set.
    pub number: u16,
}

/// Parameters for computing a channel's frequencies, in Hz.
#[derive(Copy, Clone, PartialEq, Eq, Structural, Debug)]
pub struct ChannelParams {
    /// Base receive frequency (Hz).
    pub base: u64,
    /// Channel spacing (Hz).
    pub spacing: u64,
    /// Raw transmit offset field, as transmitted.
    pub offset: u16,
    /// Channel bandwidth (Hz).
    pub bandwidth: u64,
}

impl ChannelParams {
    /// Build parameters from the raw fields of a channel-params update: the
    /// base frequency arrives in units of 5 Hz, the spacing and bandwidth in
    /// units of 125 Hz.
    pub fn new(base: u32, offset: u16, spacing: u16, bandwidth: u16) -> (r: ChannelParams)
        ensures
            r.base == 5 * base as int,
            r.spacing == 125 * spacing as int,
            r.offset == offset,
            r.bandwidth == 125 * bandwidth as int,
    {
        ChannelParams {
            base: 5 * base as u64,
            spacing: 125 * spacing as u64,
            offset,
            bandwidth: 125 * bandwidth as u64,
        }
    }

    /// Center frequency (Hz) of the given receive channel number.
    pub open spec fn spec_rx_freq(self, number: u16) -> int {
        self.base + self.spacing * number
    }

    /// Center frequency (Hz) of the given receive channel number.
    pub fn rx_freq(&self, number: u16) -> (r: u64)
        requires
            self.base <= 0x8_0000_0000,
            self.spacing <= 0x80_0000,
        ensures
            r == self.spec_rx_freq(number),
    {
        proof {
            assert(self.spacing * number <= 0x80_0000 * 0x1_0000) by (nonlinear_arith)
                requires
                    self.spacing <= 0x80_0000,
                    number <= 0x1_0000,
            ;
        }
        self.base + self.spacing * (number as u64)
    }
}

/// Channel parameter sets of the current site, indexed by 4-bit id.
pub struct ChannelParamsMap {
    /// One optional parameter set per id.
    pub params: Vec<Option<ChannelParams>>,
}

impl ChannelParamsMap {
    /// Sixteen slots, and every stored parameter set is within the bounds
    /// its raw fields allow.
    pub open spec fn wf(self) -> bool {
        &&& self.params@.len() == 16
        &&& forall|i: int|
            0 <= i < 16 ==> ((#[trigger] self.params@[i]) matches Some(p) ==> p.base
                <= 0x8_0000_0000 && p.spacing <= 0x80_0000)
    }

    /// A map with no parameter sets.
    pub fn new() -> (r: ChannelParamsMap)
        ensures
            r.wf(),
            forall|i: int| 0 <= i < 16 ==> (#[trigger] r.params@[i]) is None,
    {
        let mut params: Vec<Option<ChannelParams>> = Vec::new();
        let mut i: usize = 0;
        while i < 16
            invariant
                i <= 16,
                params@.len() == i,
                forall|j: int| 0 <= j < i ==> (#[trigger] params@[j]) is None,
            decreases 16 - i,
        {
            params.push(None);
            i = i + 1;
        }
        ChannelParamsMap { params }
    }

    /// Store the parameter set decoded from a channel-params update.
    pub fn update(&mut self, id: u8, base: u32, offset: u16, spacing: u16, bandwidth: u16)
        requires
            old(self).wf(),
            id < 16,
        ensures
            final(self).wf(),
            final(self).params@[id as int] == Some(ChannelParams::spec_from_raw(
                base,
                offset,
                spacing,
                bandwidth,
            )),
            forall|i: int|
                0 <= i < 16 && i != id ==> #[trigger] final(self).params@[i] == old(
                    self,
                ).params@[i],
    {
        let p = ChannelParams::new(base, offset, spacing, bandwidth);
        proof {
            assert(125 * spacing as int <= 0x80_0000);
            assert(5 * base as int <= 0x8_0000_0000);
        }
        self.params[id as usize] = Some(p);
    }

    /// The parameter set stored under an id.
    pub fn lookup(&self, id: u8) -> (r: Option<ChannelParams>)
        requires
            self.wf(),
            id < 16,
        ensures
            r == self.params@[id as int],
    {
        self.params[id as usize]
    }

    /// The receive frequency of a channel, in Hz: `None` when no parameters
    /// are on file for the channel's id, or when the frequency overflows
    /// the 32-bit range the tuner accepts.
    pub open spec fn spec_lookup_freq(self, ch: Channel) -> Option<u32> {
        lookup_freq_model(self.params@, ch)
    }

    /// Resolve a channel to its receive frequency (Hz).
    pub fn lookup_freq(&self, ch: Channel) -> (r: Option<u32>)
        requires
            self.wf(),
        ensures
            r == self.spec_lookup_freq(ch),
    {
        if ch.id >= 16 {
            return None;
        }
        match self.lookup(ch.id) {
            Some(p) => {
                let f = p.rx_freq(ch.number);
                if f <= u32::MAX as u64 {
                    Some(f as u32)
                } else {
                    None
                }
            },
            None => None,
        }
    }
}

impl ChannelParams {
    /// The parameter set that `new` builds from raw update fields.
    pub open spec fn spec_from_raw(base: u32, offset: u16, spacing: u16, bandwidth: u16) -> ChannelParams {
        ChannelParams {
            base: (5 * base as int) as u64,
            spacing: (125 * spacing as int) as u64,
            offset,
            bandwidth: (125 * bandwidth as int) as u64,
        }
    }
}

/// The receive frequency a parameter table resolves a channel to.
pub open spec fn lookup_freq_model(params: Seq<Option<ChannelParams>>, ch: Channel) -> Option<
    u32,
> {
    if ch.id < 16 && params.len() == 16 {
        match params[ch.id as int] {
            Some(p) => if 0 <= p.spec_rx_freq(ch.number) <= u32::MAX {
                Some(p.spec_rx_freq(ch.number) as u32)
            } else {
                None
            },
            None => None,
        }
    } else {
        None
    }
}

/// A channel parameter table with nothing on file.
pub open spec fn empty_channels() -> Seq<Option<ChannelParams>> {
    Seq::new(16, |i: int| None::<ChannelParams>)
}

/// Body of a trunking signaling block, by opcode, with the fields the
/// receiver and the hub read. Updates carry at most two channel/talkgroup
/// pairs; an absent pair is addressed to nobody.
#[derive(Copy, Clone, PartialEq, Eq, Structural, Debug)]
pub enum TsbkBody {
    /// A talkgroup was granted a traffic channel.
    GroupVoiceGrant {
        /// The granted talkgroup.
        talkgroup: TalkGroup,
        /// The granted channel.
        channel: Channel,
    },
    /// Talkgroups active on traffic channels.
    GroupVoiceUpdate {
        /// First updated channel.
        c0: Channel,
        /// Talkgroup on the first channel.
        t0: TalkGroup,
        /// Second updated channel.
        c1: Channel,
        /// Talkgroup on the second channel.
        t1: TalkGroup,
    },
    /// New channel parameters for one id.
    ChannelParamsUpdate {
        /// Which parameter set to replace.
        id: u8,
        /// Base frequency, in units of 5 Hz.
        base: u32,
        /// Raw transmit offset field.
        offset: u16,
        /// Channel spacing, in units of 125 Hz.
        spacing: u16,
        /// Channel bandwidth, in units of 125 Hz.
        bandwidth: u16,
    },
    /// Status of the current RF subsystem.
    RfssStatusBroadcast {
        /// Location registration area.
        area: u8,
        /// System id.
        system: u16,
        /// RF subsystem id.
        rfss: u8,
        /// Site id.
        site: u8,
    },
    /// Status of the network.
    NetworkStatusBroadcast {
        /// Location registration area.
        area: u8,
        /// Wide area communication network id.
        wacn: u32,
        /// System id.
        system: u16,
    },
    /// Alternate control channels for the current site.
    AltControlChannel {
        /// RF subsystem id.
        rfss: u8,
        /// Site id.
        site: u8,
        /// First alternate channel.
        a0: Channel,
        /// Second alternate channel.
        a1: Channel,
    },
    /// Control channel of an adjacent site.
    AdjacentSite {
        /// Location registration area.
        area: u8,
        /// System id.
        system: u16,
        /// RF subsystem id.
        rfss: u8,
        /// Site id.
        site: u8,
        /// The adjacent site's control channel.
        channel: Channel,
    },
    /// Answer to a location registration.
    LocRegResponse {
        /// Response code.
        response: u8,
        /// RF subsystem id.
        rfss: u8,
        /// Site id.
        site: u8,
        /// Addressed unit.
        unit: u32,
    },
    /// Answer to a unit registration.
    UnitRegResponse {
        /// Response code.
        response: u8,
        /// System id.
        system: u16,
        /// The unit's id.
        unit_id: u32,
        /// The unit's address.
        unit_addr: u32,
    },
    /// Acknowledgement of a unit deregistration.
    UnitDeregAck {
        /// Wide area communication network id.
        wacn: u32,
        /// System id.
        system: u16,
        /// The deregistered unit.
        unit: u32,
    },
    /// A known opcode the receiver has no use for.
    OtherKnown,
    /// An opcode outside the standard: the whole block is dropped.
    Unknown,
}

/// A trunking signaling block, already decoded into plain fields.
#[derive(Copy, Clone, PartialEq, Eq, Structural, Debug)]
pub struct Tsbk {
    /// Manufacturer id; zero is the standard.
    pub mfg: u8,
    /// Whether the block's checksum was valid.
    pub crc_valid: bool,
    /// The decoded body.
    pub body: TsbkBody,
}

/// A link control word, already decoded into plain fields.
#[derive(Copy, Clone, PartialEq, Eq, Structural, Debug)]
pub enum LinkControl {
    /// The current call is over.
    CallTermination,
    /// Talkgroups active on traffic channels.
    GroupVoiceUpdate {
        /// First updated channel.
        c0: Channel,
        /// Talkgroup on the first channel.
        t0: TalkGroup,
        /// Second updated channel.
        c1: Channel,
        /// Talkgroup on the second channel.
        t1: TalkGroup,
    },
    /// Source unit of the current call.
    GroupVoiceTraffic {
        /// The transmitting unit.
        src_unit: u32,
    },
    /// Status of the current RF subsystem.
    RfssStatusBroadcast {
        /// Location registration area.
        area: u8,
        /// System id.
        system: u16,
        /// RF subsystem id.
        rfss: u8,
        /// Site id.
        site: u8,
    },
    /// Status of the network.
    NetworkStatusBroadcast {
        /// Location registration area.
        area: u8,
        /// Wide area communication network id.
        wacn: u32,
        /// System id.
        system: u16,
    },
    /// Control channel of an adjacent site.
    AdjacentSite {
        /// Location registration area.
        area: u8,
        /// System id.
        system: u16,
        /// RF subsystem id.
        rfss: u8,
        /// Site id.
        site: u8,
        /// The adjacent site's control channel.
        channel: Channel,
    },
    /// Alternate control channels for the current site.
    AltControlChannel {
        /// RF subsystem id.
        rfss: u8,
        /// Site id.
        site: u8,
        /// First alternate channel.
        a0: Channel,
        /// Second alternate channel.
        a1: Channel,
    },
    /// A known opcode the receiver has no use for.
    OtherKnown,
    /// An opcode outside the standard: the whole word is dropped.
    Unknown,
}

/// One event from the protocol decoder, with its records decoded to plain
/// fields.
#[derive(Copy, Clone, PartialEq, Eq, Structural, Debug)]
pub enum MessageEvent {
    /// A decode error; its kind names the code that failed.
    Error(crate::stats::ErrorKind),
    /// A NID word was received.
    PacketNID(NetworkId),
    /// A voice header was received, announcing the call's encryption.
    VoiceHeader {
        /// The announced algorithm.
        crypto: CryptoAlgorithm,
    },
    /// A link control word was received.
    LinkControl(LinkControl),
    /// A crypto control word was received.
    CryptoControl {
        /// The announced algorithm.
        alg: CryptoAlgorithm,
    },
    /// A low-speed data fragment; ignored.
    LowSpeedDataFragment,
    /// A voice frame was received; the frame itself stays with the caller.
    VoiceFrame,
    /// A trunking signaling block was received.
    TrunkingControl(Tsbk),
    /// A terminator carrying a link control word was received.
    VoiceTerm(LinkControl),
}

/// One side effect the receiver asks the surrounding tasks to perform, in
/// order.
#[derive(Copy, Clone, PartialEq, Eq, Structural, Debug)]
pub enum RecvAction {
    /// Send an event to the hub.
    SendHub(crate::hub::HubEvent),
    /// Tell the audio task the transmission ended.
    SendAudioEnd,
    /// Forward the just-received voice frame to the audio task.
    SendAudioFrame,
    /// Retune the SDR to the given frequency (Hz).
    SetSdrFreq(u32),
    /// Resynchronize the protocol decoder.
    ResyncDecoder,
}

/// Snapshot of the receiver's whole state.
#[verifier::ext_equal]
pub ghost struct RecvModel {
    /// Control channel frequency (Hz).
    pub ctlfreq: u32,
    /// Whether frequency hopping is enabled.
    pub hopping: bool,
    /// Policy state machine.
    pub policy: ReceiverPolicy,
    /// Talkgroup selection machinery.
    pub talkgroups: crate::talkgroups::SelModel,
    /// Channel parameter sets.
    pub channels: Seq<Option<ChannelParams>>,
    /// Current center frequency (Hz).
    pub curfreq: u32,
    /// Current talkgroup being monitored.
    pub curgroup: u16,
    /// Accumulated statistics.
    pub stats: Stats,
}

/// Processes decoded P25 records and performs the duties of a trunking
/// receiver.
pub struct RecvTask {
    /// Control channel frequency (Hz).
    pub ctlfreq: u32,
    /// Whether frequency hopping is enabled.
    pub hopping: bool,
    /// Policy state machine.
    pub policy: ReceiverPolicy,
    /// Talkgroup selection machinery.
    pub talkgroups: TalkgroupSelection,
    /// Channel mappings.
    pub channels: ChannelParamsMap,
    /// Current center frequency (Hz).
    pub curfreq: u32,
    /// Current talkgroup being monitored.
    pub curgroup: u16,
    /// Accumulated statistics.
    pub stats: Stats,
}

impl View for RecvTask {
    type V = RecvModel;

    open spec fn view(&self) -> RecvModel {
        RecvModel {
            ctlfreq: self.ctlfreq,
            hopping: self.hopping,
            policy: self.policy,
            talkgroups: self.talkgroups@,
            channels: self.channels.params@,
            curfreq: self.curfreq,
            curgroup: self.curgroup,
            stats: self.stats,
        }
    }
}

/// Retuning: the new frequency is remembered and announced, the SDR is
/// retuned, and the decoder resynchronized — in that order, so the hub sees
/// the new frequency before anything decoded from it.
pub open spec fn set_freq_step(m: RecvModel, freq: u32) -> (RecvModel, Seq<RecvAction>) {
    (
        RecvModel { curfreq: freq, ..m },
        seq![
            RecvAction::SendHub(crate::hub::HubEvent::UpdateCurFreq(freq)),
            RecvAction::SetSdrFreq(freq),
            RecvAction::ResyncDecoder,
        ],
    )
}

/// Moving to the control channel: the audio task flushes the transmission,
/// the receiver retunes to the control frequency, and the policy restarts
/// its selection window.
pub open spec fn switch_control_step(m: RecvModel) -> (RecvModel, Seq<RecvAction>) {
    let (m1, acts) = set_freq_step(m, m.ctlfreq);
    (
        RecvModel { policy: crate::policy::enter_control_step(m1.policy), ..m1 },
        seq![RecvAction::SendAudioEnd] + acts,
    )
}

/// Choosing a talkgroup to monitor: with hopping disabled nothing happens;
/// otherwise the receiver remembers the talkgroup, retunes to its traffic
/// channel, arms the policy watchdog, and announces the talkgroup.
pub open spec fn select_talkgroup_step(m: RecvModel, tg: u16, freq: u32) -> (
    RecvModel,
    Seq<RecvAction>,
) {
    if !m.hopping {
        (m, Seq::<RecvAction>::empty())
    } else {
        let (m1, acts) = set_freq_step(RecvModel { curgroup: tg, ..m }, freq);
        (
            RecvModel { policy: crate::policy::enter_traffic_step(m1.policy), ..m1 },
            acts + seq![RecvAction::SendHub(crate::hub::HubEvent::UpdateTalkGroup(tg))],
        )
    }
}

/// Reacting to the policy machine: resynchronize, return to the control
/// channel, or select the best idle talkgroup and hop to it.
pub open spec fn handle_policy_step(m: RecvModel, e: Option<PolicyEvent>) -> (
    RecvModel,
    Seq<RecvAction>,
) {
    match e {
        None => (m, Seq::<RecvAction>::empty()),
        Some(PolicyEvent::Resync) => (m, seq![RecvAction::ResyncDecoder]),
        Some(PolicyEvent::ReturnControl) => switch_control_step(m),
        Some(PolicyEvent::ChooseTalkgroup) => {
            let (sel, r) = crate::talkgroups::spec_select(m.talkgroups, m.talkgroups.cur);
            let m1 = RecvModel { talkgroups: sel, ..m };
            match r {
                None => (m1, Seq::<RecvAction>::empty()),
                Some((tg, freq)) => select_talkgroup_step(m1, tg, freq),
            }
        },
    }
}

/// Committing a control channel frequency: a different frequency means the
/// site may have changed, so the channel parameters and the selector's
/// transient state are dropped; either way the frequency is announced and
/// the receiver moves to the control channel.
pub open spec fn set_control_freq_step(m: RecvModel, freq: u32) -> (RecvModel, Seq<RecvAction>) {
    let m1 = if freq != m.ctlfreq {
        RecvModel {
            channels: empty_channels(),
            talkgroups: crate::talkgroups::spec_clear_state(m.talkgroups),
            ..m
        }
    } else {
        m
    };
    let m2 = RecvModel { ctlfreq: freq, ..m1 };
    let (m3, acts) = switch_control_step(m2);
    (
        m3,
        seq![
            RecvAction::SendHub(
                crate::hub::HubEvent::State(crate::hub::StateEvent::UpdateCtlFreq(freq)),
            ),
        ] + acts,
    )
}

/// Collecting one channel/talkgroup pair: only a specific talkgroup with a
/// resolvable frequency is considered; the selector then applies its own
/// filters.
pub open spec fn add_tg_step(m: RecvModel, tg: TalkGroup, ch: Channel) -> RecvModel {
    match tg {
        TalkGroup::Other(x) => match lookup_freq_model(m.channels, ch) {
            Some(freq) => RecvModel {
                talkgroups: crate::talkgroups::spec_add(m.talkgroups, x, freq),
                ..m
            },
            None => m,
        },
        _ => m,
    }
}

/// Reacting to a call's encryption: unencrypted calls proceed; anything
/// else abandons the call for the control channel, blacklists the current
/// talkgroup, and announces the discovery.
pub open spec fn crypto_step(m: RecvModel, alg: CryptoAlgorithm) -> (RecvModel, Seq<RecvAction>) {
    if alg is Unencrypted {
        (m, Seq::<RecvAction>::empty())
    } else {
        let (m1, acts) = switch_control_step(m);
        (
            RecvModel {
                talkgroups: crate::talkgroups::spec_record_encrypted(
                    m1.talkgroups,
                    m.curgroup,
                    alg,
                ),
                ..m1
            },
            acts + seq![
                RecvAction::SendHub(
                    crate::hub::HubEvent::State(
                        crate::hub::StateEvent::UpdateEncrypted(m.curgroup, alg),
                    ),
                ),
            ],
        )
    }
}

/// Processing a trunking block: blocks from other manufacturers, with bad
/// checksums, or with unknown opcodes are dropped; anything else is
/// forwarded to the hub and then acted on by opcode.
pub open spec fn tsbk_step(m: RecvModel, t: Tsbk) -> (RecvModel, Seq<RecvAction>) {
    if t.mfg != 0 || !t.crc_valid || t.body is Unknown {
        (m, Seq::<RecvAction>::empty())
    } else {
        let fwd = seq![RecvAction::SendHub(crate::hub::HubEvent::TrunkingControl(t))];
        match t.body {
            TsbkBody::GroupVoiceGrant { talkgroup, channel } => (
                add_tg_step(m, talkgroup, channel),
                fwd,
            ),
            TsbkBody::GroupVoiceUpdate { c0, t0, c1, t1 } => (
                add_tg_step(add_tg_step(m, t0, c0), t1, c1),
                fwd,
            ),
            TsbkBody::ChannelParamsUpdate { id, base, offset, spacing, bandwidth } => if id < 16 {
                (
                    RecvModel {
                        channels: m.channels.update(
                            id as int,
                            Some(ChannelParams::spec_from_raw(base, offset, spacing, bandwidth)),
                        ),
                        ..m
                    },
                    fwd + seq![
                        RecvAction::SendHub(
                            crate::hub::HubEvent::State(
                                crate::hub::StateEvent::UpdateChannelParams(t),
                            ),
                        ),
                    ],
                )
            } else {
                (m, fwd)
            },
            _ => (m, fwd),
        }
    }
}

/// Processing a link control word: unknown opcodes are dropped; anything
/// else is forwarded to the hub, a termination drives the policy machine,
/// and a traffic update collects talkgroups and may preempt the current
/// call.
pub open spec fn lc_step(m: RecvModel, lc: LinkControl) -> (RecvModel, Seq<RecvAction>) {
    if lc is Unknown {
        (m, Seq::<RecvAction>::empty())
    } else {
        let fwd = seq![RecvAction::SendHub(crate::hub::HubEvent::LinkControl(lc))];
        match lc {
            LinkControl::CallTermination => {
                let e = if m.policy.state is Control {
                    None::<PolicyEvent>
                } else {
                    Some(PolicyEvent::ReturnControl)
                };
                let (m1, acts) = handle_policy_step(m, e);
                (m1, fwd + acts)
            },
            LinkControl::GroupVoiceUpdate { c0, t0, c1, t1 } => {
                let m1 = add_tg_step(add_tg_step(m, t0, c0), t1, c1);
                let (sel, r) = crate::talkgroups::spec_select(
                    m1.talkgroups,
                    m1.talkgroups.cur_preempt,
                );
                let m2 = RecvModel { talkgroups: sel, ..m1 };
                match r {
                    None => (m2, fwd),
                    Some((tg, freq)) => {
                        let (m3, acts) = select_talkgroup_step(m2, tg, freq);
                        (m3, fwd + acts)
                    },
                }
            },
            _ => (m, fwd),
        }
    }
}

/// Processing one decoder event.
pub open spec fn event_step(m: RecvModel, e: MessageEvent) -> (RecvModel, Seq<RecvAction>) {
    match e {
        MessageEvent::Error(kind) => (
            RecvModel { stats: crate::stats::spec_record_err(m.stats, kind), ..m },
            Seq::<RecvAction>::empty(),
        ),
        MessageEvent::PacketNID(nid) => {
            let (p, ev) = nid_step(m.policy, nid.data_unit);
            handle_policy_step(RecvModel { policy: p, ..m }, ev)
        },
        MessageEvent::VoiceHeader { crypto } => crypto_step(m, crypto),
        MessageEvent::CryptoControl { alg } => crypto_step(m, alg),
        MessageEvent::LowSpeedDataFragment => (m, Seq::<RecvAction>::empty()),
        MessageEvent::VoiceFrame => (m, seq![RecvAction::SendAudioFrame]),
        MessageEvent::LinkControl(lc) => lc_step(m, lc),
        MessageEvent::VoiceTerm(lc) => lc_step(m, lc),
        MessageEvent::TrunkingControl(t) => tsbk_step(m, t),
    }
}

/// Closing a baseband block: the policy machine records its length and its
/// answer is acted on.
pub open spec fn elapsed_block_step(m: RecvModel, samples: usize) -> (RecvModel, Seq<RecvAction>) {
    let (p, ev) = crate::policy::elapsed_step(m.policy, samples as int);
    handle_policy_step(RecvModel { policy: p, ..m }, ev)
}

impl RecvTask {
    /// The selector and the channel table are well-formed.
    pub open spec fn wf(self) -> bool {
        self.talkgroups.wf() && self.channels.wf()
    }

    /// Create a new `RecvTask` monitoring the given control channel.
    ///
    /// The receiver starts with no channel parameters, no current
    /// talkgroup, and zeroed statistics, and immediately commits the given
    /// control frequency, producing the actions that commit implies.
    pub fn new(
        ctlfreq: u32,
        hopping: bool,
        policy: ReceiverPolicy,
        talkgroups: TalkgroupSelection,
    ) -> (r: (RecvTask, Vec<RecvAction>))
        requires
            talkgroups.wf(),
        ensures
            r.0.wf(),
            (r.0@, r.1@) == set_control_freq_step(
                RecvModel {
                    ctlfreq: u32::MAX,
                    hopping,
                    policy,
                    talkgroups: talkgroups@,
                    channels: empty_channels(),
                    curfreq: u32::MAX,
                    curgroup: 0u16,
                    stats: crate::stats::spec_stats_new(),
                },
                ctlfreq,
            ),
    {
        let mut task = RecvTask {
            ctlfreq: u32::MAX,
            hopping,
            policy,
            talkgroups,
            channels: ChannelParamsMap::new(),
            curfreq: u32::MAX,
            curgroup: 0,
            stats: Stats::new(),
        };
        proof {
            assert(task.channels.params@ =~= empty_channels());
        }
        let acts = task.set_control_freq(ctlfreq);
        (task, acts)
    }

    /// Change the control channel frequency (Hz).
    ///
    /// This immediately switches to the new control channel; a frequency
    /// different from the current one drops the site-specific state first.
    pub fn set_control_freq(&mut self, freq: u32) -> (acts: Vec<RecvAction>)
        requires
            old(self).wf(),
        ensures
            final(self).wf(),
            (final(self)@, acts@) == set_control_freq_step(old(self)@, freq),
    {
        let mut acts: Vec<RecvAction> = Vec::new();
        if freq != self.ctlfreq {
            self.channels = ChannelParamsMap::new();
            self.talkgroups.clear_state();
            proof {
                assert(self.channels.params@ =~= empty_channels());
            }
        }
        self.ctlfreq = freq;
        acts.push(
            RecvAction::SendHub(
                crate::hub::HubEvent::State(crate::hub::StateEvent::UpdateCtlFreq(freq)),
            ),
        );
        self.switch_control(&mut acts);
        proof {
            assert(acts@ =~= set_control_freq_step(old(self)@, freq).1);
            assert(final(self)@ =~= set_control_freq_step(old(self)@, freq).0);
        }
        acts
    }

    /// Move to the control channel.
    fn switch_control(&mut self, acts: &mut Vec<RecvAction>)
        requires
            old(self).wf(),
        ensures
            final(self).wf(),
            final(self)@ == switch_control_step(old(self)@).0,
            final(acts)@ == old(acts)@ + switch_control_step(old(self)@).1,
    {
        acts.push(RecvAction::SendAudioEnd);
        let freq = self.ctlfreq;
        self.set_freq(freq, acts);
        self.policy.enter_control();
        proof {
            assert(final(self)@ =~= switch_control_step(old(self)@).0);
            assert(final(acts)@ =~= old(acts)@ + switch_control_step(old(self)@).1);
        }
    }

    /// Move to the given frequency (Hz).
    fn set_freq(&mut self, freq: u32, acts: &mut Vec<RecvAction>)
        requires
            old(self).wf(),
        ensures
            final(self).wf(),
            final(self)@ == set_freq_step(old(self)@, freq).0,
            final(acts)@ == old(acts)@ + set_freq_step(old(self)@, freq).1,
    {
        self.curfreq = freq;
        acts.push(RecvAction::SendHub(crate::hub::HubEvent::UpdateCurFreq(freq)));
        acts.push(RecvAction::SetSdrFreq(freq));
        acts.push(RecvAction::ResyncDecoder);
        proof {
            assert(final(self)@ =~= set_freq_step(old(self)@, freq).0);
            assert(final(acts)@ =~= old(acts)@ + set_freq_step(old(self)@, freq).1);
        }
    }

    /// Handle the given policy event.
    fn handle_policy(&mut self, e: Option<PolicyEvent>, acts: &mut Vec<RecvAction>)
        requires
            old(self).wf(),
        ensures
            final(self).wf(),
            final(self)@ == handle_policy_step(old(self)@, e).0,
            final(acts)@ == old(acts)@ + handle_policy_step(old(self)@, e).1,
    {
        match e {
            None => {
                proof {
                    assert(final(acts)@ =~= old(acts)@ + handle_policy_step(old(self)@, e).1);
                }
            },
            Some(PolicyEvent::Resync) => {
                acts.push(RecvAction::ResyncDecoder);
                proof {
                    assert(final(acts)@ =~= old(acts)@ + handle_policy_step(old(self)@, e).1);
                }
            },
            Some(PolicyEvent::ReturnControl) => {
                self.switch_control(acts);
            },
            Some(PolicyEvent::ChooseTalkgroup) => {
                match self.talkgroups.select_idle() {
                    Some(sel) => {
                        self.select_talkgroup(sel.0, sel.1, acts);
                        proof {
                            assert(final(self)@ =~= handle_policy_step(old(self)@, e).0);
                            assert(final(acts)@ =~= old(acts)@ + handle_policy_step(
                                old(self)@,
                                e,
                            ).1);
                        }
                    },
                    None => {
                        proof {
                            assert(final(self)@ =~= handle_policy_step(old(self)@, e).0);
                            assert(final(acts)@ =~= old(acts)@ + handle_policy_step(
                                old(self)@,
                                e,
                            ).1);
                        }
                    },
                }
            },
        }
    }

    /// Choose the given talkgroup as the next to monitor.
    fn select_talkgroup(&mut self, tg: u16, freq: u32, acts: &mut Vec<RecvAction>)
        requires
            old(self).wf(),
        ensures
            final(self).wf(),
            final(self)@ == select_talkgroup_step(old(self)@, tg, freq).0,
            final(acts)@ == old(acts)@ + select_talkgroup_step(old(self)@, tg, freq).1,
    {
        if !self.hopping {
            proof {
                assert(final(acts)@ =~= old(acts)@ + select_talkgroup_step(
                    old(self)@,
                    tg,
                    freq,
                ).1);
            }
            return ;
        }
        self.curgroup = tg;
        self.set_freq(freq, acts);
        self.policy.enter_traffic();
        acts.push(RecvAction::SendHub(crate::hub::HubEvent::UpdateTalkGroup(tg)));
        proof {
            assert(final(self)@ =~= select_talkgroup_step(old(self)@, tg, freq).0);
            assert(final(acts)@ =~= old(acts)@ + select_talkgroup_step(old(self)@, tg, freq).1);
        }
    }

    /// Record the length of an arriving baseband block on the selector's
    /// age counter, before its samples are decoded.
    pub fn record_elapsed(&mut self, samples: usize)
        requires
            old(self).wf(),
        ensures
            final(self).wf(),
            final(self)@ == (RecvModel {
                talkgroups: crate::talkgroups::spec_record_elapsed(old(self)@.talkgroups, samples),
                ..old(self)@
            }),
    {
        self.talkgroups.record_elapsed(samples);
        proof {
            assert(final(self)@ =~= (RecvModel {
                talkgroups: crate::talkgroups::spec_record_elapsed(old(self)@.talkgroups, samples),
                ..old(self)@
            }));
        }
    }

    /// Close a baseband block: the policy machine records its length, and
    /// its answer — choose a talkgroup, return to control, resynchronize —
    /// is acted on.
    pub fn handle_elapsed(&mut self, samples: usize) -> (acts: Vec<RecvAction>)
        requires
            old(self).wf(),
        ensures
            final(self).wf(),
            (final(self)@, acts@) == elapsed_block_step(old(self)@, samples),
    {
        let mut acts: Vec<RecvAction> = Vec::new();
        let e = self.policy.handle_elapsed(samples);
        self.handle_policy(e, &mut acts);
        proof {
            assert(final(self)@ =~= elapsed_block_step(old(self)@, samples).0);
            assert(acts@ =~= elapsed_block_step(old(self)@, samples).1);
        }
        acts
    }

    /// Process one decoder event, answering with the actions it implies.
    pub fn handle_event(&mut self, e: MessageEvent) -> (acts: Vec<RecvAction>)
        requires
            old(self).wf(),
        ensures
            final(self).wf(),
            (final(self)@, acts@) == event_step(old(self)@, e),
    {
        let mut acts: Vec<RecvAction> = Vec::new();
        match e {
            MessageEvent::Error(kind) => {
                self.stats.record_err(kind);
                proof {
                    assert(final(self)@ =~= event_step(old(self)@, e).0);
                    assert(acts@ =~= event_step(old(self)@, e).1);
                }
            },
            MessageEvent::PacketNID(nid) => {
                let ev = self.policy.handle_nid(nid);
                self.handle_policy(ev, &mut acts);
                proof {
                    assert(final(self)@ =~= event_step(old(self)@, e).0);
                    assert(acts@ =~= event_step(old(self)@, e).1);
                }
            },
            MessageEvent::VoiceHeader { crypto } => {
                self.handle_crypto(crypto, &mut acts);
                proof {
                    assert(acts@ =~= event_step(old(self)@, e).1);
                }
            },
            MessageEvent::CryptoControl { alg } => {
                self.handle_crypto(alg, &mut acts);
                proof {
                    assert(acts@ =~= event_step(old(self)@, e).1);
                }
            },
            MessageEvent::LowSpeedDataFragment => {
                proof {
                    assert(acts@ =~= event_step(old(self)@, e).1);
                }
            },
            MessageEvent::VoiceFrame => {
                acts.push(RecvAction::SendAudioFrame);
                proof {
                    assert(acts@ =~= event_step(old(self)@, e).1);
                }
            },
            MessageEvent::LinkControl(lc) => {
                self.handle_lc(lc, &mut acts);
                proof {
                    assert(acts@ =~= event_step(old(self)@, e).1);
                }
            },
            MessageEvent::VoiceTerm(lc) => {
                self.handle_lc(lc, &mut acts);
                proof {
                    assert(acts@ =~= event_step(old(self)@, e).1);
                }
            },
            MessageEvent::TrunkingControl(t) => {
                self.handle_tsbk(t, &mut acts);
                proof {
                    assert(acts@ =~= event_step(old(self)@, e).1);
                }
            },
        }
        acts
    }

    /// Process the given trunking packet.
    fn handle_tsbk(&mut self, t: Tsbk, acts: &mut Vec<RecvAction>)
        requires
            old(self).wf(),
        ensures
            final(self).wf(),
            final(self)@ == tsbk_step(old(self)@, t).0,
            final(acts)@ == old(acts)@ + tsbk_step(old(self)@, t).1,
    {
        if t.mfg != 0 {
            proof {
                assert(final(acts)@ =~= old(acts)@ + tsbk_step(old(self)@, t).1);
            }
            return ;
        }
        if !t.crc_valid {
            proof {
                assert(final(acts)@ =~= old(acts)@ + tsbk_step(old(self)@, t).1);
            }
            return ;
        }
        if let TsbkBody::Unknown = t.body {
            proof {
                assert(final(acts)@ =~= old(acts)@ + tsbk_step(old(self)@, t).1);
            }
            return ;
        }
        acts.push(RecvAction::SendHub(crate::hub::HubEvent::TrunkingControl(t)));
        match t.body {
            TsbkBody::GroupVoiceGrant { talkgroup, channel } => {
                self.add_talkgroup(talkgroup, channel);
            },
            TsbkBody::GroupVoiceUpdate { c0, t0, c1, t1 } => {
                self.add_talkgroup(t0, c0);
                self.add_talkgroup(t1, c1);
            },
            TsbkBody::ChannelParamsUpdate { id, base, offset, spacing, bandwidth } => {
                if id < 16 {
                    self.channels.update(id, base, offset, spacing, bandwidth);
                    acts.push(
                        RecvAction::SendHub(
                            crate::hub::HubEvent::State(
                                crate::hub::StateEvent::UpdateChannelParams(t),
                            ),
                        ),
                    );
                    proof {
                        assert(final(self)@.channels =~= tsbk_step(old(self)@, t).0.channels);
                    }
                }
            },
            _ => {},
        }
        proof {
            assert(final(self)@ =~= tsbk_step(old(self)@, t).0);
            assert(final(acts)@ =~= old(acts)@ + tsbk_step(old(self)@, t).1);
        }
    }

    /// Process the given link control word.
    fn handle_lc(&mut self, lc: LinkControl, acts: &mut Vec<RecvAction>)
        requires
            old(self).wf(),
        ensures
            final(self).wf(),
            final(self)@ == lc_step(old(self)@, lc).0,
            final(acts)@ == old(acts)@ + lc_step(old(self)@, lc).1,
    {
        if let LinkControl::Unknown = lc {
            proof {
                assert(final(acts)@ =~= old(acts)@ + lc_step(old(self)@, lc).1);
            }
            return ;
        }
        acts.push(RecvAction::SendHub(crate::hub::HubEvent::LinkControl(lc)));
        match lc {
            LinkControl::CallTermination => {
                let ev = self.policy.handle_call_term();
                self.handle_policy(ev, acts);
            },
            LinkControl::GroupVoiceUpdate { c0, t0, c1, t1 } => {
                self.add_talkgroup(t0, c0);
                self.add_talkgroup(t1, c1);
                match self.talkgroups.select_preempt() {
                    Some(sel) => {
                        self.select_talkgroup(sel.0, sel.1, acts);
                    },
                    None => {},
                }
            },
            _ => {},
        }
        proof {
            assert(final(self)@ =~= lc_step(old(self)@, lc).0);
            assert(final(acts)@ =~= old(acts)@ + lc_step(old(self)@, lc).1);
        }
    }

    /// Process the given encryption info for the current talkgroup.
    fn handle_crypto(&mut self, alg: CryptoAlgorithm, acts: &mut Vec<RecvAction>)
        requires
            old(self).wf(),
        ensures
            final(self).wf(),
            final(self)@ == crypto_step(old(self)@, alg).0,
            final(acts)@ == old(acts)@ + crypto_step(old(self)@, alg).1,
    {
        if let CryptoAlgorithm::Unencrypted = alg {
            proof {
                assert(final(acts)@ =~= old(acts)@ + crypto_step(old(self)@, alg).1);
            }
            return ;
        }
        let tg = self.curgroup;
        self.switch_control(acts);
        self.talkgroups.record_encrypted(tg, alg);
        acts.push(
            RecvAction::SendHub(
                crate::hub::HubEvent::State(crate::hub::StateEvent::UpdateEncrypted(tg, alg)),
            ),
        );
        proof {
            assert(final(self)@ =~= crypto_step(old(self)@, alg).0);
            assert(final(acts)@ =~= old(acts)@ + crypto_step(old(self)@, alg).1);
        }
    }

    /// Collect the given talkgroup and associated traffic channel.
    fn add_talkgroup(&mut self, tg: TalkGroup, ch: Channel)
        requires
            old(self).wf(),
        ensures
            final(self).wf(),
            final(self)@ == add_tg_step(old(self)@, tg, ch),
    {
        let x = match tg {
            TalkGroup::Other(x) => x,
            _ => {
                proof {
                    assert(final(self)@ =~= add_tg_step(old(self)@, tg, ch));
                }
                return ;
            },
        };
        match self.channels.lookup_freq(ch) {
            Some(freq) => {
                self.talkgroups.add_talkgroup(x, freq);
                proof {
                    assert(final(self)@ =~= add_tg_step(old(self)@, tg, ch));
                }
            },
            None => {
                proof {
                    assert(final(self)@ =~= add_tg_step(old(self)@, tg, ch));
                }
            },
        }
    }

    /// Zero the accumulated statistics.
    pub fn reset_stats(&mut self)
        requires
            old(self).wf(),
        ensures
            final(self).wf(),
            final(self)@ == (RecvModel { stats: crate::stats::spec_stats_new(), ..old(self)@ }),
    {
        self.stats = Stats::new();
        proof {
            assert(final(self)@ =~= (RecvModel {
                stats: crate::stats::spec_stats_new(),
                ..old(self)@
            }));
        }
    }

    /// Fold a decoder-side tally into the accumulated statistics, code by
    /// code.
    pub fn merge_stats(&mut self, other: &Stats)
        requires
            old(self).wf(),
        ensures
            final(self).wf(),
            final(self)@ == (RecvModel {
                stats: crate::stats::spec_stats_merge(old(self).stats, *other),
                ..old(self)@
            }),
    {
        self.stats.merge(other);
        proof {
            assert(final(self)@ =~= (RecvModel {
                stats: crate::stats::spec_stats_merge(old(self).stats, *other),
                ..old(self)@
            }));
        }
    }
}

} // verus!
