//! Receiver policy state machine.
//!
//! Decides when the receiver stays on the control channel, when it follows
//! a voice call on a traffic channel, and when it returns. Timers count
//! baseband samples, not wall-clock time, so a replayed stream drives the
//! machine deterministically.

use vstd::prelude::*;

verus! {

/// Network access code carried by a NID word.
#[derive(Copy, Clone, PartialEq, Eq, Structural, Debug)]
pub enum NetworkAccessCode {
    /// The default code most sites transmit.
    Default,
    /// Code directing receivers to accept any transmission.
    ReceiveAny,
    /// Code directing repeaters to repeat any transmission.
    RepeatAny,
    /// Any other 12-bit code.
    Other(u16),
}

/// Kind of P25 data unit a NID word announces.
#[derive(Copy, Clone, PartialEq, Eq, Structural, Debug)]
pub enum DataUnit {
    /// Header data unit starting a voice message.
    VoiceHeader,
    /// Terminator data unit without a link control word.
    VoiceSimpleTerminator,
    /// Terminator data unit carrying a link control word.
    VoiceLCTerminator,
    /// Voice frame group with a link control word.
    VoiceLCFrameGroup,
    /// Voice frame group with a crypto control word.
    VoiceCCFrameGroup,
    /// Packet data unit.
    DataPacket,
    /// Trunking signaling block.
    TrunkingSignaling,
}

/// Network identifier word: access code plus data unit kind.
#[derive(Copy, Clone, PartialEq, Eq, Structural, Debug)]
pub struct NetworkId {
    /// Access code of the transmitting site.
    pub access_code: NetworkAccessCode,
    /// Kind of data unit that follows.
    pub data_unit: DataUnit,
}

impl NetworkId {
    /// Pair an access code with a data unit kind.
    pub fn new(access_code: NetworkAccessCode, data_unit: DataUnit) -> (r: NetworkId)
        ensures
            r == (NetworkId { access_code, data_unit }),
    {
        NetworkId { access_code, data_unit }
    }
}

/// Data units that terminate a voice message.
pub open spec fn is_voice_term(du: DataUnit) -> bool {
    du is VoiceSimpleTerminator || du is VoiceLCTerminator
}

/// Data units that carry (or start) voice frames.
pub open spec fn is_voice_packet(du: DataUnit) -> bool {
    du is VoiceHeader || du is VoiceLCFrameGroup || du is VoiceCCFrameGroup
}

/// Action that the receiver should take.
#[derive(Copy, Clone, PartialEq, Eq, Structural, Debug)]
pub enum PolicyEvent {
    /// Resynchronize the stream.
    Resync,
    /// Return to the control channel.
    ReturnControl,
    /// Choose a new talkgroup.
    ChooseTalkgroup,
}

/// A sum of sample counts, saturated at the counter's limit.
pub open spec fn sat_add(a: int, b: int) -> usize {
    if a + b > usize::MAX {
        usize::MAX
    } else {
        (a + b) as usize
    }
}

/// Tracks elapsed time compared to a timeout.
#[derive(Copy, Clone, PartialEq, Eq, Structural, Debug)]
pub struct Timer {
    /// Timeout value.
    pub max: usize,
    /// Current value.
    pub cur: usize,
}

impl Timer {
    /// Create a new `Timer` with the given timeout.
    pub fn new(max: usize) -> (r: Timer)
        ensures
            r == (Timer { max, cur: 0usize }),
    {
        Timer { max, cur: 0 }
    }

    /// Add the given number of samples to the elapsed time, saturating at
    /// the counter's limit, and return whether the timer has timed out.
    ///
    /// Saturation never masks an expiry: a saturated counter is at least as
    /// large as any timeout.
    pub fn expired(&mut self, samples: usize) -> (r: bool)
        ensures
            final(self).max == old(self).max,
            final(self).cur == sat_add(old(self).cur as int, samples as int),
            r == (final(self).cur >= old(self).max),
            r == (old(self).cur + samples >= old(self).max),
    {
        self.cur = self.cur.saturating_add(samples);
        self.cur >= self.max
    }

    /// Reset the elapsed time to zero.
    pub fn reset(&mut self)
        ensures
            final(self).max == old(self).max,
            final(self).cur == 0,
    {
        self.cur = 0;
    }
}

/// Current state of receiver.
#[derive(Copy, Clone, PartialEq, Eq, Structural, Debug)]
pub enum ReceiverState {
    /// On the control channel with a talkgroup selection timer.
    Control(Timer),
    /// On a traffic channel with a watchdog timer.
    ///
    /// The second argument indicates whether the receiver is still waiting
    /// for the first voice-related packet of the call.
    Traffic(Timer, bool),
    /// Pausing after a voice terminator, awaiting a continuation.
    Paused(Timer),
}

impl ReceiverState {
    /// Elapsed samples of whichever timer the state carries.
    pub open spec fn timer_cur(self) -> int {
        match self {
            ReceiverState::Control(t) => t.cur as int,
            ReceiverState::Traffic(t, _) => t.cur as int,
            ReceiverState::Paused(t) => t.cur as int,
        }
    }
}

/// Policy state machine for a P25 trunking receiver.
pub struct ReceiverPolicy {
    /// Current state.
    pub state: ReceiverState,
    /// Talkgroup selection timeout (baseband samples).
    pub select_time: usize,
    /// Watchdog timeout (baseband samples).
    pub watchdog_time: usize,
    /// Call termination pause timeout (baseband samples).
    pub pause_time: usize,
}

/// State and output of the policy machine after recording elapsed samples.
///
/// On the control channel, reaching the selection timeout resets the timer
/// and asks for a talkgroup; on a traffic channel or in a pause, reaching
/// the timeout asks to return to the control channel, leaving the timer as
/// it accumulated.
pub open spec fn elapsed_step(p: ReceiverPolicy, n: int) -> (ReceiverPolicy, Option<
    PolicyEvent,
>) {
    match p.state {
        ReceiverState::Control(t) => if t.cur + n >= t.max {
            (
                ReceiverPolicy { state: ReceiverState::Control(Timer { max: t.max, cur: 0 }), ..p },
                Some(PolicyEvent::ChooseTalkgroup),
            )
        } else {
            (
                ReceiverPolicy {
                    state: ReceiverState::Control(Timer { max: t.max, cur: sat_add(t.cur as int, n) }),
                    ..p
                },
                None,
            )
        },
        ReceiverState::Traffic(t, awaiting) => {
            let bumped = Timer { max: t.max, cur: sat_add(t.cur as int, n) };
            if t.cur + n >= t.max {
                (
                    ReceiverPolicy { state: ReceiverState::Traffic(bumped, awaiting), ..p },
                    Some(PolicyEvent::ReturnControl),
                )
            } else {
                (ReceiverPolicy { state: ReceiverState::Traffic(bumped, awaiting), ..p }, None)
            }
        },
        ReceiverState::Paused(t) => {
            let bumped = Timer { max: t.max, cur: sat_add(t.cur as int, n) };
            if t.cur + n >= t.max {
                (
                    ReceiverPolicy { state: ReceiverState::Paused(bumped), ..p },
                    Some(PolicyEvent::ReturnControl),
                )
            } else {
                (ReceiverPolicy { state: ReceiverState::Paused(bumped), ..p }, None)
            }
        },
    }
}

/// State and output of the policy machine after a NID word.
///
/// The control channel ignores NIDs. A fresh traffic channel ignores
/// leftover terminators, resyncs on a stale trunking block, and arms the
/// watchdog on the first voice packet. An armed traffic channel pauses on a
/// terminator and pets the watchdog on further voice packets. A pause
/// returns to traffic on a voice continuation.
pub open spec fn nid_step(p: ReceiverPolicy, du: DataUnit) -> (ReceiverPolicy, Option<
    PolicyEvent,
>) {
    match p.state {
        ReceiverState::Control(_) => (p, None),
        ReceiverState::Traffic(t, awaiting) => if awaiting {
            if is_voice_term(du) {
                (p, None)
            } else if is_voice_packet(du) {
                (
                    ReceiverPolicy {
                        state: ReceiverState::Traffic(
                            Timer { max: p.watchdog_time, cur: 0 },
                            false,
                        ),
                        ..p
                    },
                    None,
                )
            } else if du is TrunkingSignaling {
                (p, Some(PolicyEvent::Resync))
            } else {
                (p, None)
            }
        } else {
            if is_voice_term(du) {
                (
                    ReceiverPolicy {
                        state: ReceiverState::Paused(Timer { max: p.pause_time, cur: 0 }),
                        ..p
                    },
                    None,
                )
            } else if is_voice_packet(du) {
                (
                    ReceiverPolicy {
                        state: ReceiverState::Traffic(Timer { max: t.max, cur: 0 }, false),
                        ..p
                    },
                    None,
                )
            } else {
                (p, None)
            }
        },
        ReceiverState::Paused(_) => if is_voice_packet(du) {
            (
                ReceiverPolicy {
                    state: ReceiverState::Traffic(Timer { max: p.watchdog_time, cur: 0 }, true),
                    ..p
                },
                None,
            )
        } else {
            (p, None)
        },
    }
}

/// The machine forced onto the control channel: a fresh selection timer.
pub open spec fn enter_control_step(p: ReceiverPolicy) -> ReceiverPolicy {
    ReceiverPolicy {
        state: ReceiverState::Control(Timer { max: p.select_time, cur: 0 }),
        ..p
    }
}

/// The machine forced onto a traffic channel: a fresh watchdog, awaiting
/// the call's first voice packet.
pub open spec fn enter_traffic_step(p: ReceiverPolicy) -> ReceiverPolicy {
    ReceiverPolicy {
        state: ReceiverState::Traffic(Timer { max: p.watchdog_time, cur: 0 }, true),
        ..p
    }
}

impl ReceiverPolicy {
    /// The timeouts the machine was configured with.
    pub open spec fn times(self) -> (int, int, int) {
        (self.select_time as int, self.watchdog_time as int, self.pause_time as int)
    }

    /// The current state's timer always runs against the timeout configured
    /// for that state: the selection timeout on the control channel, the
    /// watchdog on a traffic channel, and the pause timeout in a pause.
    pub open spec fn wf(self) -> bool {
        match self.state {
            ReceiverState::Control(t) => t.max == self.select_time,
            ReceiverState::Traffic(t, _) => t.max == self.watchdog_time,
            ReceiverState::Paused(t) => t.max == self.pause_time,
        }
    }

    /// Create a new `ReceiverPolicy` with the given talkgroup selection
    /// timeout, watchdog timeout, and call termination pause timeout.
    ///
    /// Each timeout is an amount of baseband samples. The policy starts on
    /// the control channel.
    pub fn new(select: usize, watchdog: usize, pause: usize) -> (r: ReceiverPolicy)
        ensures
            r.wf(),
            r.state == ReceiverState::Control(Timer { max: select, cur: 0usize }),
            r.select_time == select,
            r.watchdog_time == watchdog,
            r.pause_time == pause,
    {
        ReceiverPolicy {
            state: ReceiverState::Control(Timer::new(select)),
            select_time: select,
            watchdog_time: watchdog,
            pause_time: pause,
        }
    }

    /// Record a given elapsed amount of baseband samples.
    pub fn handle_elapsed(&mut self, samples: usize) -> (r: Option<PolicyEvent>)
        ensures
            (*final(self), r) == elapsed_step(*old(self), samples as int),
            old(self).wf() ==> final(self).wf(),
    {
        match self.state {
            ReceiverState::Control(mut t) => {
                if t.expired(samples) {
                    t.reset();
                    self.state = ReceiverState::Control(t);
                    Some(PolicyEvent::ChooseTalkgroup)
                } else {
                    self.state = ReceiverState::Control(t);
                    None
                }
            },
            ReceiverState::Traffic(mut t, awaiting) => {
                let expired = t.expired(samples);
                self.state = ReceiverState::Traffic(t, awaiting);
                if expired {
                    Some(PolicyEvent::ReturnControl)
                } else {
                    None
                }
            },
            ReceiverState::Paused(mut t) => {
                let expired = t.expired(samples);
                self.state = ReceiverState::Paused(t);
                if expired {
                    Some(PolicyEvent::ReturnControl)
                } else {
                    None
                }
            },
        }
    }

    /// Record a received NID word.
    pub fn handle_nid(&mut self, nid: NetworkId) -> (r: Option<PolicyEvent>)
        ensures
            (*final(self), r) == nid_step(*old(self), nid.data_unit),
            old(self).wf() ==> final(self).wf(),
    {
        match self.state {
            ReceiverState::Control(_) => None,
            ReceiverState::Traffic(t, awaiting) => {
                if awaiting {
                    match nid.data_unit {
                        DataUnit::VoiceSimpleTerminator | DataUnit::VoiceLCTerminator => None,
                        DataUnit::VoiceHeader
                        | DataUnit::VoiceLCFrameGroup
                        | DataUnit::VoiceCCFrameGroup => {
                            self.state = ReceiverState::Traffic(
                                Timer::new(self.watchdog_time),
                                false,
                            );
                            None
                        },
                        DataUnit::TrunkingSignaling => Some(PolicyEvent::Resync),
                        DataUnit::DataPacket => None,
                    }
                } else {
                    match nid.data_unit {
                        DataUnit::VoiceSimpleTerminator | DataUnit::VoiceLCTerminator => {
                            self.state = ReceiverState::Paused(Timer::new(self.pause_time));
                            None
                        },
                        DataUnit::VoiceHeader
                        | DataUnit::VoiceLCFrameGroup
                        | DataUnit::VoiceCCFrameGroup => {
                            let mut t = t;
                            t.reset();
                            self.state = ReceiverState::Traffic(t, false);
                            None
                        },
                        _ => None,
                    }
                }
            },
            ReceiverState::Paused(_) => {
                match nid.data_unit {
                    DataUnit::VoiceHeader
                    | DataUnit::VoiceLCFrameGroup
                    | DataUnit::VoiceCCFrameGroup => {
                        self.state = ReceiverState::Traffic(Timer::new(self.watchdog_time), true);
                        None
                    },
                    _ => None,
                }
            },
        }
    }

    /// Record a received call termination indicator.
    ///
    /// On a traffic channel or in a pause the call is over and the receiver
    /// should return to the control channel; on the control channel a stray
    /// terminator is ignored.
    pub fn handle_call_term(&mut self) -> (r: Option<PolicyEvent>)
        ensures
            *final(self) == *old(self),
            old(self).wf() ==> final(self).wf(),
            r == if old(self).state is Control {
                None::<PolicyEvent>
            } else {
                Some(PolicyEvent::ReturnControl)
            },
    {
        match self.state {
            ReceiverState::Control(_) => None,
            ReceiverState::Traffic(..) | ReceiverState::Paused(_) => Some(
                PolicyEvent::ReturnControl,
            ),
        }
    }

    /// Indicate the receiver has moved to a traffic channel.
    pub fn enter_traffic(&mut self)
        ensures
            *final(self) == enter_traffic_step(*old(self)),
            final(self).wf(),
    {
        self.state = ReceiverState::Traffic(Timer::new(self.watchdog_time), true);
    }

    /// Indicate the receiver has moved to the control channel.
    pub fn enter_control(&mut self)
        ensures
            *final(self) == enter_control_step(*old(self)),
            final(self).wf(),
    {
        self.state = ReceiverState::Control(Timer::new(self.select_time));
    }
}

/// In a well-formed machine on the control channel, recording samples
/// chooses a talkgroup exactly when the accumulated samples reach the
/// configured selection timeout — and the window then restarts from zero,
/// so each completed window yields exactly one choice.
pub proof fn lemma_select_window(p: ReceiverPolicy, t: Timer, n: int)
    requires
        p.wf(),
        p.state == ReceiverState::Control(t),
        n >= 0,
    ensures
        (elapsed_step(p, n).1 == Some(PolicyEvent::ChooseTalkgroup)) <==> t.cur + n
            >= p.select_time,
        t.cur + n >= p.select_time ==> elapsed_step(p, n).0.state == ReceiverState::Control(
            Timer { max: p.select_time, cur: 0 },
        ),
        t.cur + n < p.select_time ==> elapsed_step(p, n).1 is None && elapsed_step(p, n).0.state
            == ReceiverState::Control(Timer { max: p.select_time, cur: sat_add(t.cur as int, n) }),
{
}

/// Total of a sequence of sample counts.
pub open spec fn sum(ns: Seq<int>) -> int
    decreases ns.len(),
{
    if ns.len() == 0 {
        0
    } else {
        ns[0] + sum(ns.drop_first())
    }
}

/// A sequence of non-negative counts has a non-negative total.
pub proof fn lemma_sum_nonneg(ns: Seq<int>)
    requires
        forall|i: int| 0 <= i < ns.len() ==> ns[i] >= 0,
    ensures
        sum(ns) >= 0,
    decreases ns.len(),
{
    if ns.len() > 0 {
        lemma_sum_nonneg(ns.drop_first());
    }
}

/// The machine after a whole sequence of elapsed recordings, along with how
/// many events the recordings produced.
pub open spec fn run_elapsed(p: ReceiverPolicy, ns: Seq<int>) -> (ReceiverPolicy, nat)
    decreases ns.len(),
{
    if ns.len() == 0 {
        (p, 0)
    } else {
        let (p1, e) = elapsed_step(p, ns[0]);
        let (p2, c) = run_elapsed(p1, ns.drop_first());
        (p2, c + (if e is Some { 1nat } else { 0nat }))
    }
}

/// On the control channel, no talkgroup is chosen before the selection
/// window fills: as long as the accumulated samples stay under the timeout,
/// recording them produces no event and only advances the timer.
pub proof fn lemma_control_quiet_window(p: ReceiverPolicy, t: Timer, ns: Seq<int>)
    requires
        p.state == ReceiverState::Control(t),
        forall|i: int| 0 <= i < ns.len() ==> ns[i] >= 0,
        t.cur + sum(ns) < t.max,
    ensures
        run_elapsed(p, ns) == (
            ReceiverPolicy {
                state: ReceiverState::Control(Timer { max: t.max, cur: (t.cur + sum(ns)) as usize }),
                ..p
            },
            0nat,
        ),
    decreases ns.len(),
{
    if ns.len() == 0 {
        assert(p == (ReceiverPolicy {
            state: ReceiverState::Control(Timer { max: t.max, cur: (t.cur + 0) as usize }),
            ..p
        }));
    } else {
        lemma_sum_nonneg(ns.drop_first());
        let t1 = Timer { max: t.max, cur: (t.cur + ns[0]) as usize };
        lemma_control_quiet_window(
            ReceiverPolicy { state: ReceiverState::Control(t1), ..p },
            t1,
            ns.drop_first(),
        );
    }
}

/// Filling the selection window chooses a talkgroup exactly once and opens
/// a fresh window: the step that reaches the timeout emits the event and
/// resets the timer, so the next window must fill from zero again.
pub proof fn lemma_control_select_boundary(p: ReceiverPolicy, t: Timer, n: int)
    requires
        p.state == ReceiverState::Control(t),
        n >= 0,
        t.cur + n >= t.max,
    ensures
        elapsed_step(p, n) == (
            ReceiverPolicy { state: ReceiverState::Control(Timer { max: t.max, cur: 0 }), ..p },
            Some(PolicyEvent::ChooseTalkgroup),
        ),
{
}

/// On a traffic channel, the watchdog stays quiet while the accumulated
/// samples are under its timeout.
pub proof fn lemma_traffic_quiet_window(p: ReceiverPolicy, t: Timer, awaiting: bool, ns: Seq<int>)
    requires
        p.state == ReceiverState::Traffic(t, awaiting),
        forall|i: int| 0 <= i < ns.len() ==> ns[i] >= 0,
        t.cur + sum(ns) < t.max,
    ensures
        run_elapsed(p, ns) == (
            ReceiverPolicy {
                state: ReceiverState::Traffic(
                    Timer { max: t.max, cur: (t.cur + sum(ns)) as usize },
                    awaiting,
                ),
                ..p
            },
            0nat,
        ),
    decreases ns.len(),
{
    if ns.len() == 0 {
        assert(p == (ReceiverPolicy {
            state: ReceiverState::Traffic(Timer { max: t.max, cur: (t.cur + 0) as usize }, awaiting),
            ..p
        }));
    } else {
        lemma_sum_nonneg(ns.drop_first());
        let t1 = Timer { max: t.max, cur: (t.cur + ns[0]) as usize };
        lemma_traffic_quiet_window(
            ReceiverPolicy { state: ReceiverState::Traffic(t1, awaiting), ..p },
            t1,
            awaiting,
            ns.drop_first(),
        );
    }
}

/// After moving to a traffic channel, letting a whole watchdog window of
/// samples elapse asks for the control channel, and nothing is asked before
/// that: the watchdog starts at zero, so the first recording that reaches
/// the timeout emits `ReturnControl` and any shorter amount emits nothing.
pub proof fn lemma_watchdog_round_trip(p: ReceiverPolicy, awaiting: bool, n: int)
    requires
        p.state == ReceiverState::Traffic(Timer { max: p.watchdog_time, cur: 0 }, awaiting),
        0 <= n <= usize::MAX,
    ensures
        n >= p.watchdog_time ==> elapsed_step(p, n).1 == Some(PolicyEvent::ReturnControl),
        n < p.watchdog_time ==> elapsed_step(p, n).1 is None,
{
}

} // verus!

