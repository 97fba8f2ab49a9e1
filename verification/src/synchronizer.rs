//! The synchronizer: the component that combines a performer's audio and
//! motion capture into the packets sent out to clients. It is a state machine:
//! each event (an audio packet, a motion-capture bundle, a timeout, a closed
//! input) moves it to its next state and says what to do.
use vstd::prelude::*;
use vstd::multiset::*;
use vstd::seq_lib::*;

use crate::osc::OscBundle;
use crate::vrl_packet::{osc_time_le, osc_time_le_exec, OscData, RawRtpPacket, RTPPacket, RTPStreamInfo, VRTPPacket};

verus! {

broadcast use {group_to_multiset_ensures, group_multiset_axioms};

/// Maximum heap size before we start purging it to save memory.
pub const MAX_HEAP_SIZE: usize = 200;

/// If mocap pressure gets this high, we will send packets anyway.
pub const MOCAP_SEND_AFTER_PRESSURE_REACHES: usize = 5;

/// If this is false, we will try to send out mocap as soon as it comes in, rather than waiting
/// for an audio packet to send it with.
pub const WAIT_FOR_AUDIO_TO_SEND: bool = true;

/// What happened on the synchronizer's inputs.
pub enum SynchronizerEvent {
    /// No audio arrived in time.
    AudioTimedOut,
    /// The audio input was closed.
    AudioClosed,
    /// An audio packet arrived.
    Audio(RawRtpPacket),
    /// The motion-capture input was closed.
    MocapClosed,
    /// A motion-capture bundle arrived.
    Mocap(OscBundle),
}

/// What the synchronizer's runner is to do after an event.
pub enum SynchronizerAction {
    /// Shut down.
    Stop,
    /// Wait for the next event.
    Wait,
    /// Send this packet out, then wait for the next event (shut down if it cannot be sent).
    Send(VRTPPacket),
}

/// The state of a synchronizer.
pub struct SynchronizerView {
    /// Held audio packets, earliest timestamp first.
    pub audio: Seq<RTPPacket>,
    /// Held motion-capture bundles, earliest time tag first.
    pub mocap: Seq<OscData>,
    /// The stream's metadata, taken from its first audio packet.
    pub stream_info: Option<RTPStreamInfo>,
    /// The time at which the synchronizer was started.
    pub zero_time: u32,
    /// The user whose data the synchronizer sends out.
    pub user_id: u16,
}

/// The synchronizer's heaps: audio and motion capture, each kept in time order.
pub struct Synchronizer {
    audio_heap: Vec<RTPPacket>,
    mocap_heap: Vec<OscData>,
    stream_info: Option<RTPStreamInfo>,
    zero_time: u32,
    user_id: u16,
}

/// The audio packets are in timestamp order.
pub open spec fn audio_sorted(s: Seq<RTPPacket>) -> bool {
    forall|i: int, j: int|
        0 <= i <= j < s.len() ==> s[i].packet.timestamp <= s[j].packet.timestamp
}

/// The motion-capture bundles are in time-tag order.
pub open spec fn mocap_sorted(s: Seq<OscData>) -> bool {
    forall|i: int, j: int|
        0 <= i <= j < s.len() ==> osc_time_le(s[i].bundle.timetag, s[j].bundle.timetag)
}

/// `p` has the least timestamp in `held`.
pub open spec fn earliest_audio(p: RTPPacket, held: Multiset<RTPPacket>) -> bool {
    &&& held.contains(p)
    &&& forall|q: RTPPacket| held.contains(q) ==> p.packet.timestamp <= q.packet.timestamp
}

/// A packet sending every held bundle, in time order, with the earliest held audio packet.
pub open spec fn sends_held(
    action: SynchronizerAction,
    next: SynchronizerView,
    user_id: u16,
    audio: Multiset<RTPPacket>,
    mocap: Multiset<OscData>,
) -> bool {
    &&& action matches SynchronizerAction::Send(VRTPPacket::Raw(parts, a, uid))
    &&& action matches SynchronizerAction::Send(VRTPPacket::Raw(parts, a, uid)) ==> {
        &&& uid == user_id
        &&& parts@.to_multiset() == mocap
        &&& mocap_sorted(parts@)
        &&& next.mocap.len() == 0
        &&& audio.len() == 0 ==> a is None && next.audio.len() == 0
        &&& audio.len() > 0 ==> (a matches Some(p) && earliest_audio(p, audio)
            && next.audio.to_multiset() == audio.remove(p))
    }
}

/// The held items after the heaps are purged: everything, unless there are more than the
/// maximum, in which case nothing.
pub open spec fn purged<A>(held: Multiset<A>) -> Multiset<A> {
    if held.len() > MAX_HEAP_SIZE {
        Multiset::empty()
    } else {
        held
    }
}

impl Synchronizer {
    /// The state of this synchronizer.
    pub closed spec fn spec_state(&self) -> SynchronizerView {
        SynchronizerView {
            audio: self.audio_heap@,
            mocap: self.mocap_heap@,
            stream_info: self.stream_info,
            zero_time: self.zero_time,
            user_id: self.user_id,
        }
    }
}

impl View for Synchronizer {
    type V = SynchronizerView;

    open spec fn view(&self) -> SynchronizerView {
        self.spec_state()
    }
}

/// A reachable synchronizer state: no audio held (each audio packet is sent
/// in the step it arrives), heaps in time order and within the maximum size,
/// every bundle from the synchronizer's user, and every audio packet carrying
/// the stream's metadata.
pub open spec fn synchronizer_wf(s: SynchronizerView) -> bool {
    &&& s.audio.len() == 0
    &&& audio_sorted(s.audio)
    &&& mocap_sorted(s.mocap)
    &&& s.audio.len() <= MAX_HEAP_SIZE
    &&& s.mocap.len() <= MAX_HEAP_SIZE
    &&& forall|i: int| 0 <= i < s.mocap.len() ==> (#[trigger] s.mocap[i]).user_id == s.user_id
    &&& forall|i: int|
        0 <= i < s.audio.len() ==> s.stream_info == Some((#[trigger] s.audio[i]).meta)
}

/// The first position in `s` whose timestamp is later than `ts`.
fn audio_insert_position(s: &Vec<RTPPacket>, ts: u32) -> (k: usize)
    requires
        audio_sorted(s@),
    ensures
        k <= s@.len(),
        forall|i: int| 0 <= i < k ==> s@[i].packet.timestamp <= ts,
        forall|i: int| k <= i < s@.len() ==> s@[i].packet.timestamp > ts,
{
    let mut k: usize = 0;
    while k < s.len()
        invariant
            audio_sorted(s@),
            k <= s@.len(),
            forall|i: int| 0 <= i < k ==> s@[i].packet.timestamp <= ts,
        decreases s@.len() - k,
    {
        if s[k].packet.timestamp > ts {
            return k;
        }
        k = k + 1;
    }
    k
}

/// The first position in `s` whose time tag is later than `t`.
fn mocap_insert_position(s: &Vec<OscData>, t: crate::osc::OscTime) -> (k: usize)
    requires
        mocap_sorted(s@),
    ensures
        k <= s@.len(),
        forall|i: int| 0 <= i < k ==> osc_time_le(s@[i].bundle.timetag, t),
        forall|i: int| k <= i < s@.len() ==> !osc_time_le(s@[i].bundle.timetag, t),
{
    let mut k: usize = 0;
    while k < s.len()
        invariant
            mocap_sorted(s@),
            k <= s@.len(),
            forall|i: int| 0 <= i < k ==> osc_time_le(s@[i].bundle.timetag, t),
        decreases s@.len() - k,
    {
        if !osc_time_le_exec(s[k].bundle.timetag, t) {
            assert forall|i: int| k <= i < s@.len() implies !osc_time_le(s@[i].bundle.timetag, t) by {
                assert(osc_time_le(s@[k as int].bundle.timetag, s@[i].bundle.timetag));
            }
            return k;
        }
        k = k + 1;
    }
    k
}

/// The stream metadata after audio packet `p` arrives in state `s`: the
/// existing metadata, or metadata whose zero time is `p`'s timestamp.
pub open spec fn stream_info_after(s: SynchronizerView, p: RawRtpPacket, clock_rate: u32) -> RTPStreamInfo {
    match s.stream_info {
        Some(m) => m,
        None => RTPStreamInfo { zero_time: p.timestamp, clock_rate },
    }
}

/// The state is unchanged.
pub open spec fn unchanged(s: SynchronizerView, t: SynchronizerView) -> bool {
    &&& t.audio == s.audio
    &&& t.mocap == s.mocap
    &&& t.stream_info == s.stream_info
    &&& t.zero_time == s.zero_time
    &&& t.user_id == s.user_id
}

/// What an event does to a synchronizer in state `s`, giving `action` and state `t`.
pub open spec fn step_spec(
    s: SynchronizerView,
    event: SynchronizerEvent,
    clock_rate: u32,
    action: SynchronizerAction,
    t: SynchronizerView,
) -> bool {
    &&& t.zero_time == s.zero_time
    &&& t.user_id == s.user_id
    &&& match event {
        SynchronizerEvent::AudioClosed | SynchronizerEvent::MocapClosed => action is Stop
            && unchanged(s, t),
        SynchronizerEvent::AudioTimedOut => if s.mocap.len() > 0 {
            &&& t.stream_info == s.stream_info
            &&& sends_held(action, t, s.user_id, s.audio.to_multiset(), s.mocap.to_multiset())
        } else {
            action is Wait && unchanged(s, t)
        },
        SynchronizerEvent::Audio(p) => {
            let info = stream_info_after(s, p, clock_rate);
            &&& t.stream_info == Some(info)
            &&& sends_held(
                action,
                t,
                s.user_id,
                s.audio.to_multiset().insert(RTPPacket { packet: p, meta: info }),
                s.mocap.to_multiset(),
            )
        },
        SynchronizerEvent::Mocap(b) => {
            let held = s.mocap.to_multiset().insert(OscData { user_id: s.user_id, bundle: b });
            &&& t.stream_info == s.stream_info
            &&& if !WAIT_FOR_AUDIO_TO_SEND || s.mocap.len() + 1 >= MOCAP_SEND_AFTER_PRESSURE_REACHES {
                sends_held(action, t, s.user_id, s.audio.to_multiset(), held)
            } else {
                &&& action is Wait
                &&& t.audio == s.audio
                &&& t.mocap.to_multiset() == purged(held)
            }
        },
    }
}

/// An audio packet goes out in the step it arrives in, with every held bundle
/// in time order: the stream's metadata carries the zero time of the first
/// audio packet (this one, where none came before) and the given clock rate.
pub proof fn lemma_audio_sent_at_once(
    s: SynchronizerView,
    p: RawRtpPacket,
    clock_rate: u32,
    action: SynchronizerAction,
    t: SynchronizerView,
)
    requires
        synchronizer_wf(s),
        step_spec(s, SynchronizerEvent::Audio(p), clock_rate, action, t),
    ensures
        action matches SynchronizerAction::Send(VRTPPacket::Raw(parts, Some(a), uid)) && {
            &&& a.packet == p
            &&& a.meta == (match s.stream_info {
                Some(m) => m,
                None => RTPStreamInfo { zero_time: p.timestamp, clock_rate },
            })
            &&& uid == s.user_id
            &&& parts@.to_multiset() == s.mocap.to_multiset()
            &&& mocap_sorted(parts@)
        },
        t.audio.len() == 0,
        t.mocap.len() == 0,
{
    broadcast use vstd::seq_lib::to_multiset_len;

    assert(s.audio.to_multiset() =~= Multiset::empty());
    let q = RTPPacket { packet: p, meta: stream_info_after(s, p, clock_rate) };
    let held = s.audio.to_multiset().insert(q);
    if let SynchronizerAction::Send(VRTPPacket::Raw(_, Some(a), _)) = action {
        assert(held.contains(a));
        assert(a == q);
        assert(held.remove(a) =~= Multiset::empty());
    }
}

/// When no audio arrives in time, every held bundle goes out in time order,
/// without audio, and nothing stays held.
pub proof fn lemma_timeout_sends_mocap(
    s: SynchronizerView,
    clock_rate: u32,
    action: SynchronizerAction,
    t: SynchronizerView,
)
    requires
        synchronizer_wf(s),
        s.mocap.len() > 0,
        step_spec(s, SynchronizerEvent::AudioTimedOut, clock_rate, action, t),
    ensures
        action matches SynchronizerAction::Send(VRTPPacket::Raw(parts, a, uid)) && {
            &&& a is None
            &&& uid == s.user_id
            &&& parts@.to_multiset() == s.mocap.to_multiset()
            &&& mocap_sorted(parts@)
        },
        t.audio.len() == 0,
        t.mocap.len() == 0,
{
    broadcast use vstd::seq_lib::to_multiset_len;

    assert(s.audio.to_multiset() =~= Multiset::empty());
}

/// Bundles wait for audio only while fewer than five are held: from a state
/// holding fewer than five, every event leaves fewer than five held.
pub proof fn lemma_mocap_below_pressure(
    s: SynchronizerView,
    event: SynchronizerEvent,
    clock_rate: u32,
    action: SynchronizerAction,
    t: SynchronizerView,
)
    requires
        s.mocap.len() < MOCAP_SEND_AFTER_PRESSURE_REACHES,
        step_spec(s, event, clock_rate, action, t),
    ensures
        t.mocap.len() < MOCAP_SEND_AFTER_PRESSURE_REACHES,
{
    broadcast use vstd::seq_lib::to_multiset_len;

    match event {
        SynchronizerEvent::Mocap(b) => {
            let held = s.mocap.to_multiset().insert(OscData { user_id: s.user_id, bundle: b });
            assert(held.len() == s.mocap.len() + 1);
            assert(t.mocap.to_multiset().len() == t.mocap.len());
        },
        _ => {},
    }
}

impl Synchronizer {
    /// Takes one event: holds what arrived, and says whether to send a packet
    /// (every held bundle in time order, with the earliest held audio packet),
    /// wait, or stop. An audio packet is always sent on; bundles wait for audio
    /// until five are held, and are then sent anyway. Heaps over the maximum size are emptied.
    pub fn step(&mut self, event: SynchronizerEvent, audio_clock_rate: u32) -> (action: SynchronizerAction)
        requires
            synchronizer_wf(old(self)@),
        ensures
            synchronizer_wf(final(self)@),
            step_spec(old(self)@, event, audio_clock_rate, action, final(self)@),
            event matches SynchronizerEvent::Audio(p) ==> (action matches SynchronizerAction::Send(
                VRTPPacket::Raw(parts, Some(a), uid),
            ) && {
                &&& a.packet == p
                &&& a.meta == stream_info_after(old(self)@, p, audio_clock_rate)
                &&& uid == old(self)@.user_id
                &&& parts@.to_multiset() == old(self)@.mocap.to_multiset()
                &&& mocap_sorted(parts@)
            }),
            event is AudioTimedOut && old(self)@.mocap.len() > 0 ==> (action matches SynchronizerAction::Send(
                VRTPPacket::Raw(parts, None, uid),
            ) && {
                &&& uid == old(self)@.user_id
                &&& parts@.to_multiset() == old(self)@.mocap.to_multiset()
                &&& mocap_sorted(parts@)
            }),
    {
        let ghost s = self@;
        let ghost ev = event;
        let mut try_to_send = false;
        match event {
            SynchronizerEvent::AudioTimedOut => {
                if self.mocap_heap.len() > 0 {
                    // no audio in time, but mocap pressure exists: send the mocap anyway
                    try_to_send = true;
                }
            },
            SynchronizerEvent::AudioClosed => {
                return SynchronizerAction::Stop;
            },
            SynchronizerEvent::Audio(d) => {
                // if we don't have any info on the stream, grab info from this packet
                let working_meta = match self.stream_info {
                    Some(m) => m,
                    None => {
                        let new_base = RTPStreamInfo::new(d.timestamp, audio_clock_rate);
                        self.stream_info = Some(new_base);
                        new_base
                    },
                };
                let rtp = RTPPacket::new(d, working_meta);
                assert(s.audio.len() > 0 ==> s.stream_info == Some(s.audio[0].meta));
                self.hold_audio(rtp);
                proof {
                    assert forall|i: int| 0 <= i < self.audio_heap@.len() implies self.stream_info
                        == Some((#[trigger] self.audio_heap@[i]).meta) by {
                        if self.audio_heap@[i] != rtp {
                            assert(s.audio.contains(self.audio_heap@[i]));
                            let j = choose|j: int| 0 <= j < s.audio.len() && s.audio[j] == self.audio_heap@[i];
                            assert(s.stream_info == Some(s.audio[j].meta));
                        }
                    }
                }
                try_to_send = true;
            },
            SynchronizerEvent::MocapClosed => {
                return SynchronizerAction::Stop;
            },
            SynchronizerEvent::Mocap(d) => {
                let osc_pkt = OscData::new(d, self.user_id);
                self.hold_mocap(osc_pkt);
                proof {
                    assert forall|i: int| 0 <= i < self.mocap_heap@.len() implies (
                    #[trigger] self.mocap_heap@[i]).user_id == self.user_id by {
                        if self.mocap_heap@[i] != osc_pkt {
                            assert(s.mocap.contains(self.mocap_heap@[i]));
                            let j = choose|j: int| 0 <= j < s.mocap.len() && s.mocap[j] == self.mocap_heap@[i];
                            assert(s.mocap[j].user_id == s.user_id);
                        }
                    }
                }
                if !WAIT_FOR_AUDIO_TO_SEND || self.mocap_heap.len() >= MOCAP_SEND_AFTER_PRESSURE_REACHES {
                    try_to_send = true;
                }
            },
        }
        let ghost before_take = self.audio_heap@;
        let ghost info = self.stream_info;
        assert(forall|i: int| 0 <= i < before_take.len() ==> info == Some((#[trigger] before_take[i]).meta));
        let action = if try_to_send {
            SynchronizerAction::Send(self.take_packet())
        } else {
            SynchronizerAction::Wait
        };
        proof {
            assert forall|i: int| 0 <= i < self.audio_heap@.len() implies info == Some(
                (#[trigger] self.audio_heap@[i]).meta,
            ) by {
                if try_to_send {
                    assert(before_take.contains(self.audio_heap@[i]));
                    let j = choose|j: int| 0 <= j < before_take.len() && before_take[j] == self.audio_heap@[i];
                    assert(info == Some(before_take[j].meta));
                }
            }
        }
        self.purge();
        proof {
            assert(step_spec(s, ev, audio_clock_rate, action, self@));
            match ev {
                SynchronizerEvent::Audio(p) => {
                    lemma_audio_sent_at_once(s, p, audio_clock_rate, action, self@);
                },
                SynchronizerEvent::AudioTimedOut => {
                    if s.mocap.len() > 0 {
                        lemma_timeout_sends_mocap(s, audio_clock_rate, action, self@);
                    }
                },
                _ => {},
            }
        }
        action
    }

    /// A synchronizer for the data of `user_id`, holding nothing.
    pub fn new(user_id: u16) -> (r: Self)
        ensures
            r@.audio.len() == 0,
            r@.mocap.len() == 0,
            r@.stream_info is None,
            r@.zero_time == 0,
            r@.user_id == user_id,
            synchronizer_wf(r@),
    {
        Self {
            audio_heap: Vec::new(),
            mocap_heap: Vec::new(),
            stream_info: None,
            zero_time: 0,
            user_id,
        }
    }

    /// The number of held audio packets.
    pub fn audio_pressure(&self) -> (r: usize)
        ensures
            r == self@.audio.len(),
    {
        self.audio_heap.len()
    }

    /// The number of held motion-capture bundles.
    pub fn mocap_pressure(&self) -> (r: usize)
        ensures
            r == self@.mocap.len(),
    {
        self.mocap_heap.len()
    }

    /// Holds an audio packet in timestamp order.
    fn hold_audio(&mut self, p: RTPPacket)
        requires
            audio_sorted(old(self).audio_heap@),
        ensures
            audio_sorted(final(self).audio_heap@),
            final(self).audio_heap@.to_multiset() == old(self).audio_heap@.to_multiset().insert(p),
            final(self).audio_heap@.len() == old(self).audio_heap@.len() + 1,
            final(self).mocap_heap == old(self).mocap_heap,
            final(self).stream_info == old(self).stream_info,
            final(self).zero_time == old(self).zero_time,
            final(self).user_id == old(self).user_id,
            forall|i: int|
                0 <= i < final(self).audio_heap@.len() ==> #[trigger] final(self).audio_heap@[i]
                    == p || old(self).audio_heap@.contains(final(self).audio_heap@[i]),
    {
        let ghost old_s = self.audio_heap@;
        let k = audio_insert_position(&self.audio_heap, p.packet.timestamp);
        let ghost pv = p;
        self.audio_heap.insert(k, p);
        proof {
            assert(self.audio_heap@ == old_s.insert(k as int, pv));
            assert forall|i: int, j: int| 0 <= i <= j < self.audio_heap@.len() implies
                self.audio_heap@[i].packet.timestamp <= self.audio_heap@[j].packet.timestamp by {}
            assert forall|i: int| 0 <= i < self.audio_heap@.len() implies #[trigger] self.audio_heap@[i]
                == pv || old_s.contains(self.audio_heap@[i]) by {
                if i < k {
                    assert(old_s[i] == self.audio_heap@[i]);
                } else if i > k {
                    assert(old_s[i - 1] == self.audio_heap@[i]);
                }
            }
        }
    }

    /// Holds a motion-capture bundle in time-tag order.
    fn hold_mocap(&mut self, d: OscData)
        requires
            mocap_sorted(old(self).mocap_heap@),
        ensures
            mocap_sorted(final(self).mocap_heap@),
            final(self).mocap_heap@.to_multiset() == old(self).mocap_heap@.to_multiset().insert(d),
            final(self).mocap_heap@.len() == old(self).mocap_heap@.len() + 1,
            final(self).audio_heap == old(self).audio_heap,
            final(self).stream_info == old(self).stream_info,
            final(self).zero_time == old(self).zero_time,
            final(self).user_id == old(self).user_id,
            forall|i: int|
                0 <= i < final(self).mocap_heap@.len() ==> #[trigger] final(self).mocap_heap@[i]
                    == d || old(self).mocap_heap@.contains(final(self).mocap_heap@[i]),
    {
        let ghost old_s = self.mocap_heap@;
        let k = mocap_insert_position(&self.mocap_heap, d.bundle.timetag);
        let ghost dv = d;
        self.mocap_heap.insert(k, d);
        proof {
            assert(self.mocap_heap@ == old_s.insert(k as int, dv));
            assert forall|i: int, j: int| 0 <= i <= j < self.mocap_heap@.len() implies osc_time_le(
                self.mocap_heap@[i].bundle.timetag,
                self.mocap_heap@[j].bundle.timetag,
            ) by {}
            assert forall|i: int| 0 <= i < self.mocap_heap@.len() implies #[trigger] self.mocap_heap@[i]
                == dv || old_s.contains(self.mocap_heap@[i]) by {
                if i < k {
                    assert(old_s[i] == self.mocap_heap@[i]);
                } else if i > k {
                    assert(old_s[i - 1] == self.mocap_heap@[i]);
                }
            }
        }
    }

    /// Takes the earliest audio packet, if any, and every held bundle, in time order.
    fn take_packet(&mut self) -> (r: VRTPPacket)
        requires
            audio_sorted(old(self).audio_heap@),
            mocap_sorted(old(self).mocap_heap@),
        ensures
            audio_sorted(final(self).audio_heap@),
            final(self).mocap_heap@.len() == 0,
            final(self).stream_info == old(self).stream_info,
            final(self).zero_time == old(self).zero_time,
            final(self).user_id == old(self).user_id,
            sends_held(
                SynchronizerAction::Send(r),
                final(self)@,
                old(self).user_id,
                old(self).audio_heap@.to_multiset(),
                old(self).mocap_heap@.to_multiset(),
            ),
            forall|i: int|
                0 <= i < final(self).audio_heap@.len() ==> old(self).audio_heap@.contains(
                    #[trigger] final(self).audio_heap@[i],
                ),
            final(self).audio_heap@.len() <= old(self).audio_heap@.len(),
            old(self).audio_heap@.len() > 0 ==> final(self).audio_heap@.len() == old(
                self,
            ).audio_heap@.len() - 1,
    {
        let ghost old_audio = self.audio_heap@;
        let audio_packet = if self.audio_heap.len() > 0 {
            let p = self.audio_heap.remove(0);
            proof {
                assert(self.audio_heap@ == old_audio.remove(0));
                assert forall|q: RTPPacket| old_audio.to_multiset().contains(q) implies p.packet.timestamp
                    <= q.packet.timestamp by {
                    let j = choose|j: int| 0 <= j < old_audio.len() && old_audio[j] == q;
                    assert(old_audio[0].packet.timestamp <= old_audio[j].packet.timestamp);
                }
                assert(old_audio.to_multiset().contains(old_audio[0]));
                assert forall|i: int, j: int| 0 <= i <= j < self.audio_heap@.len() implies
                    self.audio_heap@[i].packet.timestamp <= self.audio_heap@[j].packet.timestamp by {
                    assert(self.audio_heap@[i] == old_audio[i + 1]);
                    assert(self.audio_heap@[j] == old_audio[j + 1]);
                }
                assert forall|i: int| 0 <= i < self.audio_heap@.len() implies old_audio.contains(
                    #[trigger] self.audio_heap@[i],
                ) by {
                    assert(self.audio_heap@[i] == old_audio[i + 1]);
                }
            }
            Some(p)
        } else {
            proof {
                assert(old_audio.to_multiset().len() == 0);
            }
            None
        };
        let mut mocap_parts = Vec::new();
        std::mem::swap(&mut mocap_parts, &mut self.mocap_heap);
        VRTPPacket::Raw(mocap_parts, audio_packet, self.user_id)
    }

    /// Empties each heap that holds more than the maximum.
    fn purge(&mut self)
        requires
            audio_sorted(old(self).audio_heap@),
            mocap_sorted(old(self).mocap_heap@),
        ensures
            audio_sorted(final(self).audio_heap@),
            mocap_sorted(final(self).mocap_heap@),
            final(self).audio_heap@.to_multiset() == purged(old(self).audio_heap@.to_multiset()),
            final(self).mocap_heap@.to_multiset() == purged(old(self).mocap_heap@.to_multiset()),
            final(self).audio_heap@.len() <= MAX_HEAP_SIZE,
            final(self).mocap_heap@.len() <= MAX_HEAP_SIZE,
            old(self).audio_heap@.len() <= MAX_HEAP_SIZE ==> final(self).audio_heap
                == old(self).audio_heap,
            old(self).mocap_heap@.len() <= MAX_HEAP_SIZE ==> final(self).mocap_heap
                == old(self).mocap_heap,
            old(self).mocap_heap@.len() > MAX_HEAP_SIZE ==> final(self).mocap_heap@.len() == 0,
            old(self).audio_heap@.len() > MAX_HEAP_SIZE ==> final(self).audio_heap@.len() == 0,
            final(self).stream_info == old(self).stream_info,
            final(self).zero_time == old(self).zero_time,
            final(self).user_id == old(self).user_id,
    {
        if self.audio_heap.len() > MAX_HEAP_SIZE {
            self.audio_heap.clear();
            assert(self.audio_heap@.to_multiset() =~= Multiset::empty());
        }
        if self.mocap_heap.len() > MAX_HEAP_SIZE {
            self.mocap_heap.clear();
            assert(self.mocap_heap@.to_multiset() =~= Multiset::empty());
        }
    }
}

} // verus!
