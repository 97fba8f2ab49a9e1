//! The packets that carry synchronized performer data (audio and motion
//! capture) out to clients, and the RTP data they are made from.
use vstd::prelude::*;

use webrtc::rtp::packetizer::Depacketizer;
use webrtc::util::Unmarshal;

use crate::osc::{flat_bundle, OscBundle, OscElement, OscTime};
use crate::vrm::{slime_readable, try_convert_to_vrm, vrm_bundle, BoneNaming};
use crate::wire::{be16, be32, put_slice, put_u16, put_u32, read_be16, read_be32, lemma_be16_roundtrip, lemma_be32_roundtrip};
use crate::UserIDType;

verus! {

/// The profile number that marks a VRLive RTP header extension, whose first
/// extension holds the backing track position.
pub const VRL_RTP_PACKET_HEADER_ID: u16 = 5653;

/// Seconds from the OSC epoch (1900-01-01) to the Unix epoch (1970-01-01).
pub const OSC_UNIX_OFFSET: u64 = 2_208_988_800;

/// One RTP header extension.
pub struct RtpExtension {
    pub id: u8,
    pub payload: Vec<u8>,
}

/// The parts of an RTP packet that the relay reads.
pub struct RawRtpPacket {
    /// The sampling instant of the first byte of the payload.
    pub timestamp: u32,
    /// Whether the header carries extensions.
    pub extension: bool,
    /// The profile of the header extensions.
    pub extension_profile: u16,
    pub extensions: Vec<RtpExtension>,
    pub payload: Vec<u8>,
}

/// The number that bytes `hi` and `lo` make, big-endian.
pub open spec fn be_pair(hi: u8, lo: u8) -> int {
    hi as int * 256 + lo as int
}

/// The elements of a one-byte header extension (RFC 8285) from offset `o` up
/// to the end `e` of the extension block fit in the packet `b`: each element
/// (a byte of id and length less one, then its data) ends within `b`. A zero
/// byte is padding; id 15 ends the walk.
pub open spec fn one_byte_elements_fit(b: Seq<u8>, o: int, e: int) -> bool
    decreases b.len() - o,
{
    if o >= e || o < 0 || o >= b.len() {
        true
    } else if b[o] == 0 {
        one_byte_elements_fit(b, o + 1, e)
    } else if b[o] / 16 == 15 {
        true
    } else {
        let next = o + 1 + (b[o] % 16 + 1);
        next <= b.len() && one_byte_elements_fit(b, next, e)
    }
}

/// The elements of a two-byte header extension (RFC 8285) from offset `o` up
/// to the end `e` of the extension block fit in the packet `b`: each element (a
/// byte of id, a byte of length, then its data) ends within `b`. A zero byte is padding.
pub open spec fn two_byte_elements_fit(b: Seq<u8>, o: int, e: int) -> bool
    decreases b.len() - o,
{
    if o >= e || o < 0 || o >= b.len() {
        true
    } else if b[o] == 0 {
        two_byte_elements_fit(b, o + 1, e)
    } else {
        o + 1 < b.len() && {
            let next = o + 2 + b[o + 1];
            next <= b.len() && two_byte_elements_fit(b, next, e)
        }
    }
}

/// The header extension of the RTP packet in `b`, where the header declares
/// one that lies within `b`: its profile, its first offset and its end.
pub open spec fn rtp_extension_block(b: Seq<u8>) -> Option<(int, int, int)> {
    if b.len() < 12 || (b[0] / 16) % 2 == 0 {
        None
    } else {
        let off = 12 + 4 * (b[0] % 16);
        if b.len() < off + 4 {
            None
        } else {
            let start = off + 4;
            let end = start + 4 * be_pair(b[off + 2], b[off + 3]);
            if b.len() < end {
                None
            } else {
                Some((be_pair(b[off], b[off + 1]), start, end))
            }
        }
    }
}

/// Every element of the RTP packet's one-byte or two-byte header extension
/// fits in the packet (the other headers are checked by the parser itself).
pub open spec fn rtp_extensions_fit(b: Seq<u8>) -> bool {
    match rtp_extension_block(b) {
        Some((profile, start, end)) => if profile == 0xBEDE {
            one_byte_elements_fit(b, start, end)
        } else if profile == 0x1000 {
            two_byte_elements_fit(b, start, end)
        } else {
            true
        },
        None => true,
    }
}

/// What `webrtc::rtp::packet::Packet::unmarshal` reads from `bytes`, or nothing
/// where they are not an RTP packet.
pub uninterp spec fn rtp_unmarshal(bytes: Seq<u8>) -> Option<RawRtpPacket>;

/// `webrtc::rtp::packet::Packet::unmarshal`: the RTP packet in `bytes`, if they hold one.
/// Its header parser reads the elements of one-byte and two-byte header
/// extensions without checking that they fit in the packet (and then panics),
/// so the bytes must have elements that fit.
#[verifier::external_body]
fn rtp_packet_unmarshal(bytes: &[u8]) -> (r: Option<RawRtpPacket>)
    requires
        rtp_extensions_fit(bytes@),
    ensures
        r == rtp_unmarshal(bytes@),
{
    let mut raw = bytes::Bytes::copy_from_slice(bytes);
    match webrtc::rtp::packet::Packet::unmarshal(&mut raw) {
        Ok(p) => Some(RawRtpPacket {
            timestamp: p.header.timestamp,
            extension: p.header.extension,
            extension_profile: p.header.extension_profile,
            extensions: p.header.extensions.into_iter().map(|e| RtpExtension { id: e.id, payload: e.payload.to_vec() }).collect(),
            payload: p.payload.to_vec(),
        }),
        Err(_) => None,
    }
}

/// `OpusPacket::depacketize` of `webrtc::rtp::codecs::opus`: an empty packet is
/// refused, any other is returned as it is.
#[verifier::external_body]
fn opus_depacketize(data: &[u8]) -> (r: Option<Vec<u8>>)
    ensures
        r is None <==> data@.len() == 0,
        r matches Some(v) ==> v@ == data@,
{
    let mut opus_packet = webrtc::rtp::codecs::opus::OpusPacket::default();
    match opus_packet.depacketize(&bytes::Bytes::copy_from_slice(data)) {
        Ok(b) => Some(b.to_vec()),
        Err(_) => None,
    }
}

/// Decodes an incoming Opus packet from its RTP payload.
fn decode(packet_data: &[u8]) -> (r: Result<Vec<u8>, ()>)
    ensures
        packet_data@.len() == 0 <==> r is Err,
        r matches Ok(v) ==> v@ == packet_data@,
{
    match opus_depacketize(packet_data) {
        Some(pkt) => Ok(pkt),
        None => Err(()),
    }
}

/// Handles an incoming RTP payload: the Opus data it carries, or an error for an empty payload.
pub fn handle_incoming_rtp(packet_data: &[u8]) -> (r: Result<Vec<u8>, ()>)
    ensures
        packet_data@.len() == 0 <==> r is Err,
        r matches Ok(v) ==> v@ == packet_data@,
{
    decode(packet_data)
}

/// Whether every element of the RTP packet's one-byte or two-byte header
/// extension fits in the packet.
pub fn rtp_extensions_fit_exec(b: &[u8]) -> (r: bool)
    ensures
        r == rtp_extensions_fit(b@),
{
    let n = b.len();
    if n < 12 || (b[0] / 16) % 2 == 0 {
        return true;
    }
    let off: usize = 12 + 4 * ((b[0] % 16) as usize);
    if n < off + 4 {
        return true;
    }
    let start = off + 4;
    let end = start + 4 * ((b[off + 2] as usize) * 256 + b[off + 3] as usize);
    if n < end {
        return true;
    }
    let profile: u32 = (b[off] as u32) * 256 + b[off + 1] as u32;
    assert(rtp_extension_block(b@) == Some((profile as int, start as int, end as int)));
    if profile == 0xBEDE {
        assert(rtp_extensions_fit(b@) == one_byte_elements_fit(b@, start as int, end as int));
        let mut o = start;
        while o < end
            invariant
                n == b@.len(),
                end <= n,
                rtp_extensions_fit(b@) == one_byte_elements_fit(b@, start as int, end as int),
                one_byte_elements_fit(b@, o as int, end as int) == one_byte_elements_fit(
                    b@,
                    start as int,
                    end as int,
                ),
            decreases n - o,
        {
            let x = b[o];
            if x == 0 {
                o = o + 1;
            } else if x / 16 == 15 {
                return true;
            } else {
                let len = (x % 16 + 1) as usize;
                if len > n - o - 1 {
                    return false;
                }
                o = o + 1 + len;
            }
        }
        true
    } else if profile == 0x1000 {
        assert(rtp_extensions_fit(b@) == two_byte_elements_fit(b@, start as int, end as int));
        let mut o = start;
        while o < end
            invariant
                n == b@.len(),
                end <= n,
                rtp_extensions_fit(b@) == two_byte_elements_fit(b@, start as int, end as int),
                two_byte_elements_fit(b@, o as int, end as int) == two_byte_elements_fit(
                    b@,
                    start as int,
                    end as int,
                ),
            decreases n - o,
        {
            let x = b[o];
            if x == 0 {
                o = o + 1;
            } else {
                if n - o <= 1 {
                    return false;
                }
                let len = b[o + 1] as usize;
                if len > n - o - 2 {
                    return false;
                }
                o = o + 2 + len;
            }
        }
        true
    } else {
        true
    }
}

/// The RTP packet in an audio datagram from a performer: nothing where it comes
/// from anyone but a performer or does not hold an RTP packet. A performer's
/// datagram must have header-extension elements that fit in it (see
/// `rtp_extensions_fit_exec`).
pub fn accept_performer_audio(sender: crate::UserType, bytes: &[u8]) -> (r: Option<RawRtpPacket>)
    requires
        sender == crate::UserType::Performer ==> rtp_extensions_fit(bytes@),
    ensures
        r == (if sender == crate::UserType::Performer {
            rtp_unmarshal(bytes@)
        } else {
            None
        }),
{
    if sender != crate::UserType::Performer {
        return None;
    }
    rtp_packet_unmarshal(bytes)
}

/// Metadata about the current RTP stream.
#[derive(Copy, Clone, Debug)]
pub struct RTPStreamInfo {
    /// Timestamps for RTP headers can have a random start, so this stores t=0.
    pub zero_time: u32,
    /// The clock rate of the stream, by the bit pattern of its 32-bit float.
    pub clock_rate: u32,
}

impl RTPStreamInfo {
    /// Stream metadata with zero time `unix_time_ns` and the clock rate with bit pattern `clock_rate`.
    pub fn new(unix_time_ns: u32, clock_rate: u32) -> (r: Self)
        ensures
            r.zero_time == unix_time_ns,
            r.clock_rate == clock_rate,
    {
        Self { zero_time: unix_time_ns, clock_rate }
    }
}

/// The OSC time tag for `timestamp` whole seconds since the Unix epoch: the
/// seconds since the OSC epoch, held at the largest 32-bit value where they do
/// not fit, and no fraction.
pub open spec fn spec_osc_timestamp_from_unix(timestamp: u64) -> OscTime {
    OscTime {
        seconds: if timestamp + OSC_UNIX_OFFSET > u32::MAX {
            u32::MAX
        } else {
            (timestamp + OSC_UNIX_OFFSET) as u32
        },
        fractional: 0,
    }
}

/// The OSC time tag for a Unix time in whole seconds.
pub fn osc_timestamp_from_unix(timestamp: u64) -> (r: OscTime)
    ensures
        r == spec_osc_timestamp_from_unix(timestamp),
{
    // OSC counts from 1900-01-01, Unix from 1970-01-01.
    let limit: u64 = 0xFFFF_FFFF;
    let seconds = if timestamp > limit - OSC_UNIX_OFFSET {
        0xFFFF_FFFFu32
    } else {
        (timestamp + OSC_UNIX_OFFSET) as u32
    };
    OscTime { seconds, fractional: 0 }
}

/// Wrapper for an RTP packet, ordered by its timestamp.
pub struct RTPPacket {
    /// The actual packet that we're working with
    pub packet: RawRtpPacket,
    /// Some metadata about the stream in general
    pub meta: RTPStreamInfo,
}

impl RTPPacket {
    pub fn new(packet: RawRtpPacket, meta: RTPStreamInfo) -> (r: Self)
        ensures
            r.packet == packet,
            r.meta == meta,
    {
        Self { packet, meta }
    }

    /// The audio sample rate of the stream.
    pub fn sample_rate(&self) -> (r: u32)
        ensures
            r == 48000,
    {
        48000
    }

    /// The packet's raw timestamp since the stream's zero time (wrapping, as RTP timestamps do).
    pub fn timestamp(&self) -> (r: u32)
        ensures
            r == (if self.packet.timestamp >= self.meta.zero_time {
                self.packet.timestamp - self.meta.zero_time
            } else {
                self.packet.timestamp + 0x1_0000_0000 - self.meta.zero_time
            }),
    {
        self.packet.timestamp.wrapping_sub(self.meta.zero_time)
    }

    /// The packet's timestamp read as whole seconds since the Unix epoch, as an OSC time tag.
    pub fn osc_timestamp(&self) -> (r: OscTime)
        ensures
            r == spec_osc_timestamp_from_unix(self.packet.timestamp as u64),
    {
        osc_timestamp_from_unix(self.packet.timestamp as u64)
    }

    pub fn packet(&self) -> (r: &RawRtpPacket)
        ensures
            *r == self.packet,
    {
        &self.packet
    }

    pub fn metadata(&self) -> (r: &RTPStreamInfo)
        ensures
            *r == self.meta,
    {
        &self.meta
    }
}

/// `a` comes no later than `b`: time tags are ordered by seconds, then by fraction.
pub open spec fn osc_time_le(a: OscTime, b: OscTime) -> bool {
    a.seconds < b.seconds || (a.seconds == b.seconds && a.fractional <= b.fractional)
}

/// Whether `a` comes no later than `b`.
pub fn osc_time_le_exec(a: OscTime, b: OscTime) -> (r: bool)
    ensures
        r == osc_time_le(a, b),
{
    a.seconds < b.seconds || (a.seconds == b.seconds && a.fractional <= b.fractional)
}

/// A motion-capture bundle, ordered by its time tag.
pub struct OscData {
    /// The user who is responsible for the creation of this bundle.
    pub user_id: UserIDType,
    pub bundle: OscBundle,
}

impl OscData {
    pub fn bundle(&self) -> (r: &OscBundle)
        ensures
            *r == self.bundle,
    {
        &self.bundle
    }

    pub fn set_user(&mut self, user: UserIDType)
        ensures
            final(self).user_id == user,
            final(self).bundle == old(self).bundle,
    {
        self.user_id = user;
    }

    pub fn new(bundle: OscBundle, user_id: UserIDType) -> (r: Self)
        ensures
            r.bundle == bundle,
            r.user_id == user_id,
    {
        Self { user_id, bundle }
    }
}

/// Outer wrapper for organizing data emerging from the synchronizer.
pub enum SynchronizerPacket {
    Mocap(OscData),
    /// An RTP packet
    Audio(RTPPacket),
}

/// A packet for clients: bytes already encoded, or the motion-capture bundles
/// and the audio packet to encode for a user.
pub enum VRTPPacket {
    Encoded(Vec<u8>),
    Raw(Vec<OscData>, Option<RTPPacket>, UserIDType),
}

/// The time tag of the outer bundle: the audio packet's time where there is
/// one, else the first bundle's.
pub open spec fn vrtp_first_timestamp(osc: Seq<OscData>, rtp: Option<RTPPacket>) -> Option<OscTime> {
    match rtp {
        Some(p) => Some(spec_osc_timestamp_from_unix(p.packet.timestamp as u64)),
        None => if osc.len() > 0 {
            Some(osc[0].bundle.timetag)
        } else {
            None
        },
    }
}

/// `b` is the outer bundle for bundles `osc` and audio `rtp`: under the first
/// time tag, the bundles nested in order.
pub open spec fn outer_bundle_of(b: OscBundle, osc: Seq<OscData>, rtp: Option<RTPPacket>) -> bool {
    &&& Some(b.timetag) == vrtp_first_timestamp(osc, rtp)
    &&& b.content@.len() == osc.len()
    &&& forall|i: int| 0 <= i < osc.len() ==> b.content@[i] == OscElement::Bundle(#[trigger] osc[i].bundle)
}

/// The outer bundle of a packet for clients: the motion-capture bundles in
/// order under the first time tag; nothing where there are no bundles.
pub fn vrtp_outer_bundle(osc_messages: Vec<OscData>, rtp: &Option<RTPPacket>) -> (r: Option<OscBundle>)
    ensures
        osc_messages@.len() == 0 ==> r is None,
        osc_messages@.len() > 0 ==> (r matches Some(b) && outer_bundle_of(b, osc_messages@, *rtp)),
{
    let ghost osc = osc_messages@;
    let mut first_timestamp: Option<OscTime> = match rtp {
        Some(pkt) => Some(pkt.osc_timestamp()),
        None => None,
    };
    let n = osc_messages.len();
    let mut bundle_packets: Vec<OscElement> = Vec::new();
    let mut rest = osc_messages;
    let mut i: usize = 0;
    while i < n
        invariant
            n == osc.len(),
            i <= n,
            rest@ == osc.skip(i as int),
            bundle_packets@.len() == i,
            forall|j: int| 0 <= j < i ==> bundle_packets@[j] == OscElement::Bundle(#[trigger] osc[j].bundle),
            i == 0 ==> first_timestamp == match *rtp {
                Some(p) => Some(spec_osc_timestamp_from_unix(p.packet.timestamp as u64)),
                None => None,
            },
            i > 0 ==> first_timestamp == vrtp_first_timestamp(osc, *rtp),
        decreases n - i,
    {
        let osc_data = rest.remove(0);
        assert(osc_data == osc[i as int]);
        assert(rest@ =~= osc.skip(i + 1));
        if first_timestamp.is_none() {
            first_timestamp = Some(osc_data.bundle.timetag);
        }
        bundle_packets.push(OscElement::Bundle(osc_data.bundle));
        i = i + 1;
    }
    if n == 0 {
        return None;
    }
    match first_timestamp {
        Some(t) => Some(OscBundle { timetag: t, content: bundle_packets }),
        None => None,
    }
}

/// The backing track position bytes (big-endian float) for a packet with audio `rtp`:
/// those of the extension's first four bytes, read as a little-endian float, where
/// the packet carries the VRLive extension; those of -1.0 otherwise.
pub open spec fn backing_track_position_bytes(rtp: Option<RTPPacket>) -> Seq<u8> {
    match rtp {
        Some(p) => if p.packet.extension && p.packet.extension_profile == VRL_RTP_PACKET_HEADER_ID {
            let e = p.packet.extensions@[0].payload@;
            seq![e[3], e[2], e[1], e[0]]
        } else {
            seq![0xBFu8, 0x80u8, 0u8, 0u8]
        },
        None => seq![0xBFu8, 0x80u8, 0u8, 0u8],
    }
}

/// Whether the backing track position can be read from `rtp`: a packet marked with
/// the VRLive extension profile must carry an extension of at least four bytes.
pub open spec fn backing_track_position_readable(rtp: Option<RTPPacket>) -> bool {
    match rtp {
        Some(p) => p.packet.extension && p.packet.extension_profile == VRL_RTP_PACKET_HEADER_ID
            ==> p.packet.extensions@.len() > 0 && p.packet.extensions@[0].payload@.len() >= 4,
        None => true,
    }
}

/// The audio payload of `rtp`, empty where there is none.
pub open spec fn audio_payload(rtp: Option<RTPPacket>) -> Seq<u8> {
    match rtp {
        Some(p) => p.packet.payload@,
        None => Seq::empty(),
    }
}

/// The bytes sent to clients for OSC bytes `osc` and audio `rtp` from `user_id`:
/// the total size (four bytes), the OSC size, the audio size and the user (two
/// bytes each), the backing track position (four bytes), the OSC bytes and the
/// audio payload. Sizes are truncated to their fields' widths.
pub open spec fn vrtp_frame(osc: Seq<u8>, rtp: Option<RTPPacket>, user_id: UserIDType) -> Seq<u8> {
    let audio = audio_payload(rtp);
    let pkt_size = audio.len() + osc.len() + 14;
    be32(pkt_size as u32) + be16(osc.len() as u16) + be16(audio.len() as u16) + be16(user_id)
        + backing_track_position_bytes(rtp) + osc + audio
}

/// How a client reads a frame: the header's first four bytes give the frame's
/// whole length, the next three pairs the OSC size, the audio size and the
/// sending user, then come the four bytes of the backing track position; the
/// OSC bytes start at offset 14 and run for the OSC size, and everything after
/// them is the audio payload. Sizes read back truncated to their fields' widths.
pub proof fn lemma_vrtp_frame_layout(osc: Seq<u8>, rtp: Option<RTPPacket>, user_id: UserIDType)
    ensures
        ({
            let f = vrtp_frame(osc, rtp, user_id);
            let audio = audio_payload(rtp);
            &&& f.len() == 14 + osc.len() + audio.len()
            &&& read_be32(f, 0) == (14 + osc.len() + audio.len()) as u32
            &&& read_be16(f, 4) == osc.len() as u16
            &&& read_be16(f, 6) == audio.len() as u16
            &&& read_be16(f, 8) == user_id
            &&& f.subrange(10, 14) == backing_track_position_bytes(rtp)
            &&& f.subrange(14, 14 + osc.len() as int) == osc
            &&& f.skip(14 + osc.len() as int) == audio
        }),
{
    let audio = audio_payload(rtp);
    let f = vrtp_frame(osc, rtp, user_id);
    let h0 = be32((audio.len() + osc.len() + 14) as u32);
    let h1 = be16(osc.len() as u16);
    let h2 = be16(audio.len() as u16);
    let h3 = be16(user_id);
    let pos = backing_track_position_bytes(rtp);
    let tail = pos + osc + audio;
    assert(f =~= h0 + (h1 + h2 + h3 + tail));
    lemma_be32_roundtrip((audio.len() + osc.len() + 14) as u32, Seq::empty(), h1 + h2 + h3 + tail);
    assert(Seq::<u8>::empty() + h0 + (h1 + h2 + h3 + tail) =~= f);
    assert(f =~= h0 + h1 + (h2 + h3 + tail));
    lemma_be16_roundtrip(osc.len() as u16, h0, h2 + h3 + tail);
    assert(f =~= (h0 + h1) + h2 + (h3 + tail));
    lemma_be16_roundtrip(audio.len() as u16, h0 + h1, h3 + tail);
    assert(f =~= (h0 + h1 + h2) + h3 + tail);
    lemma_be16_roundtrip(user_id, h0 + h1 + h2, tail);
    assert(f.subrange(10, 14) =~= pos);
    assert(f.subrange(14, 14 + osc.len() as int) =~= osc);
    assert(f.skip(14 + osc.len() as int) =~= audio);
}

/// Encodes a packet for clients from the encoded outer bundle `osc_bytes` (where
/// there is a bundle) and the audio packet `rtp`. With neither, the packet is empty.
pub fn encode_vrtp_frame(osc_bytes: Option<Vec<u8>>, rtp: &Option<RTPPacket>, user_id: UserIDType) -> (r: Vec<u8>)
    requires
        backing_track_position_readable(*rtp),
        osc_bytes is Some ==> osc_bytes->0@.len() + audio_payload(*rtp).len() + 14 <= usize::MAX,
        rtp is Some ==> audio_payload(*rtp).len() + 14 <= usize::MAX,
    ensures
        osc_bytes is None && rtp is None ==> r@ == Seq::<u8>::empty(),
        !(osc_bytes is None && rtp is None) ==> r@ == vrtp_frame(
            match osc_bytes {
                Some(b) => b@,
                None => Seq::empty(),
            },
            *rtp,
            user_id,
        ),
        osc_bytes is Some ==> r@.subrange(14, 14 + osc_bytes->0@.len() as int) == osc_bytes->0@ && r@.skip(
            14 + osc_bytes->0@.len() as int,
        ) == audio_payload(*rtp),
        osc_bytes is None && rtp is Some ==> r@.skip(14) == audio_payload(*rtp),
{
    proof {
        let o = if osc_bytes is Some {
            osc_bytes->0@
        } else {
            Seq::empty()
        };
        lemma_vrtp_frame_layout(o, *rtp, user_id);
    }
    if osc_bytes.is_none() && rtp.is_none() {
        return Vec::new();
    }
    let osc = match osc_bytes {
        Some(b) => b,
        None => Vec::new(),
    };
    let audio_size: usize = match rtp {
        Some(pkt) => pkt.packet.payload.len(),
        None => 0,
    };
    let pkt_size = audio_size + osc.len() + 14;
    let mut bytes_out = Vec::new();
    put_u32(&mut bytes_out, #[verifier::truncate] (pkt_size as u32));
    put_u16(&mut bytes_out, #[verifier::truncate] (osc.len() as u16));
    put_u16(&mut bytes_out, #[verifier::truncate] (audio_size as u16));
    put_u16(&mut bytes_out, user_id);
    match rtp {
        Some(pkt) => {
            if pkt.packet.extension && pkt.packet.extension_profile == VRL_RTP_PACKET_HEADER_ID {
                let e = &pkt.packet.extensions[0].payload;
                bytes_out.push(e[3]);
                bytes_out.push(e[2]);
                bytes_out.push(e[1]);
                bytes_out.push(e[0]);
            } else {
                bytes_out.push(0xBF);
                bytes_out.push(0x80);
                bytes_out.push(0);
                bytes_out.push(0);
            }
        },
        None => {
            bytes_out.push(0xBF);
            bytes_out.push(0x80);
            bytes_out.push(0);
            bytes_out.push(0);
        },
    }
    put_slice(&mut bytes_out, osc.as_slice());
    match rtp {
        Some(pkt) => put_slice(&mut bytes_out, pkt.packet.payload.as_slice()),
        None => {},
    }
    assert(bytes_out@ =~= vrtp_frame(osc@, *rtp, user_id));
    bytes_out
}

/// The outer bundle as it is sent: converted to VMC bone messages where every
/// message in it is a SlimeVR tracker message, otherwise as it is.
pub open spec fn vrm_or_same<Q: Fn(u32, u32, u32) -> (u32, u32, u32, u32)>(
    c: OscBundle,
    b: OscBundle,
    to_quaternion: Q,
) -> bool {
    if slime_readable(flat_bundle(b), BoneNaming::Base) {
        vrm_bundle(c, b, BoneNaming::Base, to_quaternion)
    } else {
        c == b
    }
}

/// The bytes sent to clients for a packet: an encoded packet as it is; for
/// bundles and audio, the frame of `encode_vrtp_frame` around the encoded outer
/// bundle (converted to VMC bone messages where it holds SlimeVR trackers), or
/// nothing where there is neither. `encode_bundle` encodes a bundle as OSC
/// bytes (its arguments hold floats, which the caller encodes), and
/// `to_quaternion` turns Euler angles in degrees into a quaternion.
pub fn vrtp_packet_bytes<Q, F>(value: VRTPPacket, to_quaternion: Q, encode_bundle: F) -> (r: Vec<u8>) where
    Q: Fn(u32, u32, u32) -> (u32, u32, u32, u32),
    F: Fn(OscBundle) -> Vec<u8>,

    requires
        forall|x: u32, y: u32, z: u32| call_requires(to_quaternion, (x, y, z)),
        forall|c: OscBundle| call_requires(encode_bundle, (c,)),
        value matches VRTPPacket::Raw(_, rtp, _) ==> {
            &&& backing_track_position_readable(rtp)
            &&& audio_payload(rtp).len() + 14 <= usize::MAX
            &&& forall|c: OscBundle, out: Vec<u8>|
                call_ensures(encode_bundle, (c,), out) ==> out@.len() + audio_payload(rtp).len()
                    + 14 <= usize::MAX
        },
    ensures
        match value {
            VRTPPacket::Encoded(b) => r@ == b@,
            VRTPPacket::Raw(osc, rtp, uid) => if osc@.len() == 0 && rtp is None {
                r@ == Seq::<u8>::empty()
            } else if osc@.len() == 0 {
                r@ == vrtp_frame(Seq::empty(), rtp, uid)
            } else {
                exists|o: OscBundle, c: OscBundle, out: Vec<u8>|
                    #![trigger outer_bundle_of(o, osc@, rtp), vrm_or_same(c, o, to_quaternion), call_ensures(encode_bundle, (c,), out)]
                    {
                        &&& outer_bundle_of(o, osc@, rtp)
                        &&& vrm_or_same(c, o, to_quaternion)
                        &&& call_ensures(encode_bundle, (c,), out)
                        &&& r@ == vrtp_frame(out@, rtp, uid)
                    }
            },
        },
{
    match value {
        VRTPPacket::Encoded(b) => b,
        VRTPPacket::Raw(osc_messages, rtp, user_id) => {
            let ghost osc = osc_messages@;
            let outer = vrtp_outer_bundle(osc_messages, &rtp);
            let osc_bytes = match outer {
                None => None,
                Some(b) => {
                    let ghost gb = b;
                    let converted = match try_convert_to_vrm(&b, BoneNaming::Base, to_quaternion) {
                        Some(c) => c,
                        None => b,
                    };
                    let ghost gc = converted;
                    assert(vrm_or_same(gc, gb, to_quaternion));
                    let out = encode_bundle(converted);
                    assert(outer_bundle_of(gb, osc, rtp) && vrm_or_same(gc, gb, to_quaternion)
                        && call_ensures(encode_bundle, (gc,), out));
                    Some(out)
                },
            };
            encode_vrtp_frame(osc_bytes, &rtp, user_id)
        },
    }
}

} // verus!
