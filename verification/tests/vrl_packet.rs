use vrlive_server::osc::{OscArg, OscBundle, OscElement, OscMessage, OscTime};
use vrlive_server::vrl_packet::{
    accept_performer_audio, rtp_extensions_fit_exec, vrtp_packet_bytes, VRTPPacket, encode_vrtp_frame, handle_incoming_rtp, osc_time_le_exec, osc_timestamp_from_unix,
    vrtp_outer_bundle, OscData, RTPPacket, RTPStreamInfo, RawRtpPacket, RtpExtension, VRL_RTP_PACKET_HEADER_ID,
};
use vrlive_server::vrl_tcp_packet::VRLTCPPacket;
use vrlive_server::UserType;

use webrtc::util::Marshal;

fn bundle_at(seconds: u32) -> OscBundle {
    OscBundle {
        timetag: OscTime { seconds, fractional: 0 },
        content: vec![OscElement::Message(OscMessage { addr: "/m".to_owned(), args: vec![] })],
    }
}

fn raw_rtp(timestamp: u32, payload: Vec<u8>) -> RawRtpPacket {
    RawRtpPacket { timestamp, extension: false, extension_profile: 0, extensions: vec![], payload }
}

#[test]
fn try_decode_packet() {
    // todo
}

#[test]
fn tcp_packet_bytes_layout() {
    let p = VRLTCPPacket::new("AB", vec![1], vec![2, 3]);
    assert_eq!(p.to_bytes(), vec![2, b'A', b'B', 0, 1, 0, 0, 0, 2, 1, 2, 3]);
}

#[test]
fn tcp_packet_roundtrip() {
    let bytes = VRLTCPPacket::new("NEWTRACK", vec![0, 3, b'a', b'b', b'c'], vec![7, 8, 9]).to_bytes();
    assert!(VRLTCPPacket::is_well_formed(&bytes));
    let back = VRLTCPPacket::from_bytes(&bytes);
    assert_eq!(back.to_bytes(), bytes);
}

#[test]
fn tcp_packet_too_short_is_not_well_formed() {
    assert!(!VRLTCPPacket::is_well_formed(&[]));
    assert!(!VRLTCPPacket::is_well_formed(&[5, b'a']));
}

#[test]
fn osc_timestamps_count_from_1900() {
    assert_eq!(osc_timestamp_from_unix(0), OscTime { seconds: 2_208_988_800, fractional: 0 });
    assert_eq!(osc_timestamp_from_unix(10), OscTime { seconds: 2_208_988_810, fractional: 0 });
    // beyond what 32 bits hold, the seconds stay at the largest value
    assert_eq!(osc_timestamp_from_unix(u64::MAX), OscTime { seconds: u32::MAX, fractional: 0 });
}

#[test]
fn osc_time_order() {
    let a = OscTime { seconds: 1, fractional: 5 };
    let b = OscTime { seconds: 1, fractional: 6 };
    let c = OscTime { seconds: 2, fractional: 0 };
    assert!(osc_time_le_exec(a, b));
    assert!(!osc_time_le_exec(b, a));
    assert!(osc_time_le_exec(b, c));
    assert!(osc_time_le_exec(a, a));
}

#[test]
fn rtp_packet_timestamp_counts_from_zero_time() {
    let p = RTPPacket::new(raw_rtp(10, vec![]), RTPStreamInfo::new(5, 48000f32.to_bits()));
    assert_eq!(p.timestamp(), 5);
    let first = RTPPacket::new(raw_rtp(7, vec![]), RTPStreamInfo::new(7, 0));
    assert_eq!(first.timestamp(), 0);
    let wrapped = RTPPacket::new(raw_rtp(3, vec![]), RTPStreamInfo::new(u32::MAX, 0));
    assert_eq!(wrapped.timestamp(), 4);
    assert_eq!(p.sample_rate(), 48000);
    assert_eq!(p.osc_timestamp(), OscTime { seconds: 2_208_988_810, fractional: 0 });
    assert_eq!(p.metadata().clock_rate, 48000f32.to_bits());
}

#[test]
fn incoming_rtp_payload() {
    assert!(handle_incoming_rtp(&[]).is_err());
    assert_eq!(handle_incoming_rtp(&[1, 2, 3]), Ok(vec![1, 2, 3]));
}

fn marshalled_rtp(timestamp: u32, payload: &[u8]) -> Vec<u8> {
    let packet = webrtc::rtp::packet::Packet {
        header: webrtc::rtp::header::Header {
            version: 2,
            payload_type: 111,
            sequence_number: 9,
            timestamp,
            ssrc: 42,
            ..Default::default()
        },
        payload: bytes::Bytes::copy_from_slice(payload),
    };
    packet.marshal().unwrap().to_vec()
}

#[test]
fn performer_audio_is_unmarshalled() {
    let bytes = marshalled_rtp(1234, &[5, 6, 7]);
    let p = accept_performer_audio(UserType::Performer, &bytes).expect("an RTP packet");
    assert_eq!(p.timestamp, 1234);
    assert_eq!(p.payload, vec![5, 6, 7]);
    assert!(!p.extension);
}

#[test]
fn audience_audio_is_refused() {
    let bytes = marshalled_rtp(1234, &[5, 6, 7]);
    assert!(accept_performer_audio(UserType::Audience, &bytes).is_none());
}

#[test]
fn garbage_audio_is_refused() {
    assert!(accept_performer_audio(UserType::Performer, &[1]).is_none());
}

#[test]
fn outer_bundle_takes_first_time_tag() {
    let data = vec![OscData::new(bundle_at(3), 1), OscData::new(bundle_at(2), 1)];
    let b = vrtp_outer_bundle(data, &None).expect("a bundle");
    assert_eq!(b.timetag, OscTime { seconds: 3, fractional: 0 });
    assert_eq!(b.content.len(), 2);
    match &b.content[1] {
        OscElement::Bundle(inner) => assert_eq!(inner.timetag.seconds, 2),
        _ => panic!("expected a nested bundle"),
    }
}

#[test]
fn outer_bundle_takes_audio_time_tag() {
    let rtp = Some(RTPPacket::new(raw_rtp(100, vec![]), RTPStreamInfo::new(0, 0)));
    let b = vrtp_outer_bundle(vec![OscData::new(bundle_at(3), 1)], &rtp).expect("a bundle");
    assert_eq!(b.timetag, OscTime { seconds: 2_208_988_900, fractional: 0 });
}

#[test]
fn no_bundles_no_outer_bundle() {
    assert!(vrtp_outer_bundle(vec![], &None).is_none());
}

#[test]
fn vrtp_frame_without_audio() {
    let out = encode_vrtp_frame(Some(vec![1, 2, 3]), &None, 7);
    assert_eq!(out, vec![0, 0, 0, 17, 0, 3, 0, 0, 0, 7, 0xBF, 0x80, 0, 0, 1, 2, 3]);
}

#[test]
fn vrtp_frame_with_backing_track_position() {
    let mut packet = raw_rtp(0, vec![9, 9]);
    packet.extension = true;
    packet.extension_profile = VRL_RTP_PACKET_HEADER_ID;
    packet.extensions = vec![RtpExtension { id: 1, payload: vec![1, 2, 3, 4] }];
    let rtp = Some(RTPPacket::new(packet, RTPStreamInfo::new(0, 0)));
    let out = encode_vrtp_frame(None, &rtp, 258);
    assert_eq!(out, vec![0, 0, 0, 16, 0, 0, 0, 2, 1, 2, 4, 3, 2, 1, 9, 9]);
}

#[test]
fn vrtp_frame_empty() {
    assert!(encode_vrtp_frame(None, &None, 1).is_empty());
}

#[test]
fn minus_one_is_the_default_position() {
    // the position field holds -1.0 as a big-endian float where there is no extension
    assert_eq!((-1.0f32).to_be_bytes(), [0xBF, 0x80, 0, 0]);
}

#[test]
fn bundles_compare_by_time_tag() {
    let a = OscData::new(bundle_at(3), 1);
    let b = OscData::new(OscBundle { timetag: OscTime { seconds: 3, fractional: 0 }, content: vec![] }, 2);
    let c = OscData::new(bundle_at(4), 1);
    assert!(a == b);
    assert!(a < c);
    assert!(c > b);
    assert_eq!(a.partial_cmp(&c), Some(std::cmp::Ordering::Less));
    let d = OscData::new(OscBundle { timetag: OscTime { seconds: 3, fractional: 9 }, content: vec![] }, 1);
    assert!(a < d);
}

#[test]
fn audio_packets_compare_by_timestamp() {
    let a = RTPPacket::new(raw_rtp(10, vec![1]), RTPStreamInfo::new(0, 0));
    let b = RTPPacket::new(raw_rtp(10, vec![2, 3]), RTPStreamInfo::new(5, 0));
    let c = RTPPacket::new(raw_rtp(11, vec![]), RTPStreamInfo::new(0, 0));
    assert!(a == b);
    assert!(a < c);
    assert_eq!(c.partial_cmp(&a), Some(std::cmp::Ordering::Greater));
}

fn extension_packet(profile: u16, words: u16, block: &[u8], tail: &[u8]) -> Vec<u8> {
    let mut out = vec![0x90, 111, 0, 9, 0, 0, 4, 210, 0, 0, 0, 42];
    out.extend_from_slice(&profile.to_be_bytes());
    out.extend_from_slice(&words.to_be_bytes());
    out.extend_from_slice(block);
    out.extend_from_slice(tail);
    out
}

#[test]
fn extension_running_past_the_packet_is_caught() {
    // one-byte extension: id 1, claimed length 16, in a block of one word
    let bad = extension_packet(0xBEDE, 1, &[0x1F, 0, 0, 0], &[]);
    assert_eq!(bad.len(), 20);
    assert!(!rtp_extensions_fit_exec(&bad));
    // two-byte extension whose length byte is the last byte of the packet
    let bad = extension_packet(0x1000, 1, &[0, 0, 0, 1], &[]);
    assert!(!rtp_extensions_fit_exec(&bad));
    let bad = extension_packet(0x1000, 1, &[0, 0, 1, 9], &[1]);
    assert!(!rtp_extensions_fit_exec(&bad));
}

#[test]
fn extensions_that_fit_are_read() {
    // one-byte extension: id 1 with four bytes of data
    let good = extension_packet(0xBEDE, 2, &[0x13, 1, 2, 3, 4, 0, 0, 0], &[7, 7]);
    assert!(rtp_extensions_fit_exec(&good));
    let p = accept_performer_audio(UserType::Performer, &good).expect("an RTP packet");
    assert!(p.extension);
    assert_eq!(p.extension_profile, 0xBEDE);
    assert_eq!(p.extensions[0].payload, vec![1, 2, 3, 4]);
    assert_eq!(p.payload, vec![7, 7]);
    // an element may run past the block as long as it stays in the packet
    let past_block = extension_packet(0xBEDE, 1, &[0, 0, 0, 0x13], &[1, 2, 3, 4]);
    assert!(rtp_extensions_fit_exec(&past_block));
    assert!(accept_performer_audio(UserType::Performer, &past_block).is_some());
    assert!(rtp_extensions_fit_exec(&marshalled_rtp(5, &[1])));
    assert!(rtp_extensions_fit_exec(&[1, 2]));
}

fn no_quaternion(x: u32, y: u32, z: u32) -> (u32, u32, u32, u32) {
    (x, y, z, 0)
}

/// Stands in for the float encoder: the number of elements, then the first address's bytes.
fn shape_of(b: OscBundle) -> Vec<u8> {
    let mut out = vec![b.content.len() as u8];
    if let Some(OscElement::Message(m)) = b.content.first() {
        out.extend_from_slice(m.addr.as_bytes());
    }
    out
}

#[test]
fn encoded_packets_are_sent_unchanged() {
    assert_eq!(vrtp_packet_bytes(VRTPPacket::Encoded(vec![4, 2]), no_quaternion, shape_of), vec![4, 2]);
}

#[test]
fn empty_raw_packet_gives_no_bytes() {
    assert!(vrtp_packet_bytes(VRTPPacket::Raw(vec![], None, 5), no_quaternion, shape_of).is_empty());
}

#[test]
fn raw_packet_frames_the_encoded_outer_bundle() {
    let out = vrtp_packet_bytes(VRTPPacket::Raw(vec![OscData::new(bundle_at(3), 5)], None, 5), no_quaternion, shape_of);
    // not SlimeVR: the outer bundle holds the one nested bundle, as it is
    assert_eq!(out, vec![0, 0, 0, 15, 0, 1, 0, 0, 0, 5, 0xBF, 0x80, 0, 0, 1]);
}

#[test]
fn raw_packet_converts_tracker_bundles() {
    let f = |x: f32| OscArg::Float(x.to_bits());
    let trackers = OscBundle {
        timetag: OscTime { seconds: 1, fractional: 0 },
        content: vec![
            OscElement::Message(OscMessage {
                addr: "/tracking/trackers/1/position".to_owned(),
                args: vec![f(1.0), f(2.0), f(3.0)],
            }),
            OscElement::Message(OscMessage {
                addr: "/tracking/trackers/head/position".to_owned(),
                args: vec![f(1.0), f(2.0), f(3.0)],
            }),
        ],
    };
    let out = vrtp_packet_bytes(VRTPPacket::Raw(vec![OscData::new(trackers, 1)], None, 1), no_quaternion, shape_of);
    let mut osc = vec![2u8];
    osc.extend_from_slice(b"/VMC/Ext/Bone/Pos");
    assert_eq!(&out[14..], &osc[..]);
    assert_eq!(&out[4..6], &[0, osc.len() as u8]);
}
