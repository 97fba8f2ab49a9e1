use vrlive_server::analytics::{AnalyticsState, ThroughputAnalytics};
use vrlive_server::backing_track::BackingTrackData;
use vrlive_server::client::{decode_client_events, encode_server_event, ClientEventsError};
use vrlive_server::osc_messages_in::{ClientMessage, PerformerClientMessage};
use vrlive_server::osc_messages_out::{PerformerServerMessage, ServerMessage};
use vrlive_server::vrl_tcp_packet::VRLTCPPacket;

#[test]
fn moving_average_of_performer_bytes() {
    let mut a = AnalyticsState::new();
    assert_eq!(a.performer_average(), 0);
    a.record(ThroughputAnalytics::PerformerOSCBytesIn(10));
    a.record(ThroughputAnalytics::PerformerOSCBytesIn(21));
    assert_eq!(a.performer_average(), 15);
}

#[test]
fn moving_average_keeps_the_last_hundred() {
    let mut a = AnalyticsState::new();
    a.record(ThroughputAnalytics::PerformerOSCBytesIn(10000));
    for _ in 0..100 {
        a.record(ThroughputAnalytics::PerformerOSCBytesIn(2));
    }
    assert_eq!(a.performer_average(), 2);
}

#[test]
fn backing_track_packet() {
    let t = BackingTrackData::from_contents("music/a.mp3", b"a.mp3", vec![1, 2, 3]);
    let mut expected = vec![8u8];
    expected.extend_from_slice(b"NEWTRACK");
    expected.extend_from_slice(&[0, 7, 0, 0, 0, 3]);
    expected.extend_from_slice(&[0, 5]);
    expected.extend_from_slice(b"a.mp3");
    expected.extend_from_slice(&[1, 2, 3]);
    assert_eq!(t.get_data(), &expected);
    assert_eq!(t.get_filename(), "music/a.mp3");
    assert!(VRLTCPPacket::is_well_formed(t.get_data()));
}

#[test]
fn server_event_is_framed_as_bundle() {
    let bytes = encode_server_event(&ServerMessage::Performer(PerformerServerMessage::Ready(true)));
    assert!(VRLTCPPacket::is_well_formed(&bytes));
    assert_eq!(bytes[0], 6);
    assert_eq!(&bytes[1..7], b"BUNDLE");
    assert_eq!(&bytes[7..9], &[0, 0]);
    let body = &bytes[13..];
    let body_len = u32::from_be_bytes([bytes[9], bytes[10], bytes[11], bytes[12]]) as usize;
    assert_eq!(body.len(), body_len);
    match rosc::decoder::decode_udp(body).unwrap().1 {
        rosc::OscPacket::Message(m) => {
            assert_eq!(m.addr, "/server/performer/ready");
            assert_eq!(m.args, vec![rosc::OscType::Bool(true)]);
        },
        _ => panic!("expected a message"),
    }
}

fn tcp_frame(packets: &[rosc::OscPacket]) -> Vec<u8> {
    let mut out = vec![];
    for p in packets {
        let bytes = rosc::encoder::encode(p).unwrap();
        out.extend_from_slice(&(bytes.len() as u32).to_be_bytes());
        out.extend_from_slice(&bytes);
    }
    out
}

fn rosc_msg(addr: &str, args: Vec<rosc::OscType>) -> rosc::OscPacket {
    rosc::OscPacket::Message(rosc::OscMessage { addr: addr.to_owned(), args })
}

#[test]
fn client_events_are_read_in_order() {
    let bytes = tcp_frame(&[
        rosc_msg("/performer/ready", vec![rosc::OscType::Bool(true)]),
        rosc_msg("/nothing/here", vec![]),
        rosc_msg("/performer/ready", vec![rosc::OscType::Bool(false)]),
    ]);
    assert_eq!(
        decode_client_events(&bytes),
        Ok(vec![
            ClientMessage::Performer(PerformerClientMessage::Ready(true)),
            ClientMessage::Performer(PerformerClientMessage::Ready(false)),
        ])
    );
}

#[test]
fn client_events_from_garbage() {
    assert_eq!(decode_client_events(&[0, 0, 0, 1, b'A']), Err(ClientEventsError::InvalidOsc));
}

#[test]
fn client_events_with_unimplemented_branch() {
    let bytes = tcp_frame(&[rosc_msg("/audience/x", vec![])]);
    assert_eq!(decode_client_events(&bytes), Err(ClientEventsError::Unreadable));
    let bundle = rosc::OscPacket::Bundle(rosc::OscBundle {
        timetag: rosc::OscTime { seconds: 0, fractional: 0 },
        content: vec![],
    });
    assert_eq!(decode_client_events(&tcp_frame(&[bundle])), Err(ClientEventsError::Unreadable));
}
