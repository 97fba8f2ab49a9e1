use vrlive_server::handshake::{HandshakeAck, ServerPortMap};
use vrlive_server::osc::{OscBundle, OscElement, OscMessage, OscTime};
use vrlive_server::osc_messages_out::{BackingMessage, ServerMessage, StatusMessage};
use vrlive_server::performance::{BackingTrackState, PerformanceState};
use vrlive_server::server::{
    assign_user_id, connection_event, parse_command, plan_handshake, ConsoleCommand, HandshakeFailure,
    HandshakeOutcome, Listener, ListenerMessage,
};
use vrlive_server::synchronizer::{Synchronizer, SynchronizerAction, SynchronizerEvent};
use vrlive_server::vrl_packet::{RawRtpPacket, VRTPPacket};
use vrlive_server::UserType;

#[test]
fn console_commands() {
    assert_eq!(parse_command("help"), ConsoleCommand::Help);
    assert_eq!(parse_command("h anything"), ConsoleCommand::Help);
    assert_eq!(parse_command("backing song.mp3"), ConsoleCommand::Backing("song.mp3".to_owned()));
    assert_eq!(
        parse_command("b default"),
        ConsoleCommand::Backing("utils\\howd_i_wind_up_here.mp3".to_owned())
    );
    assert_eq!(parse_command("b d"), ConsoleCommand::Backing("utils\\howd_i_wind_up_here.mp3".to_owned()));
    assert_eq!(parse_command("backing"), ConsoleCommand::Nothing);
    assert_eq!(parse_command("reset"), ConsoleCommand::Reset);
    assert_eq!(parse_command("message ready"), ConsoleCommand::MessageReady);
    assert_eq!(parse_command("m backing"), ConsoleCommand::MessageBacking);
    assert_eq!(parse_command("msg hello there"), ConsoleCommand::UnknownMessage("hello there".to_owned()));
    assert_eq!(parse_command("dance"), ConsoleCommand::Nothing);
    assert_eq!(parse_command(""), ConsoleCommand::Nothing);
}

#[test]
fn new_users_get_the_counter() {
    assert_eq!(assign_user_id(None, 4), (4, None, 5));
    assert_eq!(assign_user_id(None, u16::MAX), (u16::MAX, None, 0));
}

#[test]
fn returning_users_keep_their_id() {
    assert_eq!(assign_user_id(Some((9, UserType::Audience)), 4), (9, Some(UserType::Audience), 4));
}

#[test]
fn handshake_with_wrong_id_is_refused() {
    assert_eq!(plan_handshake(3, None, 4, 1).unwrap_err(), HandshakeFailure::UserIdMismatch);
}

#[test]
fn handshake_of_a_new_performer() {
    let plan = plan_handshake(3, None, 3, 2).unwrap();
    assert!(!plan.drop_existing);
    assert_eq!(plan.outcome, Ok(HandshakeOutcome::NewConnection(UserType::Performer)));
}

#[test]
fn handshake_of_a_returning_user() {
    let plan = plan_handshake(3, Some(UserType::Audience), 3, 1).unwrap();
    assert!(!plan.drop_existing);
    assert_eq!(plan.outcome, Ok(HandshakeOutcome::Reconnection(UserType::Audience)));
}

#[test]
fn handshake_of_a_user_changing_kind() {
    let plan = plan_handshake(3, Some(UserType::Audience), 3, 2).unwrap();
    assert!(plan.drop_existing);
    assert_eq!(plan.outcome, Ok(HandshakeOutcome::NewConnection(UserType::Performer)));
}

#[test]
fn handshake_with_unknown_user_type() {
    let plan = plan_handshake(3, None, 3, 7).unwrap();
    assert!(!plan.drop_existing);
    assert_eq!(plan.outcome, Err(HandshakeFailure::InvalidUserType(7)));
}

#[test]
fn connection_event_is_a_user_add() {
    assert_eq!(
        connection_event(5, UserType::Performer),
        ServerMessage::Status(StatusMessage::UserAdd(5, UserType::Performer))
    );
}

#[test]
fn default_port_map() {
    let p = ServerPortMap::default();
    assert_eq!(p.new_connections, 5653);
    assert_eq!(p.performer_mocap_in, 5654);
    assert_eq!(p.performer_audio_in, 5655);
    assert_eq!(p.client_event_conn_port, 5656);
    assert_eq!(p.backing_track_conn_port, 5657);
    assert_eq!(p.server_event_conn_port, 5658);
    assert_eq!(p.audience_mocap_in, 9000);
}

#[test]
fn handshake_ack_uses_default_ports_when_none_given() {
    let ack = HandshakeAck::new(2, "server".to_owned(), None);
    assert_eq!(ack.user_id, 2);
    assert_eq!(ack.server_pretty_identifier, "server");
    assert_eq!(ack.ports, ServerPortMap::default());
    let mut ports = ServerPortMap::default();
    ports.new_connections = 1;
    let ack = HandshakeAck::new(2, "server".to_owned(), Some(ports));
    assert_eq!(ack.ports.new_connections, 1);
}

#[test]
fn listener_subscribe_and_unsubscribe() {
    let mut l: Listener<(), &str> = Listener::new(());
    l.apply(ListenerMessage::Subscribe(1, "a"));
    l.apply(ListenerMessage::Subscribe(2, "b"));
    l.insert(1, "c");
    assert_eq!(l.client_channels, vec![(1, "a"), (2, "b"), (1, "c")]);
    l.apply(ListenerMessage::Unsubscribe(1));
    assert_eq!(l.client_channels, vec![(2, "b"), (1, "c")]);
    assert_eq!(l.remove(&2), Some((2, "b")));
    assert_eq!(l.remove(&9), None);
    assert_eq!(l.client_channels, vec![(1, "c")]);
}

#[test]
fn listener_subscribe_then_unsubscribe_restores() {
    let mut l: Listener<(), u8> = Listener::new(());
    l.insert(1, 10);
    l.insert(2, 20);
    let before = l.client_channels.clone();
    l.apply(ListenerMessage::Subscribe(3, 30));
    l.apply(ListenerMessage::Unsubscribe(3));
    assert_eq!(l.client_channels, before);
}

#[test]
fn listener_remove_each() {
    let mut l: Listener<(), u8> = Listener::new(());
    l.insert(1, 10);
    l.insert(2, 20);
    l.insert(3, 30);
    l.remove_each(&vec![3, 1, 7]);
    assert_eq!(l.client_channels, vec![(2, 20)]);
}

#[test]
fn backing_track_toggles() {
    let mut p = PerformanceState::default();
    assert!(p.backing_track().is_none());
    assert_eq!(p.next_backing_message(), None);
    assert_eq!(p.set_backing_track_state(BackingMessage::Stop).unwrap_err(), "No backing track has been selected yet!");
    p.update_backing_track("song");
    assert!(!p.backing_track().unwrap().is_playing());
    assert_eq!(p.next_backing_message(), Some(BackingMessage::Start(0)));
    assert_eq!(
        p.set_backing_track_state(BackingMessage::Start(0)),
        Ok(ServerMessage::Backing(BackingMessage::Start(0)))
    );
    assert!(p.backing_track().unwrap().is_playing());
    assert_eq!(p.set_backing_track_state(BackingMessage::Start(3)).unwrap_err(), "Track is already in this state.");
    assert_eq!(p.next_backing_message(), Some(BackingMessage::Stop));
    assert_eq!(p.set_backing_track_state(BackingMessage::Stop), Ok(ServerMessage::Backing(BackingMessage::Stop)));
    assert!(!p.backing_track().unwrap().is_playing());
}

#[test]
fn new_backing_track_starts_stopped() {
    let mut p = PerformanceState::default();
    p.update_backing_track("one");
    p.set_backing_track_state(BackingMessage::Start(0)).unwrap();
    p.update_backing_track("two");
    assert!(!p.backing_track().unwrap().is_playing());
    let t = p.backing_track_mut().unwrap();
    t.mark_playing(true);
    t.mark_sent();
    assert!(p.backing_track().unwrap().is_playing());
}

#[test]
fn backing_track_state_new() {
    let mut t = BackingTrackState::new("x");
    assert!(!t.is_playing());
    t.mark_playing(true);
    assert!(t.is_playing());
}

fn bundle_at(seconds: u32) -> OscBundle {
    OscBundle {
        timetag: OscTime { seconds, fractional: 0 },
        content: vec![OscElement::Message(OscMessage { addr: "/m".to_owned(), args: vec![] })],
    }
}

fn rtp(timestamp: u32) -> RawRtpPacket {
    RawRtpPacket { timestamp, extension: false, extension_profile: 0, extensions: vec![], payload: vec![1] }
}

#[test]
fn synchronizer_holds_mocap_until_pressure_reaches_five() {
    let mut s = Synchronizer::new(7);
    for t in [9, 4, 6, 5] {
        assert!(matches!(s.step(SynchronizerEvent::Mocap(bundle_at(t)), 0), SynchronizerAction::Wait));
    }
    assert_eq!(s.mocap_pressure(), 4);
    match s.step(SynchronizerEvent::Mocap(bundle_at(8)), 0) {
        SynchronizerAction::Send(VRTPPacket::Raw(mocap, audio, user)) => {
            let times: Vec<u32> = mocap.iter().map(|d| d.bundle.timetag.seconds).collect();
            assert_eq!(times, vec![4, 5, 6, 8, 9]);
            assert!(mocap.iter().all(|d| d.user_id == 7));
            assert!(audio.is_none());
            assert_eq!(user, 7);
        },
        _ => panic!("expected a packet"),
    }
    assert_eq!(s.mocap_pressure(), 0);
}

#[test]
fn synchronizer_timeout_sends_held_mocap() {
    let mut s = Synchronizer::new(2);
    assert!(matches!(s.step(SynchronizerEvent::Mocap(bundle_at(3)), 0), SynchronizerAction::Wait));
    assert!(matches!(s.step(SynchronizerEvent::Mocap(bundle_at(1)), 0), SynchronizerAction::Wait));
    match s.step(SynchronizerEvent::AudioTimedOut, 0) {
        SynchronizerAction::Send(VRTPPacket::Raw(mocap, None, 2)) => {
            let times: Vec<u32> = mocap.iter().map(|d| d.bundle.timetag.seconds).collect();
            assert_eq!(times, vec![1, 3]);
        },
        _ => panic!("expected a packet without audio"),
    }
    assert_eq!(s.mocap_pressure(), 0);
}

#[test]
fn synchronizer_sends_held_mocap_with_audio() {
    let mut s = Synchronizer::new(2);
    assert!(matches!(s.step(SynchronizerEvent::Mocap(bundle_at(3)), 0), SynchronizerAction::Wait));
    match s.step(SynchronizerEvent::Audio(rtp(40)), 0) {
        SynchronizerAction::Send(VRTPPacket::Raw(mocap, Some(audio), 2)) => {
            assert_eq!(mocap.len(), 1);
            assert_eq!(audio.packet.timestamp, 40);
        },
        _ => panic!("expected a packet with audio"),
    }
}

#[test]
fn synchronizer_sends_audio_with_stream_info() {
    let mut s = Synchronizer::new(1);
    match s.step(SynchronizerEvent::Audio(rtp(500)), 48000f32.to_bits()) {
        SynchronizerAction::Send(VRTPPacket::Raw(mocap, Some(audio), 1)) => {
            assert!(mocap.is_empty());
            assert_eq!(audio.packet.timestamp, 500);
            assert_eq!(audio.meta.zero_time, 500);
            assert_eq!(audio.meta.clock_rate, 48000f32.to_bits());
        },
        _ => panic!("expected a packet with audio"),
    }
    // the stream information of the first packet is kept
    match s.step(SynchronizerEvent::Audio(rtp(900)), 0) {
        SynchronizerAction::Send(VRTPPacket::Raw(_, Some(audio), _)) => {
            assert_eq!(audio.meta.zero_time, 500);
        },
        _ => panic!("expected a packet with audio"),
    }
    assert_eq!(s.audio_pressure(), 0);
}

#[test]
fn synchronizer_waits_and_stops() {
    let mut s = Synchronizer::new(1);
    assert!(matches!(s.step(SynchronizerEvent::AudioTimedOut, 0), SynchronizerAction::Wait));
    assert!(matches!(s.step(SynchronizerEvent::AudioClosed, 0), SynchronizerAction::Stop));
    assert!(matches!(s.step(SynchronizerEvent::MocapClosed, 0), SynchronizerAction::Stop));
}
