use vrlive_server::osc::{OscArg, OscMessage};
use vrlive_server::osc_messages_in::{ClientMessage, PerformerClientMessage, PerformerToggle};
use vrlive_server::osc_messages_out::{
    BackingMessage, MatchMakeMessage, PerformerServerMessage, SceneMessage, ServerMessage, StatusMessage,
};
use vrlive_server::{OSCDecodable, OSCEncodable, UserType};

fn msg(addr: &str, args: Vec<OscArg>) -> OscMessage {
    OscMessage { addr: addr.to_owned(), args }
}

#[test]
fn try_create_client_message() {
    let message = ClientMessage::Performer(PerformerClientMessage::Ready(true));

    let encoded = message.to_message(vec!["".to_owned()]);
    let unencoded = ClientMessage::from_osc_message(&encoded);
    if let Some(server_msg) = &unencoded {
        let reencoded = server_msg.to_message(vec!["".to_owned()]);
        let reunencoded = ClientMessage::from_osc_message(&reencoded);
        assert_eq!(reencoded.addr, encoded.addr);
        assert_eq!(&reunencoded, &unencoded);
    } else {
        panic!("Object was not re-encoded")
    }
}

#[test]
fn try_create_server_message() {
    let message = ServerMessage::Performer(PerformerServerMessage::Ready(true));

    let encoded = message.to_message(vec!["".to_owned()]);
    let unencoded = ServerMessage::from_osc_message(&encoded);
    if let Some(server_msg) = &unencoded {
        let reencoded = server_msg.to_message(vec!["".to_owned()]);
        let reunencoded = ServerMessage::from_osc_message(&reencoded);
        assert_eq!(reencoded.addr, encoded.addr);
        assert_eq!(&reunencoded, &unencoded);
    } else {
        panic!("Object was not re-encoded")
    }
}

#[test]
fn client_ready_address_and_argument() {
    let m = ClientMessage::Performer(PerformerClientMessage::Ready(false)).to_message(vec!["".to_owned()]);
    assert_eq!(m.addr, "/performer/ready");
    assert_eq!(m.args.len(), 1);
    assert!(matches!(m.args[0], OscArg::Bool(false)));
}

#[test]
fn client_ready_decodes_without_leading_slash_too() {
    let m = msg("performer/ready", vec![OscArg::Bool(true)]);
    assert_eq!(
        ClientMessage::from_osc_message(&m),
        Some(ClientMessage::Performer(PerformerClientMessage::Ready(true)))
    );
}

#[test]
fn client_message_with_empty_address_is_nothing() {
    assert_eq!(ClientMessage::from_osc_message(&msg("", vec![])), None);
}

#[test]
fn client_message_with_unknown_root_is_nothing() {
    let m = msg("/elsewhere/ready", vec![OscArg::Bool(true)]);
    assert_eq!(ClientMessage::from_osc_message(&m), None);
}

#[test]
fn client_toggle_address() {
    let m = ClientMessage::Performer(PerformerClientMessage::Toggle(PerformerToggle::Audio(true))).encode();
    assert_eq!(m.addr, "performer/toggle/toggle/audio");
    assert!(matches!(m.args[0], OscArg::Bool(true)));
}

#[test]
fn server_ready_address() {
    let m = ServerMessage::Performer(PerformerServerMessage::Ready(true)).encode();
    assert_eq!(m.addr, "/server/performer/ready");
    assert!(matches!(m.args[0], OscArg::Bool(true)));
}

#[test]
fn server_scene_roundtrip() {
    let m = ServerMessage::Scene(SceneMessage::State(7)).to_message(vec!["".to_owned()]);
    assert_eq!(ServerMessage::from_osc_message(&m), Some(ServerMessage::Scene(SceneMessage::State(7))));
}

#[test]
fn server_matchmake_address() {
    let m = ServerMessage::Performer(PerformerServerMessage::MatchMake(MatchMakeMessage::Request)).encode();
    assert_eq!(m.addr, "/server/performer/matchmake/matchmake/request");
    assert_eq!(m.args.len(), 0);
}

#[test]
fn server_backing_start_address() {
    let m = ServerMessage::Backing(BackingMessage::Start(480)).encode();
    assert_eq!(m.addr, "/server/backing/start");
    assert!(matches!(m.args[0], OscArg::Int(480)));
}

#[test]
fn server_status_user_add_address() {
    let m = ServerMessage::Status(StatusMessage::UserAdd(12, UserType::Performer)).encode();
    assert_eq!(m.addr, "/server/status/useradd");
    assert_eq!(m.args.len(), 2);
    assert!(matches!(m.args[0], OscArg::Int(12)));
    assert!(matches!(m.args[1], OscArg::Int(2)));
}

#[test]
fn base_and_variant_prefixes() {
    assert_eq!(ServerMessage::base_prefix(), "/server");
    assert_eq!(ClientMessage::base_prefix(), "/client");
    assert_eq!(ServerMessage::Timing.variant_prefix(), "timing");
    assert_eq!(BackingMessage::Stop.variant_prefix(), "stop");
}

#[test]
fn user_type_codes() {
    assert_eq!(UserType::from(1), UserType::Audience);
    assert_eq!(UserType::from(2), UserType::Performer);
    assert_eq!(UserType::Audience.code(), 1);
    assert_eq!(UserType::Performer.code(), 2);
    assert_eq!(UserType::from(UserType::Performer.code()), UserType::Performer);
}
