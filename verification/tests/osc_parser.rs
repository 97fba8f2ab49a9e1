use vrlive_server::add;
use vrlive_server::osc::{flatten_bundle, OscArg, OscBundle, OscElement, OscMessage, OscTime};
use vrlive_server::osc_codec::{decode_mocap_datagram, parse_raw_bundle, try_parse_raw_bundle};
use vrlive_server::osc_size::{estimate_bundle_size, estimate_message_size};

fn msg(addr: &str, args: Vec<OscArg>) -> OscMessage {
    OscMessage { addr: addr.to_owned(), args }
}

fn time(seconds: u32, fractional: u32) -> OscTime {
    OscTime { seconds, fractional }
}

#[test]
fn it_works() {
    let result = add(2, 2);
    assert_eq!(result, 4);
}

#[test]
fn flatten_keeps_document_order() {
    let inner = OscBundle {
        timetag: time(1, 0),
        content: vec![OscElement::Message(msg("/b", vec![])), OscElement::Message(msg("/c", vec![]))],
    };
    let outer = OscBundle {
        timetag: time(0, 0),
        content: vec![
            OscElement::Message(msg("/a", vec![])),
            OscElement::Bundle(inner),
            OscElement::Message(msg("/d", vec![])),
        ],
    };
    let mut out = vec![msg("/start", vec![])];
    flatten_bundle(outer, &mut out);
    let addrs: Vec<&str> = out.iter().map(|m| m.addr.as_str()).collect();
    assert_eq!(addrs, vec!["/start", "/a", "/b", "/c", "/d"]);
}

#[test]
fn flatten_empty_bundle_adds_nothing() {
    let mut out = vec![];
    flatten_bundle(OscBundle { timetag: time(0, 0), content: vec![] }, &mut out);
    assert!(out.is_empty());
}

fn rosc_bundle_bytes() -> Vec<u8> {
    let b = rosc::OscPacket::Bundle(rosc::OscBundle {
        timetag: rosc::OscTime { seconds: 5, fractional: 6 },
        content: vec![rosc::OscPacket::Message(rosc::OscMessage {
            addr: "/tracking/trackers/1/position".to_owned(),
            args: vec![rosc::OscType::Float(1.5), rosc::OscType::Int(3)],
        })],
    });
    rosc::encoder::encode(&b).unwrap()
}

#[test]
fn parse_raw_bundle_reads_a_bundle() {
    let bytes = rosc_bundle_bytes();
    match parse_raw_bundle(&bytes) {
        Some(OscElement::Bundle(b)) => {
            assert_eq!(b.timetag, time(5, 6));
            assert_eq!(b.content.len(), 1);
            match &b.content[0] {
                OscElement::Message(m) => {
                    assert_eq!(m.addr, "/tracking/trackers/1/position");
                    assert!(matches!(m.args[0], OscArg::Float(x) if x == 1.5f32.to_bits()));
                    assert!(matches!(m.args[1], OscArg::Int(3)));
                },
                _ => panic!("expected a message"),
            }
        },
        _ => panic!("expected a bundle"),
    }
}

#[test]
fn try_parse_raw_bundle_refuses_garbage() {
    assert!(try_parse_raw_bundle(&[1, 2, 3]).is_none());
    assert!(try_parse_raw_bundle(&[]).is_none());
}

#[test]
fn mocap_datagram_must_hold_a_bundle() {
    let bytes = rosc_bundle_bytes();
    assert!(decode_mocap_datagram(&bytes).is_some());
    let single = rosc::encoder::encode(&rosc::OscPacket::Message(rosc::OscMessage {
        addr: "/x".to_owned(),
        args: vec![],
    }))
    .unwrap();
    assert!(decode_mocap_datagram(&single).is_none());
    assert!(decode_mocap_datagram(&[0, 0]).is_none());
}

#[test]
fn message_size_estimate() {
    // address of 6 bytes: 6 + 4 % 6 = 10; an int and a float: 4 + 4;
    // type tags: 4 + 4 * 2 = 12.
    let m = msg("/hello", vec![OscArg::Int(1), OscArg::Float(0)]);
    assert_eq!(estimate_message_size(&m), 10 + 8 + 12);
}

#[test]
fn message_size_estimate_counts_strings_and_arrays() {
    // address "/a": 2 + 4 % 2 = 2; string "abc": 3 + 4 % 3 = 4;
    // array of an int and a nested empty array: 4 + (8 + 4 + 8) = 24;
    // type tags: 4 + 4 * 2 = 12.
    let m = msg(
        "/a",
        vec![OscArg::String("abc".to_owned()), OscArg::Array(vec![OscArg::Int(1), OscArg::Array(vec![])])],
    );
    assert_eq!(estimate_message_size(&m), 2 + 4 + 24 + 12);
}

#[test]
fn bundle_size_estimate() {
    // 16 for the header; each element 4 more; the message "/ab": 3 + 4 % 3 = 4,
    // type tags 4; the nested empty bundle 16.
    let b = OscBundle {
        timetag: time(0, 0),
        content: vec![
            OscElement::Message(msg("/ab", vec![])),
            OscElement::Bundle(OscBundle { timetag: time(0, 0), content: vec![] }),
        ],
    };
    assert_eq!(estimate_bundle_size(&b), 16 + (4 + 8) + (4 + 16));
}
