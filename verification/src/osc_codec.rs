//! OSC packets to and from bytes, through the `rosc` codec.
use vstd::prelude::*;

use rosc::OscType;

use crate::osc::{OscArg, OscBundle, OscMessage, OscElement, OscTime};

verus! {

#[verifier::external_type_specification]
#[verifier::external_body]
pub struct ExRoscPacket(rosc::OscPacket);

#[verifier::external_type_specification]
#[verifier::external_body]
pub struct ExRoscType(OscType);

/// What `rosc::encoder::encode` writes for a message with address `addr` and arguments `args`.
pub uninterp spec fn osc_message_bytes(addr: Seq<char>, args: Seq<OscArg>) -> Seq<u8>;

/// What `rosc::decoder::decode_udp` reads from `bytes`: the first packet, or
/// nothing where the bytes do not begin with one.
pub uninterp spec fn osc_udp_decoded(bytes: Seq<u8>) -> Option<OscElement>;

/// What `rosc::decoder::decode_tcp_vec` reads from `bytes`: the length-prefixed
/// packets in order, or nothing where one of them is malformed.
pub uninterp spec fn osc_tcp_decoded(bytes: Seq<u8>) -> Option<Seq<OscElement>>;

/// Arguments that `osc_encode_message` takes: no floating-point values and no arrays.
pub open spec fn encodable_args(args: Seq<OscArg>) -> bool {
    forall|i: int|
        0 <= i < args.len() ==> !(#[trigger] args[i] is Float) && !(args[i] is Double) && !(
        args[i] is Array)
}

/// An argument read by `rosc`, as a plain value: the compound arguments here,
/// the others through `scalar_arg_from_rosc`.
#[verifier::external_body]
fn arg_from_rosc(a: OscType) -> OscArg {
    match a {
        OscType::Time(t) => OscArg::Time(OscTime { seconds: t.seconds, fractional: t.fractional }),
        OscType::Color(c) => OscArg::Color(c.red, c.green, c.blue, c.alpha),
        OscType::Midi(m) => OscArg::Midi(m.port, m.status, m.data1, m.data2),
        OscType::Array(a) => OscArg::Array(a.content.into_iter().map(arg_from_rosc).collect()),
        other => scalar_arg_from_rosc(other),
    }
}

/// An argument read by `rosc`, as a plain value: the single-valued arguments
/// here, the others through `arg_from_rosc`.
#[verifier::external_body]
fn scalar_arg_from_rosc(a: OscType) -> OscArg {
    match a {
        OscType::Int(x) => OscArg::Int(x),
        OscType::Float(x) => OscArg::Float(x.to_bits()),
        OscType::String(s) => OscArg::String(s),
        OscType::Blob(b) => OscArg::Blob(b),
        OscType::Long(x) => OscArg::Long(x),
        OscType::Double(x) => OscArg::Double(x.to_bits()),
        OscType::Char(c) => OscArg::Char(c),
        OscType::Bool(b) => OscArg::Bool(b),
        OscType::Nil => OscArg::Nil,
        OscType::Inf => OscArg::Inf,
        other => arg_from_rosc(other),
    }
}

/// A packet read by `rosc`, as a plain value.
#[verifier::external_body]
fn packet_from_rosc(p: rosc::OscPacket) -> OscElement {
    match p {
        rosc::OscPacket::Message(m) => OscElement::Message(OscMessage {
            addr: m.addr,
            args: m.args.into_iter().map(arg_from_rosc).collect(),
        }),
        rosc::OscPacket::Bundle(b) => OscElement::Bundle(OscBundle {
            timetag: OscTime { seconds: b.timetag.seconds, fractional: b.timetag.fractional },
            content: b.content.into_iter().map(packet_from_rosc).collect(),
        }),
    }
}

/// An argument for `rosc`: the compound arguments here, the others through
/// `scalar_arg_to_rosc`.
#[verifier::external_body]
fn arg_to_rosc(a: &OscArg) -> OscType {
    match a {
        OscArg::Time(t) => OscType::Time((t.seconds, t.fractional).into()),
        OscArg::Color(r, g, b, al) => OscType::Color(rosc::OscColor { red: *r, green: *g, blue: *b, alpha: *al }),
        OscArg::Midi(p, s, d1, d2) => OscType::Midi(rosc::OscMidiMessage { port: *p, status: *s, data1: *d1, data2: *d2 }),
        other => scalar_arg_to_rosc(other),
    }
}

/// An argument for `rosc`: the single-valued arguments here, the others through
/// `arg_to_rosc`. Floating-point values and arrays are not taken (see `encodable_args`).
#[verifier::external_body]
fn scalar_arg_to_rosc(a: &OscArg) -> OscType {
    match a {
        OscArg::Int(x) => OscType::Int(*x),
        OscArg::String(s) => OscType::String(s.clone()),
        OscArg::Blob(b) => OscType::Blob(b.clone()),
        OscArg::Long(x) => OscType::Long(*x),
        OscArg::Char(c) => OscType::Char(*c),
        OscArg::Bool(b) => OscType::Bool(*b),
        OscArg::Inf => OscType::Inf,
        OscArg::Nil | OscArg::Float(_) | OscArg::Double(_) | OscArg::Array(_) => OscType::Nil,
        other => arg_to_rosc(other),
    }
}

/// `rosc::encoder::encode` on a message: its bytes. The encoder's own comment
/// states that encoding into a vector never fails.
#[verifier::external_body]
pub(crate) fn osc_encode_message(m: &OscMessage) -> (r: Vec<u8>)
    requires
        encodable_args(m.args@),
    ensures
        r@ == osc_message_bytes(m.addr@, m.args@),
{
    let packet = rosc::OscPacket::Message(rosc::OscMessage {
        addr: m.addr.clone(),
        args: m.args.iter().map(arg_to_rosc).collect(),
    });
    match rosc::encoder::encode(&packet) {
        Ok(bytes) => bytes,
        Err(_) => Vec::new(),
    }
}

/// `rosc::decoder::decode_udp`: the first packet in `bytes`, if they begin with one.
#[verifier::external_body]
pub(crate) fn osc_decode_udp(bytes: &[u8]) -> (r: Option<OscElement>)
    ensures
        r == osc_udp_decoded(bytes@),
{
    match rosc::decoder::decode_udp(bytes) {
        Ok((_, packet)) => Some(packet_from_rosc(packet)),
        Err(_) => None,
    }
}

/// `rosc::decoder::decode_tcp_vec`: the length-prefixed packets in `bytes`, if all are well formed.
#[verifier::external_body]
pub(crate) fn osc_decode_tcp_vec(bytes: &[u8]) -> (r: Option<Vec<OscElement>>)
    ensures
        match r {
            Some(v) => osc_tcp_decoded(bytes@) == Some(v@),
            None => osc_tcp_decoded(bytes@) is None,
        },
{
    match rosc::decoder::decode_tcp_vec(bytes) {
        Ok((_, packets)) => Some(packets.into_iter().map(packet_from_rosc).collect()),
        Err(_) => None,
    }
}

/// Decodes a raw OSC packet; the bytes must hold one.
pub fn parse_raw_bundle(message: &[u8]) -> (r: Option<OscElement>)
    requires
        osc_udp_decoded(message@) is Some,
    ensures
        r == osc_udp_decoded(message@),
{
    osc_decode_udp(message)
}

/// Decodes a raw OSC packet, giving nothing where the bytes do not hold one.
pub fn try_parse_raw_bundle(message: &[u8]) -> (r: Option<OscElement>)
    ensures
        r == osc_udp_decoded(message@),
{
    if osc_decode_udp(message).is_some() {
        parse_raw_bundle(message)
    } else {
        None
    }
}

/// The motion-capture bundle in a datagram: the packet it holds, where that is a bundle.
pub fn decode_mocap_datagram(bytes: &[u8]) -> (r: Option<OscBundle>)
    ensures
        r == match osc_udp_decoded(bytes@) {
            Some(OscElement::Bundle(b)) => Some(b),
            _ => None,
        },
{
    match osc_decode_udp(bytes) {
        Some(OscElement::Bundle(b)) => Some(b),
        _ => None,
    }
}

} // verus!
