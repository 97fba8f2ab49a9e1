//! What a connected client's tasks compute: server events framed for the
//! client's event stream, and client events read from its event stream.
use vstd::prelude::*;
use vstd::utf8::*;

use crate::osc::{OscElement, OscMessage};
use crate::osc_codec::{encodable_args, osc_decode_tcp_vec, osc_encode_message, osc_message_bytes, osc_tcp_decoded};
use crate::osc_messages_in::ClientMessage;
use crate::osc_messages_out::ServerMessage;
use crate::text::{split_once, split_once_char, str_eq, strip_first_char};
use crate::vrl_tcp_packet::{tcp_packet_bytes, VRLTCPPacket, VRLTCPPacketView};
use crate::{OSCDecodable, OSCEncodable, spec_from_osc_message, spec_from_osc_message_panics, strip_slash};

verus! {

/// The bytes sent on a client's event stream for a server event whose OSC encoding is `osc`:
/// a packet titled "BUNDLE" with an empty header and `osc` as its body.
pub open spec fn server_event_frame(osc: Seq<u8>) -> Seq<u8> {
    tcp_packet_bytes(
        VRLTCPPacketView {
            header_msg_len: encode_utf8("BUNDLE"@).len() as u8,
            header_msg: "BUNDLE"@,
            header_len: 0,
            body_len: #[verifier::truncate] (osc.len() as u32),
            header: Seq::empty(),
            body: osc,
        },
    )
}

/// Encodes a server event as an OSC message and frames it for a client's event stream.
pub fn encode_server_event(msg: &ServerMessage) -> (r: Vec<u8>)
    requires
        msg.spec_encodable(),
    ensures
        r@ == server_event_frame(osc_message_bytes(msg.spec_addr(Seq::empty()), msg.spec_args())),
{
    let m = msg.encode();
    assert(encodable_args(m.args@));
    let packet = osc_encode_message(&m);
    let message_out = VRLTCPPacket::new("BUNDLE", Vec::new(), packet);
    message_out.to_bytes()
}

/// The client events among `ps`, in order: each message that decodes to one.
pub open spec fn client_events(ps: Seq<OscElement>) -> Seq<ClientMessage>
    decreases ps.len(),
{
    if ps.len() == 0 {
        Seq::empty()
    } else {
        let rest = client_events(ps.drop_last());
        match ps.last() {
            OscElement::Message(m) => match spec_from_osc_message::<ClientMessage>(m) {
                Some(c) => rest.push(c),
                None => rest,
            },
            OscElement::Bundle(_) => rest,
        }
    }
}

/// Every element is a message that can be read without failing.
pub open spec fn client_events_readable(ps: Seq<OscElement>) -> bool {
    forall|i: int|
        0 <= i < ps.len() ==> match #[trigger] ps[i] {
            OscElement::Message(m) => !spec_from_osc_message_panics::<ClientMessage>(m),
            OscElement::Bundle(_) => false,
        }
}

/// Whether reading `m` as a client message fails outright.
pub fn client_message_read_fails(m: &OscMessage) -> (r: bool)
    ensures
        r == spec_from_osc_message_panics::<ClientMessage>(*m),
{
    if m.addr.as_str().unicode_len() == 0 {
        return false;
    }
    let rest = strip_first_char(m.addr.as_str(), '/');
    match split_once_char(rest, '/') {
        Some((start, tail)) => {
            if str_eq(start, "any") || str_eq(start, "audience") {
                true
            } else if str_eq(start, "performer") {
                split_once_char(tail, '/').is_none() && str_eq(tail, "ready") && m.args.len() == 0
            } else {
                false
            }
        },
        None => false,
    }
}

/// The client events carried by `packets`, in order.
pub fn client_events_from_packets(packets: &Vec<OscElement>) -> (r: Vec<ClientMessage>)
    requires
        client_events_readable(packets@),
    ensures
        r@ == client_events(packets@),
{
    let mut out = Vec::new();
    let n = packets.len();
    let mut i: usize = 0;
    while i < n
        invariant
            n == packets@.len(),
            i <= n,
            client_events_readable(packets@),
            out@ == client_events(packets@.take(i as int)),
        decreases n - i,
    {
        assert(packets@.take(i + 1).drop_last() =~= packets@.take(i as int));
        assert(packets@.take(i + 1).last() == packets@[i as int]);
        match &packets[i] {
            OscElement::Message(msg) => {
                match ClientMessage::from_osc_message(msg) {
                    Some(c) => out.push(c),
                    None => {},
                }
            },
            OscElement::Bundle(_) => {
                assert(false);
            },
        }
        i = i + 1;
    }
    assert(packets@.take(n as int) =~= packets@);
    out
}

/// Why a read from a client's event stream yields no events.
#[derive(Debug, PartialEq, Eq, Structural)]
pub enum ClientEventsError {
    /// The bytes are not well-formed OSC: the read is skipped.
    InvalidOsc,
    /// The bytes hold a bundle, or a message whose reading is not implemented
    /// (the "any" and "audience" branches, or a "ready" without argument).
    Unreadable,
}

/// The client events in a read from a client's event stream, in order.
pub fn decode_client_events(bytes: &[u8]) -> (r: Result<Vec<ClientMessage>, ClientEventsError>)
    ensures
        match osc_tcp_decoded(bytes@) {
            Some(ps) => if client_events_readable(ps) {
                r matches Ok(v) && v@ == client_events(ps)
            } else {
                r == Err::<Vec<ClientMessage>, _>(ClientEventsError::Unreadable)
            },
            None => r == Err::<Vec<ClientMessage>, _>(ClientEventsError::InvalidOsc),
        },
{
    let packets = match osc_decode_tcp_vec(bytes) {
        Some(p) => p,
        None => return Err(ClientEventsError::InvalidOsc),
    };
    let n = packets.len();
    let mut i: usize = 0;
    while i < n
        invariant
            osc_tcp_decoded(bytes@) == Some(packets@),
            n == packets@.len(),
            i <= n,
            forall|j: int|
                0 <= j < i ==> match #[trigger] packets@[j] {
                    OscElement::Message(m) => !spec_from_osc_message_panics::<ClientMessage>(m),
                    OscElement::Bundle(_) => false,
                },
        decreases n - i,
    {
        match &packets[i] {
            OscElement::Message(m) => {
                if client_message_read_fails(m) {
                    assert(match packets@[i as int] {
                        OscElement::Message(m) => spec_from_osc_message_panics::<ClientMessage>(m),
                        OscElement::Bundle(_) => true,
                    });
                    return Err(ClientEventsError::Unreadable);
                }
            },
            OscElement::Bundle(_) => {
                assert(packets@[i as int] is Bundle);
                return Err(ClientEventsError::Unreadable);
            },
        }
        i = i + 1;
    }
    Ok(client_events_from_packets(&packets))
}

} // verus!
