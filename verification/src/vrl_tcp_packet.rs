//! The framed packet format used for data sent to clients over TCP:
//! a titled header and a body, each preceded by its length.
use vstd::prelude::*;
use vstd::string::*;
use vstd::utf8::*;

use crate::wire::{be16, be32, read_be16, read_be32, put_u16, put_u32, put_slice, copy_range, get_u16, get_u32, lemma_be16_roundtrip, lemma_be32_roundtrip};

verus! {

broadcast use {encode_utf8_valid_utf8, encode_utf8_decode_utf8};

/// The fields of a framed TCP packet.
pub struct VRLTCPPacketView {
    pub header_msg_len: u8,
    pub header_msg: Seq<char>,
    pub header_len: u16,
    pub body_len: u32,
    pub header: Seq<u8>,
    pub body: Seq<u8>,
}

/// The standardized packet format we use for sending certain kinds of TCP data out to clients.
/// On the wire: the title's length (one byte), the title (UTF-8), the header's
/// length (two bytes, big-endian), the body's length (four bytes, big-endian),
/// the header, and the body.
pub struct VRLTCPPacket {
    /// Length of our message type
    header_msg_len: u8,
    /// String message marking our message type.
    header_msg: String,
    /// Length of the header (not including the lengths and header message) in bytes.
    header_len: u16,
    /// Length of the body payload in bytes.
    body_len: u32,
    /// Header, containing any information you want to stash in here.
    header: Vec<u8>,
    /// Payload
    body: Vec<u8>,
}

impl VRLTCPPacket {
    /// The fields of this packet.
    pub closed spec fn spec_fields(&self) -> VRLTCPPacketView {
        VRLTCPPacketView {
            header_msg_len: self.header_msg_len,
            header_msg: self.header_msg@,
            header_len: self.header_len,
            body_len: self.body_len,
            header: self.header@,
            body: self.body@,
        }
    }
}

impl View for VRLTCPPacket {
    type V = VRLTCPPacketView;

    open spec fn view(&self) -> VRLTCPPacketView {
        self.spec_fields()
    }
}

/// The bytes of a packet with fields `p`.
pub open spec fn tcp_packet_bytes(p: VRLTCPPacketView) -> Seq<u8> {
    seq![p.header_msg_len] + encode_utf8(p.header_msg) + be16(p.header_len) + be32(p.body_len)
        + p.header + p.body
}

/// The stored lengths agree with the title, header and body.
pub open spec fn tcp_packet_consistent(p: VRLTCPPacketView) -> bool {
    &&& encode_utf8(p.header_msg).len() == p.header_msg_len
    &&& p.header.len() == p.header_len
    &&& p.body.len() == p.body_len
}

/// `b` begins with a whole packet: its title is UTF-8 and the header and body
/// that its lengths announce are all there.
pub open spec fn tcp_packet_well_formed(b: Seq<u8>) -> bool {
    &&& b.len() >= 1
    &&& b.len() >= b[0] + 7
    &&& valid_utf8(b.subrange(1, b[0] + 1))
    &&& b.len() >= b[0] + 7 + read_be16(b, b[0] + 1) + read_be32(b, b[0] + 3)
}

/// The packet at the start of `b`; bytes after its body are not part of it.
pub open spec fn tcp_packet_parse(b: Seq<u8>) -> VRLTCPPacketView {
    let n = b[0] as int;
    let header_len = read_be16(b, n + 1);
    let body_len = read_be32(b, n + 3);
    let header_offset = n + 7;
    let body_offset = header_offset + header_len;
    VRLTCPPacketView {
        header_msg_len: b[0],
        header_msg: decode_utf8(b.subrange(1, n + 1)),
        header_len,
        body_len,
        header: b.subrange(header_offset, body_offset),
        body: b.subrange(body_offset, body_offset + body_len),
    }
}

/// `std::str::from_utf8`: the text encoded by `bytes`, where they are valid UTF-8.
#[verifier::external_body]
fn utf8_to_string(bytes: &[u8]) -> (r: Option<String>)
    ensures
        r is Some <==> valid_utf8(bytes@),
        r matches Some(s) ==> s@ == decode_utf8(bytes@),
{
    std::str::from_utf8(bytes).ok().map(|s| s.to_owned())
}

impl VRLTCPPacket {
    /// A packet titled `header_msg`, holding `header` and `body`. Each length is
    /// stored truncated to its field's width.
    pub fn new(header_msg: &str, header: Vec<u8>, body: Vec<u8>) -> (r: Self)
        ensures
            r@ == (VRLTCPPacketView {
                header_msg_len: #[verifier::truncate] (encode_utf8(header_msg@).len() as u8),
                header_msg: header_msg@,
                header_len: #[verifier::truncate] (header@.len() as u16),
                body_len: #[verifier::truncate] (body@.len() as u32),
                header: header@,
                body: body@,
            }),
            encode_utf8(header_msg@).len() < 256 && header@.len() < 65536 && body@.len()
                < 0x1_0000_0000 ==> tcp_packet_consistent(r@),
    {
        proof {
            if encode_utf8(header_msg@).len() < 256 && header@.len() < 65536 && body@.len()
                < 0x1_0000_0000 {
                lemma_new_consistent(header_msg@, header@, body@);
            }
        }
        let title_len = header_msg.as_bytes().len();
        Self {
            header_msg_len: #[verifier::truncate] (title_len as u8),
            header_msg: header_msg.to_owned(),
            header_len: #[verifier::truncate] (header.len() as u16),
            body_len: #[verifier::truncate] (body.len() as u32),
            header,
            body,
        }
    }

    /// The bytes of this packet on the wire; where the stored lengths agree
    /// with the contents, `from_bytes` reads the same packet back from them.
    pub fn to_bytes(&self) -> (r: Vec<u8>)
        ensures
            r@ == tcp_packet_bytes(self@),
            tcp_packet_consistent(self@) ==> tcp_packet_well_formed(r@) && tcp_packet_parse(r@)
                == self@,
    {
        proof {
            if tcp_packet_consistent(self@) {
                lemma_tcp_packet_roundtrip(self@);
            }
        }
        let mut out_bytes = Vec::new();
        out_bytes.push(self.header_msg_len);
        put_slice(&mut out_bytes, self.header_msg.as_str().as_bytes());
        put_u16(&mut out_bytes, self.header_len);
        put_u32(&mut out_bytes, self.body_len);
        put_slice(&mut out_bytes, self.header.as_slice());
        put_slice(&mut out_bytes, self.body.as_slice());
        assert(out_bytes@ =~= tcp_packet_bytes(self@));
        out_bytes
    }

    /// Whether `value` begins with a whole packet.
    pub fn is_well_formed(value: &[u8]) -> (r: bool)
        ensures
            r == tcp_packet_well_formed(value@),
    {
        let len = value.len() as u64;
        if len < 1 {
            return false;
        }
        let n = value[0] as u64;
        if len < n + 7 {
            return false;
        }
        let title = copy_range(value, 1, (n + 1) as usize);
        if utf8_to_string(title.as_slice()).is_none() {
            return false;
        }
        let header_len = get_u16(value, (n + 1) as usize) as u64;
        let body_len = get_u32(value, (n + 3) as usize) as u64;
        len >= n + 7 + header_len + body_len
    }

    /// The packet at the start of `value`.
    pub fn from_bytes(value: &[u8]) -> (r: Self)
        requires
            tcp_packet_well_formed(value@),
        ensures
            r@ == tcp_packet_parse(value@),
    {
        let message_type_len = value[0];
        let n = message_type_len as usize;
        let title_bytes = copy_range(value, 1, n + 1);
        let title = match utf8_to_string(title_bytes.as_slice()) {
            Some(s) => s,
            None => String::new(),
        };
        let header_len = get_u16(value, n + 1);
        let body_len = get_u32(value, n + 3);
        // the header follows the title and the two lengths
        let header_offset = n + 1 + 2 + 4;
        let body_offset = header_offset + header_len as usize;
        let header = copy_range(value, header_offset, body_offset);
        let body = copy_range(value, body_offset, body_offset + body_len as usize);
        Self {
            header_msg_len: message_type_len,
            header_msg: title,
            header_len,
            body_len,
            header,
            body,
        }
    }
}

/// A packet whose stored lengths agree with its contents is read back whole
/// from its own bytes.
pub proof fn lemma_tcp_packet_roundtrip(p: VRLTCPPacketView)
    requires
        tcp_packet_consistent(p),
    ensures
        tcp_packet_well_formed(tcp_packet_bytes(p)),
        tcp_packet_parse(tcp_packet_bytes(p)) == p,
{
    let t = encode_utf8(p.header_msg);
    let b = tcp_packet_bytes(p);
    let n = p.header_msg_len as int;
    assert(b[0] == p.header_msg_len);
    assert(b.subrange(1, n + 1) =~= t);
    let pre16 = seq![p.header_msg_len] + t;
    assert(b =~= pre16 + be16(p.header_len) + (be32(p.body_len) + p.header + p.body));
    lemma_be16_roundtrip(p.header_len, pre16, be32(p.body_len) + p.header + p.body);
    let pre32 = pre16 + be16(p.header_len);
    assert(b =~= pre32 + be32(p.body_len) + (p.header + p.body));
    lemma_be32_roundtrip(p.body_len, pre32, p.header + p.body);
    let ho = n + 7;
    let bo = ho + p.header_len;
    assert(b.subrange(ho, bo) =~= p.header);
    assert(b.subrange(bo, bo + p.body_len) =~= p.body);
}

/// A packet made by `new` from a title shorter than 256 bytes, a header shorter
/// than 65536 bytes and a body shorter than 2^32 bytes is consistent.
pub proof fn lemma_new_consistent(title: Seq<char>, header: Seq<u8>, body: Seq<u8>)
    requires
        encode_utf8(title).len() < 256,
        header.len() < 65536,
        body.len() < 0x1_0000_0000,
    ensures
        tcp_packet_consistent(
            VRLTCPPacketView {
                header_msg_len: encode_utf8(title).len() as u8,
                header_msg: title,
                header_len: header.len() as u16,
                body_len: body.len() as u32,
                header,
                body,
            },
        ),
{
}

/// `from_bytes` inverts `new` followed by `to_bytes`: a packet made from a
/// title of at most 255 UTF-8 bytes, a header of at most 65535 bytes and a body
/// of fewer than 2^32 bytes is read back from its bytes with the same title,
/// lengths, header and body.
pub proof fn lemma_from_bytes_inverts_new(title: Seq<char>, header: Seq<u8>, body: Seq<u8>)
    requires
        encode_utf8(title).len() < 256,
        header.len() < 65536,
        body.len() < 0x1_0000_0000,
    ensures
        ({
            let p = VRLTCPPacketView {
                header_msg_len: #[verifier::truncate] (encode_utf8(title).len() as u8),
                header_msg: title,
                header_len: #[verifier::truncate] (header.len() as u16),
                body_len: #[verifier::truncate] (body.len() as u32),
                header,
                body,
            };
            &&& tcp_packet_well_formed(tcp_packet_bytes(p))
            &&& tcp_packet_parse(tcp_packet_bytes(p)) == p
            &&& p.header_msg_len == encode_utf8(title).len()
            &&& p.header_len == header.len()
            &&& p.body_len == body.len()
        }),
{
    lemma_new_consistent(title, header, body);
    lemma_tcp_packet_roundtrip(
        VRLTCPPacketView {
            header_msg_len: encode_utf8(title).len() as u8,
            header_msg: title,
            header_len: header.len() as u16,
            body_len: body.len() as u32,
            header,
            body,
        },
    );
}

} // verus!
