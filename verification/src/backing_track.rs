//! The backing track as it is sent to clients: one framed packet titled
//! "NEWTRACK", whose header holds the track's file name (preceded by its
//! length) and whose body holds the file's contents.
use vstd::prelude::*;
use vstd::string::*;
use vstd::utf8::*;

use crate::vrl_tcp_packet::{
    lemma_tcp_packet_roundtrip, tcp_packet_bytes, tcp_packet_parse, tcp_packet_well_formed, VRLTCPPacket,
    VRLTCPPacketView,
};
use crate::wire::{be16, put_slice, put_u16};

verus! {

/// The header of a backing track packet: the file name's length (two bytes,
/// big-endian, truncated to sixteen bits) and the file name.
pub open spec fn track_header(file_name: Seq<u8>) -> Seq<u8> {
    be16(#[verifier::truncate] (file_name.len() as u16)) + file_name
}

/// The packet that carries a backing track named `file_name` with `contents`.
pub open spec fn track_packet(file_name: Seq<u8>, contents: Seq<u8>) -> VRLTCPPacketView {
    let header = track_header(file_name);
    VRLTCPPacketView {
        header_msg_len: #[verifier::truncate] (encode_utf8("NEWTRACK"@).len() as u8),
        header_msg: "NEWTRACK"@,
        header_len: #[verifier::truncate] (header.len() as u16),
        body_len: #[verifier::truncate] (contents.len() as u32),
        header,
        body: contents,
    }
}

/// The bytes of a backing track whose file name and contents fit their
/// length fields read back as the same packet: title, file name and contents.
pub proof fn lemma_track_packet_roundtrip(file_name: Seq<u8>, contents: Seq<u8>)
    requires
        file_name.len() + 2 < 65536,
        contents.len() < 0x1_0000_0000,
    ensures
        tcp_packet_well_formed(tcp_packet_bytes(track_packet(file_name, contents))),
        tcp_packet_parse(tcp_packet_bytes(track_packet(file_name, contents))) == track_packet(
            file_name,
            contents,
        ),
{
    reveal_strlit("NEWTRACK");
    let title = "NEWTRACK"@;
    assert(is_ascii_chars(title));
    is_ascii_chars_encode_utf8(title);
    assert(encode_utf8(title).len() == 8);
    lemma_tcp_packet_roundtrip(track_packet(file_name, contents));
}

/// A backing track, ready to be sent.
#[derive(Clone, Debug)]
pub struct BackingTrackData {
    data: Vec<u8>,
    filename: String,
}

impl BackingTrackData {
    /// The bytes sent to clients.
    pub closed spec fn data_view(&self) -> Seq<u8> {
        self.data@
    }

    /// The path the track was read from.
    pub closed spec fn filename_view(&self) -> Seq<char> {
        self.filename@
    }

    /// The backing track read from path `filename`, whose last component is
    /// `file_name` (as bytes) and whose contents are `contents`.
    pub fn from_contents(filename: &str, file_name: &[u8], contents: Vec<u8>) -> (r: Self)
        ensures
            r.data_view() == tcp_packet_bytes(track_packet(file_name@, contents@)),
            r.filename_view() == filename@,
    {
        let mut header: Vec<u8> = Vec::new();
        put_u16(&mut header, #[verifier::truncate] (file_name.len() as u16));
        put_slice(&mut header, file_name);
        assert(header@ =~= track_header(file_name@));
        let backing_track_data = VRLTCPPacket::new("NEWTRACK", header, contents);
        Self { data: backing_track_data.to_bytes(), filename: filename.to_owned() }
    }

    /// The bytes sent to clients.
    pub fn get_data(&self) -> (r: &Vec<u8>)
        ensures
            r@ == self.data_view(),
    {
        &self.data
    }

    /// The path the track was read from.
    pub fn get_filename(&self) -> (r: &str)
        ensures
            r@ == self.filename_view(),
    {
        self.filename.as_str()
    }
}

} // verus!
