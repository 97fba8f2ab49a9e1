//! The Open Sound Control values that the protocol reads and writes:
//! messages, bundles, packets and their arguments, held as plain values.
//! Floating-point arguments are held by their IEEE-754 bit patterns.
use vstd::prelude::*;
use vstd::utf8::*;

verus! {

/// An OSC time tag: seconds since 1900-01-01 and a binary fraction of a second.
#[derive(Clone, Copy, Debug, PartialEq, Eq, Structural)]
pub struct OscTime {
    pub seconds: u32,
    pub fractional: u32,
}

/// One argument of an OSC message.
#[derive(Debug)]
pub enum OscArg {
    Int(i32),
    /// A 32-bit float, by its bit pattern.
    Float(u32),
    String(String),
    Blob(Vec<u8>),
    Time(OscTime),
    Long(i64),
    /// A 64-bit float, by its bit pattern.
    Double(u64),
    Char(char),
    /// Red, green, blue, alpha.
    Color(u8, u8, u8, u8),
    /// Port, status, data1, data2.
    Midi(u8, u8, u8, u8),
    Bool(bool),
    Array(Vec<OscArg>),
    Nil,
    Inf,
}

/// An OSC message: an address and its arguments.
#[derive(Debug)]
pub struct OscMessage {
    pub addr: String,
    pub args: Vec<OscArg>,
}

/// An OSC bundle: a time tag and the packets it holds.
#[derive(Debug)]
pub struct OscBundle {
    pub timetag: OscTime,
    pub content: Vec<OscElement>,
}

/// An OSC packet or bundle element: a message or a bundle of elements.
#[derive(Debug)]
pub enum OscElement {
    Message(OscMessage),
    Bundle(OscBundle),
}

/// The number of bytes of the UTF-8 encoding of `s`.
pub open spec fn byte_len(s: Seq<char>) -> int {
    encode_utf8(s).len() as int
}

/// The messages of a bundle, nested bundles flattened in place, in order.
pub open spec fn flat_bundle(b: OscBundle) -> Seq<OscMessage>
    decreases b, 1int,
{
    flat_packets(b.content@, b.content@.len() as int)
}

/// The messages of the first `n` packets, nested bundles flattened in place.
pub open spec fn flat_packets(ps: Seq<OscElement>, n: int) -> Seq<OscMessage>
    decreases ps, n,
{
    if n <= 0 || n > ps.len() {
        Seq::empty()
    } else {
        flat_packets(ps, n - 1) + match ps[n - 1] {
            OscElement::Message(m) => seq![m],
            OscElement::Bundle(b) => flat_bundle(b),
        }
    }
}

/// Appends every message of `b` to `messages`, descending into nested bundles in order.
pub fn flatten_bundle(b: OscBundle, messages: &mut Vec<OscMessage>)
    ensures
        final(messages)@ == old(messages)@ + flat_bundle(b),
    decreases b,
{
    let ghost ps = b.content@;
    let ghost start = old(messages)@;
    let n = b.content.len();
    let mut content = b.content;
    let mut i: usize = 0;
    while i < n
        invariant
            ps == b.content@,
            n == ps.len(),
            i <= n,
            content@.len() == n,
            forall|j: int| i <= j < n ==> content@[j] == ps[j],
            messages@ == start + flat_packets(ps, i as int),
        decreases n - i,
    {
        let mut packet = OscElement::Message(OscMessage { addr: String::new(), args: Vec::new() });
        std::mem::swap(&mut packet, &mut content[i]);
        let ghost pk = packet;
        assert(pk == ps[i as int]);
        match packet {
            OscElement::Bundle(nested) => {
                proof {
                    assert(decreases_to!(b => b.content));
                    assert(decreases_to!(b.content => b.content@));
                    assert(decreases_to!(b.content@ => b.content@[i as int]));
                    assert(decreases_to!(pk => nested));
                    assert(decreases_to!(b => nested));
                }
                flatten_bundle(nested, messages);
            },
            OscElement::Message(m) => {
                messages.push(m);
            },
        }
        i = i + 1;
        assert(messages@ =~= start + flat_packets(ps, i as int));
    }
    assert(flat_bundle(b) == flat_packets(ps, n as int));
}

} // verus!
