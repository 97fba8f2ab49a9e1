//! The VRLive relay protocol: OSC message hierarchies, the packet formats
//! sent to clients, the synchronizer that merges audio and motion capture,
//! and the decisions the relay server takes on the way.
use vstd::prelude::*;
use vstd::string::*;

pub mod text;
pub mod osc;
pub mod osc_messages_in;
pub mod osc_messages_out;
pub mod wire;
pub mod vrl_tcp_packet;
pub mod osc_codec;
pub mod osc_size;
pub mod vrm;
pub mod backing_track;
pub mod order;
pub mod client;
pub mod vrl_packet;
pub mod synchronizer;
pub mod performance;
pub mod server;
pub mod handshake;
pub mod heartbeat;
pub mod analytics;

use crate::osc::{OscArg, OscMessage};
use crate::text::{views, strip_first_char};

verus! {

/// Adds two numbers.
pub fn add(left: usize, right: usize) -> (sum: usize)
    requires
        left + right <= usize::MAX,
    ensures
        sum == left + right,
{
    left + right
}

/// The identifier of a connected user.
pub type UserIDType = u16;

/// The channels every performer is given (none so far).
pub struct PerformerChannels {}

/// The channels every audience member is given (none so far).
pub struct AudienceChannels {}

/// The kind of a connected user.
#[derive(Debug, Copy, Clone, Eq, PartialEq, Structural)]
pub enum UserType {
    Audience,
    Performer,
}

/// The wire code of a user type.
pub open spec fn user_type_code(t: UserType) -> i32 {
    match t {
        UserType::Audience => 1,
        UserType::Performer => 2,
    }
}

/// The user type that the wire code `value` names (a performer for any code but 1).
pub open spec fn user_type_of(value: i32) -> UserType {
    if value == 1 {
        UserType::Audience
    } else {
        UserType::Performer
    }
}

impl UserType {
    /// The user type with wire code `value` (1 for an audience member, 2 for a performer).
    pub fn from(value: i32) -> (r: UserType)
        requires
            value == 1 || value == 2,
        ensures
            user_type_code(r) == value,
            r == user_type_of(value),
    {
        if value == 1 {
            UserType::Audience
        } else {
            UserType::Performer
        }
    }

    /// The wire code of this user type.
    pub fn code(self) -> (r: i32)
        ensures
            r == user_type_code(self),
    {
        match self {
            UserType::Audience => 1,
            UserType::Performer => 2,
        }
    }
}

/// A user type read back from its wire code is the same user type.
pub proof fn lemma_user_type_code_roundtrip(t: UserType)
    ensures
        user_type_of(user_type_code(t)) == t,
{
}

/// An address with its leading slash, if it has one, taken off.
pub open spec fn strip_slash(s: Seq<char>) -> Seq<char> {
    if s.len() > 0 && s[0] == '/' {
        s.skip(1)
    } else {
        s
    }
}

/// What `from_osc_message` gives for `m`.
pub open spec fn spec_from_osc_message<T: OSCDecodable>(m: OscMessage) -> Option<T> {
    if m.addr@.len() == 0 {
        None
    } else {
        T::spec_deconstruct(strip_slash(m.addr@), m)
    }
}

/// Whether `from_osc_message` fails outright on `m`.
pub open spec fn spec_from_osc_message_panics<T: OSCDecodable>(m: OscMessage) -> bool {
    m.addr@.len() > 0 && T::spec_deconstruct_panics(strip_slash(m.addr@), m)
}

/// The two address prefixes under which messages are sent: none, or a single
/// empty segment (which gives the address its leading slash).
pub open spec fn is_root_prefix(prefix: Seq<Seq<char>>) -> bool {
    prefix == Seq::<Seq<char>>::empty() || prefix == seq![Seq::<char>::empty()]
}

/// A message with this trait can be encoded to OSC.
pub trait OSCEncodable: Sized {
    /// The prefix of this message type.
    spec fn spec_base_prefix() -> Seq<char>;

    /// The prefix of this value's variant.
    spec fn spec_variant_prefix(&self) -> Seq<char>;

    /// Whether this value can be encoded at all.
    spec fn spec_encodable(&self) -> bool;

    /// The address of the message made for this value under `prefix`.
    spec fn spec_addr(&self, prefix: Seq<Seq<char>>) -> Seq<char>;

    /// The arguments of the message made for this value.
    spec fn spec_args(&self) -> Seq<OscArg>;

    /// Get the prefix for this OSC struct.
    fn base_prefix() -> (r: String)
        ensures
            r@ == Self::spec_base_prefix(),
    ;

    /// Get the prefix for a specific instantiation of this struct.
    fn variant_prefix(&self) -> (r: String)
        ensures
            r@ == self.spec_variant_prefix(),
    ;

    /// Create a message from a variant of this value, under the address segments `existing_prefix`.
    fn to_message(&self, existing_prefix: Vec<String>) -> (r: OscMessage)
        requires
            self.spec_encodable(),
        ensures
            r.addr@ == self.spec_addr(views(existing_prefix@)),
            r.args@ == self.spec_args(),
    ;

    /// Convert a value to an OSC message, with no prefix.
    fn encode(&self) -> (r: OscMessage)
        requires
            self.spec_encodable(),
        ensures
            r.addr@ == self.spec_addr(Seq::empty()),
            r.args@ == self.spec_args(),
    {
        let v: Vec<String> = Vec::new();
        assert(views(v@) =~= Seq::<Seq<char>>::empty());
        self.to_message(v)
    }
}

/// A message with this trait can be decoded from OSC.
pub trait OSCDecodable: Sized {
    /// What `deconstruct_osc` gives for the remaining address `prefix` of `message`.
    spec fn spec_deconstruct(prefix: Seq<char>, message: OscMessage) -> Option<Self>;

    /// Whether `deconstruct_osc` fails outright (an unimplemented branch or a missing argument).
    spec fn spec_deconstruct_panics(prefix: Seq<char>, message: OscMessage) -> bool;

    /// Decode from an OSC message. This is probably the method that you want to call.
    fn from_osc_message(message: &OscMessage) -> (r: Option<Self>)
        requires
            message.addr@.len() > 0 ==> !Self::spec_deconstruct_panics(
                strip_slash(message.addr@),
                *message,
            ),
        ensures
            message.addr@.len() == 0 ==> r is None,
            message.addr@.len() > 0 ==> r == Self::spec_deconstruct(
                strip_slash(message.addr@),
                *message,
            ),
    {
        if message.addr.as_str().unicode_len() == 0 {
            return None;
        }
        // trim off the leading slash
        let rest = strip_first_char(message.addr.as_str(), '/');
        Self::deconstruct_osc(rest, message)
    }

    /// Step through an OSC message whose address, from here on, is `prefix`.
    fn deconstruct_osc(prefix: &str, message: &OscMessage) -> (r: Option<Self>)
        requires
            !Self::spec_deconstruct_panics(prefix@, *message),
        ensures
            r == Self::spec_deconstruct(prefix@, *message),
    ;
}

} // verus!
