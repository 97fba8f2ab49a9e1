//! Messages that the server receives from clients.
use vstd::prelude::*;

use crate::osc::{OscArg, OscMessage};
use crate::text::{join, slash, split_once, split_once_char, str_eq, views, join_slash, lemma_join_two, lemma_join_push, lemma_split_once_concat, lemma_split_once_none};
use crate::{is_root_prefix, spec_from_osc_message, spec_from_osc_message_panics, strip_slash};
use crate::{OSCDecodable, OSCEncodable};

verus! {

/// A message from a client.
#[derive(PartialEq, Debug)]
pub enum ClientMessage {
    Any,
    Audience,
    Performer(PerformerClientMessage),
}

impl OSCEncodable for ClientMessage {
    open spec fn spec_base_prefix() -> Seq<char> {
        "/client"@
    }

    open spec fn spec_variant_prefix(&self) -> Seq<char> {
        match self {
            Self::Any => "any"@,
            Self::Audience => "audience"@,
            Self::Performer(_) => "performer"@,
        }
    }

    /// Only performer messages have an encoding.
    open spec fn spec_encodable(&self) -> bool {
        self is Performer
    }

    open spec fn spec_addr(&self, prefix: Seq<Seq<char>>) -> Seq<char> {
        match self {
            Self::Performer(pcm) => pcm.spec_addr(prefix),
            _ => Seq::empty(),
        }
    }

    open spec fn spec_args(&self) -> Seq<OscArg> {
        match self {
            Self::Performer(pcm) => pcm.spec_args(),
            _ => Seq::empty(),
        }
    }

    fn base_prefix() -> (r: String) {
        "/client".to_owned()
    }

    fn variant_prefix(&self) -> (r: String) {
        match self {
            Self::Any => "any",
            Self::Audience => "audience",
            Self::Performer(_) => "performer",
        }.to_owned()
    }

    fn to_message(&self, addr: Vec<String>) -> (r: OscMessage) {
        match self {
            Self::Performer(pcm) => pcm.to_message(addr),
            _ => {
                assert(false);
                OscMessage { addr: String::new(), args: Vec::new() }
            },
        }
    }
}

impl OSCDecodable for ClientMessage {
    open spec fn spec_deconstruct(working: Seq<char>, message: OscMessage) -> Option<Self> {
        match split_once(working, '/') {
            Some((start, rest)) => {
                if start == "performer"@ {
                    match PerformerClientMessage::spec_deconstruct(rest, message) {
                        Some(p) => Some(Self::Performer(p)),
                        None => None,
                    }
                } else {
                    None
                }
            },
            None => None,
        }
    }

    /// The "any" and "audience" branches are not implemented.
    open spec fn spec_deconstruct_panics(working: Seq<char>, message: OscMessage) -> bool {
        match split_once(working, '/') {
            Some((start, rest)) => {
                ||| start == "any"@
                ||| start == "audience"@
                ||| (start == "performer"@ && PerformerClientMessage::spec_deconstruct_panics(
                    rest,
                    message,
                ))
            },
            None => false,
        }
    }

    fn deconstruct_osc(working_str: &str, message: &OscMessage) -> (r: Option<Self>) {
        if let Some((start, rest)) = split_once_char(working_str, '/') {
            if str_eq(start, "any") || str_eq(start, "audience") {
                assert(false);
                None
            } else if str_eq(start, "performer") {
                match PerformerClientMessage::deconstruct_osc(rest, message) {
                    Some(p) => Some(Self::Performer(p)),
                    None => None,
                }
            } else {
                None
            }
        } else {
            None
        }
    }
}

/// A switch that a performer turns on or off.
#[derive(PartialEq, Debug, Copy, Clone, Structural)]
pub enum PerformerToggle {
    Audio(bool),
    Actor(bool),
    Motion(bool),
}

impl PerformerToggle {
    /// Whether the switch is on.
    pub open spec fn spec_value(&self) -> bool {
        match self {
            Self::Audio(b) | Self::Actor(b) | Self::Motion(b) => *b,
        }
    }
}

impl OSCEncodable for PerformerToggle {
    open spec fn spec_base_prefix() -> Seq<char> {
        "toggle"@
    }

    open spec fn spec_variant_prefix(&self) -> Seq<char> {
        match self {
            Self::Audio(_) => "audio"@,
            Self::Actor(_) => "actor"@,
            Self::Motion(_) => "motion"@,
        }
    }

    open spec fn spec_encodable(&self) -> bool {
        true
    }

    open spec fn spec_addr(&self, prefix: Seq<Seq<char>>) -> Seq<char> {
        join(prefix.push(Self::spec_base_prefix()).push(self.spec_variant_prefix()), slash())
    }

    open spec fn spec_args(&self) -> Seq<OscArg> {
        seq![OscArg::Bool(self.spec_value())]
    }

    fn base_prefix() -> (r: String) {
        "toggle".to_owned()
    }

    fn variant_prefix(&self) -> (r: String) {
        match self {
            Self::Audio(_) => "audio",
            Self::Actor(_) => "actor",
            Self::Motion(_) => "motion",
        }.to_owned()
    }

    fn to_message(&self, existing_prefix: Vec<String>) -> (r: OscMessage) {
        let mut existing_prefix = existing_prefix;
        let ghost p = views(existing_prefix@);
        existing_prefix.push(Self::base_prefix());
        existing_prefix.push(self.variant_prefix());
        assert(views(existing_prefix@) =~= p.push(Self::spec_base_prefix()).push(
            self.spec_variant_prefix(),
        ));
        let val = match self {
            Self::Audio(b) | Self::Actor(b) | Self::Motion(b) => *b,
        };
        let mut args = Vec::new();
        args.push(OscArg::Bool(val));
        let r = OscMessage { addr: join_slash(&existing_prefix), args };
        assert(r.args@ =~= self.spec_args());
        r
    }
}

impl OSCDecodable for PerformerToggle {
    open spec fn spec_deconstruct(prefix: Seq<char>, message: OscMessage) -> Option<Self> {
        match split_once(prefix, '/') {
            Some((start, _)) => {
                if message.args@.len() != 1 {
                    None
                } else {
                    match message.args@[0] {
                        OscArg::Bool(b) => {
                            if start == "audio"@ {
                                Some(Self::Audio(b))
                            } else if start == "actor"@ {
                                Some(Self::Actor(b))
                            } else if start == "motion"@ {
                                Some(Self::Motion(b))
                            } else {
                                None
                            }
                        },
                        _ => None,
                    }
                }
            },
            None => None,
        }
    }

    open spec fn spec_deconstruct_panics(prefix: Seq<char>, message: OscMessage) -> bool {
        false
    }

    fn deconstruct_osc(prefix: &str, message: &OscMessage) -> (r: Option<Self>) {
        if let Some((start, _)) = split_once_char(prefix, '/') {
            // if there's a split, the character was in the string
            if message.args.len() != 1 {
                None
            } else if let OscArg::Bool(b) = &message.args[0] {
                if str_eq(start, "audio") {
                    Some(Self::Audio(*b))
                } else if str_eq(start, "actor") {
                    Some(Self::Actor(*b))
                } else if str_eq(start, "motion") {
                    Some(Self::Motion(*b))
                } else {
                    None
                }
            } else {
                None
            }
        } else {
            None
        }
    }
}

/// A message from a performer.
#[derive(PartialEq, Debug, Copy, Clone, Structural)]
pub enum PerformerClientMessage {
    Ready(bool),
    Toggle(PerformerToggle),
}

impl OSCEncodable for PerformerClientMessage {
    open spec fn spec_base_prefix() -> Seq<char> {
        "performer"@
    }

    open spec fn spec_variant_prefix(&self) -> Seq<char> {
        match self {
            Self::Ready(_) => "ready"@,
            Self::Toggle(_) => "toggle"@,
        }
    }

    open spec fn spec_encodable(&self) -> bool {
        true
    }

    open spec fn spec_addr(&self, prefix: Seq<Seq<char>>) -> Seq<char> {
        let p = prefix.push(Self::spec_base_prefix()).push(self.spec_variant_prefix());
        match self {
            Self::Ready(_) => join(p, slash()),
            Self::Toggle(pt) => pt.spec_addr(p),
        }
    }

    open spec fn spec_args(&self) -> Seq<OscArg> {
        match self {
            Self::Ready(b) => seq![OscArg::Bool(*b)],
            Self::Toggle(pt) => pt.spec_args(),
        }
    }

    fn base_prefix() -> (r: String) {
        "performer".to_owned()
    }

    fn variant_prefix(&self) -> (r: String) {
        match self {
            Self::Ready(_) => "ready",
            Self::Toggle(_) => "toggle",
        }.to_owned()
    }

    fn to_message(&self, addr: Vec<String>) -> (r: OscMessage) {
        let mut addr = addr;
        let ghost p = views(addr@);
        addr.push(Self::base_prefix());
        addr.push(self.variant_prefix());
        assert(views(addr@) =~= p.push(Self::spec_base_prefix()).push(self.spec_variant_prefix()));
        match self {
            Self::Ready(b) => {
                let mut args = Vec::new();
                args.push(OscArg::Bool(*b));
                let r = OscMessage { addr: join_slash(&addr), args };
                assert(r.args@ =~= self.spec_args());
                r
            },
            Self::Toggle(pt) => pt.to_message(addr),
        }
    }
}

impl OSCDecodable for PerformerClientMessage {
    open spec fn spec_deconstruct(prefix: Seq<char>, message: OscMessage) -> Option<Self> {
        match split_once(prefix, '/') {
            Some((start, rest)) => {
                if start == "toggle"@ {
                    match PerformerToggle::spec_deconstruct(rest, message) {
                        Some(t) => Some(Self::Toggle(t)),
                        None => None,
                    }
                } else {
                    None
                }
            },
            None => {
                if prefix == "ready"@ {
                    match message.args@[0] {
                        OscArg::Bool(b) => Some(Self::Ready(b)),
                        _ => None,
                    }
                } else {
                    None
                }
            },
        }
    }

    /// A "ready" message without arguments has no first argument to read.
    open spec fn spec_deconstruct_panics(prefix: Seq<char>, message: OscMessage) -> bool {
        split_once(prefix, '/') is None && prefix == "ready"@ && message.args@.len() == 0
    }

    fn deconstruct_osc(prefix: &str, message: &OscMessage) -> (r: Option<Self>) {
        if let Some((start, rest)) = split_once_char(prefix, '/') {
            if str_eq(start, "toggle") {
                match PerformerToggle::deconstruct_osc(rest, message) {
                    Some(t) => Some(Self::Toggle(t)),
                    None => None,
                }
            } else {
                None
            }
        } else {
            if str_eq(prefix, "ready") {
                if let OscArg::Bool(b) = &message.args[0] {
                    Some(Self::Ready(*b))
                } else {
                    None
                }
            } else {
                None
            }
        }
    }
}

/// A performer's "ready" message, sent under no prefix or under a single empty
/// segment, is read back as the same message.
pub proof fn lemma_client_ready_roundtrip(b: bool, prefix: Seq<Seq<char>>, m: OscMessage)
    requires
        is_root_prefix(prefix),
        m.addr@ == ClientMessage::Performer(PerformerClientMessage::Ready(b)).spec_addr(prefix),
        m.args@ == ClientMessage::Performer(PerformerClientMessage::Ready(b)).spec_args(),
    ensures
        !spec_from_osc_message_panics::<ClientMessage>(m),
        spec_from_osc_message::<ClientMessage>(m) == Some(
            ClientMessage::Performer(PerformerClientMessage::Ready(b)),
        ),
{
    reveal_strlit("performer");
    reveal_strlit("ready");
    reveal_strlit("any");
    reveal_strlit("audience");
    let tail = "performer"@ + slash() + "ready"@;
    if prefix == Seq::<Seq<char>>::empty() {
        assert(prefix.push("performer"@).push("ready"@) =~= seq!["performer"@, "ready"@]);
        lemma_join_two("performer"@, "ready"@, slash());
        assert(m.addr@ == tail);
        assert(strip_slash(m.addr@) == tail);
    } else {
        let e = Seq::<char>::empty();
        assert(prefix.push("performer"@).push("ready"@) =~= seq![e, "performer"@].push("ready"@));
        lemma_join_two(e, "performer"@, slash());
        lemma_join_push(seq![e, "performer"@], "ready"@, slash());
        assert(m.addr@ =~= slash() + tail);
        assert(strip_slash(m.addr@) =~= tail);
    }
    assert(!"performer"@.contains('/'));
    assert(!"ready"@.contains('/'));
    assert(tail =~= "performer"@ + seq!['/'] + "ready"@);
    lemma_split_once_concat("performer"@, '/', "ready"@);
    lemma_split_once_none("ready"@, '/');
}

/// The name of a performer's switch, as written in a toggle's address.
pub open spec fn switch_name(t: PerformerToggle) -> Seq<char> {
    match t {
        PerformerToggle::Audio(_) => "audio"@,
        PerformerToggle::Actor(_) => "actor"@,
        PerformerToggle::Motion(_) => "motion"@,
    }
}

/// A toggle is sent under "toggle" and then its own switch's name ("audio",
/// "actor" or "motion"), so different switches are sent under different
/// addresses; and the reader takes the name the writer uses back to the same
/// switch, with the same value.
pub proof fn lemma_toggle_names(
    t: PerformerToggle,
    u: PerformerToggle,
    prefix: Seq<Seq<char>>,
    rest: Seq<char>,
    m: OscMessage,
)
    ensures
        t.spec_variant_prefix() == switch_name(t),
        t.spec_addr(prefix) == join(prefix.push("toggle"@).push(switch_name(t)), slash()),
        t.spec_args() == seq![OscArg::Bool(t.spec_value())],
        (t is Audio) != (u is Audio) || (t is Actor) != (u is Actor) ==> t.spec_addr(prefix)
            != u.spec_addr(prefix),
        m.args@ == seq![OscArg::Bool(t.spec_value())] ==> PerformerToggle::spec_deconstruct(
            t.spec_variant_prefix() + slash() + rest,
            m,
        ) == Some(t),
{
    reveal_strlit("audio");
    reveal_strlit("actor");
    reveal_strlit("motion");
    assert("audio"@.len() == 5 && "audio"@[1] == 'u');
    assert("actor"@.len() == 5 && "actor"@[1] == 'c');
    assert("motion"@.len() == 6);
    assert(!"audio"@.contains('/'));
    assert(!"actor"@.contains('/'));
    assert(!"motion"@.contains('/'));
    let a = prefix.push("toggle"@);
    lemma_join_push(a, switch_name(t), slash());
    lemma_join_push(a, switch_name(u), slash());
    let base = join(a, slash()) + slash();
    assert(t.spec_addr(prefix) =~= base + switch_name(t));
    assert(u.spec_addr(prefix) =~= base + switch_name(u));
    if switch_name(t) != switch_name(u) {
        if base + switch_name(t) == base + switch_name(u) {
            assert((base + switch_name(t)).skip(base.len() as int) =~= switch_name(t));
            assert((base + switch_name(u)).skip(base.len() as int) =~= switch_name(u));
        }
    }
    lemma_split_once_concat(switch_name(t), '/', rest);
}

} // verus!
