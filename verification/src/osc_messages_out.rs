//! Messages that the server sends out to clients.
use vstd::prelude::*;
use vstd::string::*;

use crate::osc::{OscArg, OscMessage};
use crate::osc_messages_in::PerformerToggle;
use crate::text::{join, slash, split_once, split_once_char, str_eq, views, join_slash, strip_first_char, lemma_join_root, lemma_join_three, lemma_join_push, lemma_split_once_concat, lemma_split_once_none};
use crate::{is_root_prefix, spec_from_osc_message, spec_from_osc_message_panics};
use crate::{OSCDecodable, OSCEncodable, UserIDType, UserType, strip_slash, user_type_code, user_type_of};

verus! {

/// A message from the server.
#[derive(PartialEq, Debug, Clone)]
pub enum ServerMessage {
    Scene(SceneMessage),
    Timing,
    Performer(PerformerServerMessage),
    Backing(BackingMessage),
    Status(StatusMessage),
}

impl OSCEncodable for ServerMessage {
    // add a starting slash for consistency
    open spec fn spec_base_prefix() -> Seq<char> {
        "/server"@
    }

    open spec fn spec_variant_prefix(&self) -> Seq<char> {
        match self {
            Self::Scene(_) => "scene"@,
            Self::Timing => "timing"@,
            Self::Performer(_) => "performer"@,
            Self::Backing(_) => "backing"@,
            Self::Status(_) => "status"@,
        }
    }

    /// Timing messages have no encoding.
    open spec fn spec_encodable(&self) -> bool {
        !(self is Timing)
    }

    open spec fn spec_addr(&self, prefix: Seq<Seq<char>>) -> Seq<char> {
        let p = prefix.push(Self::spec_base_prefix());
        match self {
            Self::Scene(msg) => msg.spec_addr(p),
            Self::Timing => Seq::empty(),
            Self::Performer(psm) => psm.spec_addr(p),
            Self::Backing(msg) => msg.spec_addr(p),
            Self::Status(s) => s.spec_addr(p),
        }
    }

    open spec fn spec_args(&self) -> Seq<OscArg> {
        match self {
            Self::Scene(msg) => msg.spec_args(),
            Self::Timing => Seq::empty(),
            Self::Performer(psm) => psm.spec_args(),
            Self::Backing(msg) => msg.spec_args(),
            Self::Status(s) => s.spec_args(),
        }
    }

    fn base_prefix() -> (r: String) {
        "/server".to_owned()
    }

    fn variant_prefix(&self) -> (r: String) {
        match self {
            Self::Scene(_) => "scene",
            Self::Timing => "timing",
            Self::Performer(_) => "performer",
            Self::Backing(_) => "backing",
            Self::Status(_) => "status",
        }.to_owned()
    }

    fn to_message(&self, existing_prefix: Vec<String>) -> (r: OscMessage) {
        let mut existing_prefix = existing_prefix;
        let ghost p = views(existing_prefix@);
        existing_prefix.push(Self::base_prefix());
        assert(views(existing_prefix@) =~= p.push(Self::spec_base_prefix()));
        match self {
            Self::Scene(msg) => msg.to_message(existing_prefix),
            Self::Timing => {
                assert(false);
                OscMessage { addr: String::new(), args: Vec::new() }
            },
            Self::Performer(psm) => psm.to_message(existing_prefix),
            Self::Backing(msg) => msg.to_message(existing_prefix),
            Self::Status(s) => s.to_message(existing_prefix),
        }
    }
}

impl OSCDecodable for ServerMessage {
    /// The hierarchy starts at "server"; a leading slash before it is passed over.
    open spec fn spec_deconstruct(prefix: Seq<char>, message: OscMessage) -> Option<Self> {
        match split_once(strip_slash(prefix), '/') {
            Some((start, rest)) => {
                if start != "server"@ {
                    None
                } else {
                    match split_once(rest, '/') {
                        Some((kind, tail)) => {
                            if kind == "scene"@ {
                                match SceneMessage::spec_deconstruct(tail, message) {
                                    Some(m) => Some(Self::Scene(m)),
                                    None => None,
                                }
                            } else if kind == "performer"@ {
                                match PerformerServerMessage::spec_deconstruct(tail, message) {
                                    Some(m) => Some(Self::Performer(m)),
                                    None => None,
                                }
                            } else {
                                None
                            }
                        },
                        None => None,
                    }
                }
            },
            None => None,
        }
    }

    open spec fn spec_deconstruct_panics(prefix: Seq<char>, message: OscMessage) -> bool {
        match split_once(strip_slash(prefix), '/') {
            Some((start, rest)) => {
                start == "server"@ && match split_once(rest, '/') {
                    Some((kind, tail)) => kind == "scene"@ && SceneMessage::spec_deconstruct_panics(
                        tail,
                        message,
                    ),
                    None => false,
                }
            },
            None => false,
        }
    }

    fn deconstruct_osc(prefix: &str, message: &OscMessage) -> (r: Option<Self>) {
        // this one is special, since it starts the hierarchy
        let prefix = strip_first_char(prefix, '/');
        let trimmed_prefix = if let Some((start, rest)) = split_once_char(prefix, '/') {
            if !str_eq(start, "server") {
                return None;
            }
            rest
        } else {
            return None;
        };
        if let Some((start, rest)) = split_once_char(trimmed_prefix, '/') {
            if str_eq(start, "scene") {
                match SceneMessage::deconstruct_osc(rest, message) {
                    Some(m) => Some(Self::Scene(m)),
                    None => None,
                }
            } else if str_eq(start, "performer") {
                match PerformerServerMessage::deconstruct_osc(rest, message) {
                    Some(m) => Some(Self::Performer(m)),
                    None => None,
                }
            } else {
                None
            }
        } else {
            None
        }
    }
}

/// Messages relating to the scene itself.
#[derive(PartialEq, Debug, Copy, Clone, Structural)]
pub enum SceneMessage {
    State(i32),
}

impl OSCEncodable for SceneMessage {
    open spec fn spec_base_prefix() -> Seq<char> {
        "scene"@
    }

    open spec fn spec_variant_prefix(&self) -> Seq<char> {
        "state"@
    }

    open spec fn spec_encodable(&self) -> bool {
        true
    }

    open spec fn spec_addr(&self, prefix: Seq<Seq<char>>) -> Seq<char> {
        join(prefix.push(Self::spec_base_prefix()).push(self.spec_variant_prefix()), slash())
    }

    open spec fn spec_args(&self) -> Seq<OscArg> {
        match self {
            Self::State(n) => seq![OscArg::Int(*n)],
        }
    }

    fn base_prefix() -> (r: String) {
        "scene".to_owned()
    }

    fn variant_prefix(&self) -> (r: String) {
        match self {
            Self::State(_) => "state",
        }.to_owned()
    }

    fn to_message(&self, existing_prefix: Vec<String>) -> (r: OscMessage) {
        let mut existing_prefix = existing_prefix;
        let ghost p = views(existing_prefix@);
        existing_prefix.push(Self::base_prefix());
        existing_prefix.push(self.variant_prefix());
        assert(views(existing_prefix@) =~= p.push(Self::spec_base_prefix()).push(
            self.spec_variant_prefix(),
        ));
        let pfx = join_slash(&existing_prefix);
        match self {
            Self::State(state_num) => {
                let mut args = Vec::new();
                args.push(OscArg::Int(*state_num));
                let r = OscMessage { addr: pfx, args };
                assert(r.args@ =~= self.spec_args());
                r
            },
        }
    }
}

impl OSCDecodable for SceneMessage {
    open spec fn spec_deconstruct(prefix: Seq<char>, message: OscMessage) -> Option<Self> {
        if split_once(prefix, '/') is Some {
            None
        } else if prefix == "state"@ {
            match message.args@[0] {
                OscArg::Int(i) => Some(Self::State(i)),
                _ => None,
            }
        } else {
            None
        }
    }

    /// A "state" message without arguments has no first argument to read.
    open spec fn spec_deconstruct_panics(prefix: Seq<char>, message: OscMessage) -> bool {
        split_once(prefix, '/') is None && prefix == "state"@ && message.args@.len() == 0
    }

    fn deconstruct_osc(prefix: &str, message: &OscMessage) -> (r: Option<Self>) {
        if split_once_char(prefix, '/').is_some() {
            None
        } else if str_eq(prefix, "state") {
            match &message.args[0] {
                OscArg::Int(i) => Some(Self::State(*i)),
                _ => None,
            }
        } else {
            None
        }
    }
}

/// Users joining, leaving and coming back.
#[derive(PartialEq, Debug, Copy, Clone, Structural)]
pub enum StatusMessage {
    UserAdd(UserIDType, UserType),
    UserRemove(UserIDType, UserType),
    UserReconnect(UserIDType, UserType),
}

impl StatusMessage {
    /// The user that the message is about.
    pub open spec fn spec_user(&self) -> (UserIDType, UserType) {
        match self {
            Self::UserAdd(id, ut) | Self::UserRemove(id, ut) | Self::UserReconnect(id, ut) => (
                *id,
                *ut,
            ),
        }
    }
}

impl OSCEncodable for StatusMessage {
    open spec fn spec_base_prefix() -> Seq<char> {
        "status"@
    }

    open spec fn spec_variant_prefix(&self) -> Seq<char> {
        match self {
            Self::UserAdd(_, _) => "useradd"@,
            Self::UserRemove(_, _) => "userremove"@,
            Self::UserReconnect(_, _) => "userreconnect"@,
        }
    }

    open spec fn spec_encodable(&self) -> bool {
        true
    }

    open spec fn spec_addr(&self, prefix: Seq<Seq<char>>) -> Seq<char> {
        join(prefix.push(Self::spec_base_prefix()).push(self.spec_variant_prefix()), slash())
    }

    open spec fn spec_args(&self) -> Seq<OscArg> {
        seq![
            OscArg::Int(self.spec_user().0 as i32),
            OscArg::Int(user_type_code(self.spec_user().1)),
        ]
    }

    fn base_prefix() -> (r: String) {
        "status".to_owned()
    }

    fn variant_prefix(&self) -> (r: String) {
        match self {
            Self::UserAdd(_, _) => "useradd",
            Self::UserRemove(_, _) => "userremove",
            Self::UserReconnect(_, _) => "userreconnect",
        }.to_owned()
    }

    fn to_message(&self, existing_prefix: Vec<String>) -> (r: OscMessage) {
        let mut existing_prefix = existing_prefix;
        let ghost p = views(existing_prefix@);
        existing_prefix.push(Self::base_prefix());
        existing_prefix.push(self.variant_prefix());
        assert(views(existing_prefix@) =~= p.push(Self::spec_base_prefix()).push(
            self.spec_variant_prefix(),
        ));
        let pfx = join_slash(&existing_prefix);
        let (id, ut) = match self {
            Self::UserAdd(id, ut) | Self::UserRemove(id, ut) | Self::UserReconnect(id, ut) => (
                *id,
                *ut,
            ),
        };
        let mut args = Vec::new();
        args.push(OscArg::Int(id as i32));
        args.push(OscArg::Int(ut.code()));
        let r = OscMessage { addr: pfx, args };
        assert(r.args@ =~= self.spec_args());
        r
    }
}

impl OSCDecodable for StatusMessage {
    open spec fn spec_deconstruct(prefix: Seq<char>, message: OscMessage) -> Option<Self> {
        if split_once(prefix, '/') is Some {
            None
        } else if message.args@.len() != 2 {
            None
        } else {
            match (message.args@[0], message.args@[1]) {
                (OscArg::Int(id), OscArg::Int(ut)) => {
                    if prefix == "useradd"@ {
                        Some(Self::UserAdd(id as u16, user_type_of(ut)))
                    } else if prefix == "userremove"@ {
                        Some(Self::UserRemove(id as u16, user_type_of(ut)))
                    } else if prefix == "userreconnect"@ {
                        Some(Self::UserReconnect(id as u16, user_type_of(ut)))
                    } else {
                        None
                    }
                },
                _ => None,
            }
        }
    }

    /// A user type code other than 1 or 2 names no user type.
    open spec fn spec_deconstruct_panics(prefix: Seq<char>, message: OscMessage) -> bool {
        &&& split_once(prefix, '/') is None
        &&& message.args@.len() == 2
        &&& (prefix == "useradd"@ || prefix == "userremove"@ || prefix == "userreconnect"@)
        &&& message.args@[0] is Int
        &&& match message.args@[1] {
            OscArg::Int(ut) => ut != 1 && ut != 2,
            _ => false,
        }
    }

    fn deconstruct_osc(prefix: &str, message: &OscMessage) -> (r: Option<Self>) {
        if split_once_char(prefix, '/').is_some() {
            None
        } else {
            if message.args.len() != 2 {
                return None;
            }
            match (&message.args[0], &message.args[1]) {
                (OscArg::Int(id), OscArg::Int(ut)) => {
                    if str_eq(prefix, "useradd") {
                        Some(Self::UserAdd(*id as u16, UserType::from(*ut)))
                    } else if str_eq(prefix, "userremove") {
                        Some(Self::UserRemove(*id as u16, UserType::from(*ut)))
                    } else if str_eq(prefix, "userreconnect") {
                        Some(Self::UserReconnect(*id as u16, UserType::from(*ut)))
                    } else {
                        None
                    }
                },
                _ => None,
            }
        }
    }
}

/// Control of the backing track.
#[derive(PartialEq, Debug, Clone)]
pub enum BackingMessage {
    Stop,
    /// How many samples in should the sound start?
    Start(i32),
    /// Load a new backing track with the given descriptor
    New(String),
}

impl OSCEncodable for BackingMessage {
    open spec fn spec_base_prefix() -> Seq<char> {
        "backing"@
    }

    open spec fn spec_variant_prefix(&self) -> Seq<char> {
        match self {
            Self::Start(_) => "start"@,
            Self::Stop => "stop"@,
            Self::New(_) => "new"@,
        }
    }

    open spec fn spec_encodable(&self) -> bool {
        true
    }

    open spec fn spec_addr(&self, prefix: Seq<Seq<char>>) -> Seq<char> {
        join(prefix.push(Self::spec_base_prefix()).push(self.spec_variant_prefix()), slash())
    }

    open spec fn spec_args(&self) -> Seq<OscArg> {
        match self {
            Self::Start(ts) => seq![OscArg::Int(*ts)],
            Self::Stop => Seq::empty(),
            Self::New(song) => seq![OscArg::String(*song)],
        }
    }

    fn base_prefix() -> (r: String) {
        "backing".to_owned()
    }

    fn variant_prefix(&self) -> (r: String) {
        match self {
            Self::Start(_) => "start",
            Self::Stop => "stop",
            Self::New(_) => "new",
        }.to_owned()
    }

    fn to_message(&self, existing_prefix: Vec<String>) -> (r: OscMessage) {
        let mut existing_prefix = existing_prefix;
        let ghost p = views(existing_prefix@);
        existing_prefix.push(Self::base_prefix());
        existing_prefix.push(self.variant_prefix());
        assert(views(existing_prefix@) =~= p.push(Self::spec_base_prefix()).push(
            self.spec_variant_prefix(),
        ));
        let pfx = join_slash(&existing_prefix);
        let mut args = Vec::new();
        match self {
            Self::Start(ts) => args.push(OscArg::Int(*ts)),
            Self::Stop => {},
            Self::New(new_song) => args.push(OscArg::String(new_song.clone())),
        }
        let r = OscMessage { addr: pfx, args };
        assert(r.args@ =~= self.spec_args());
        r
    }
}

impl OSCDecodable for BackingMessage {
    /// A "new" message with an integer argument is read as a start.
    open spec fn spec_deconstruct(prefix: Seq<char>, message: OscMessage) -> Option<Self> {
        if split_once(prefix, '/') is Some {
            None
        } else if prefix == "stop"@ {
            Some(Self::Stop)
        } else if prefix == "start"@ || prefix == "new"@ {
            if message.args@.len() > 0 {
                match message.args@[0] {
                    OscArg::Int(i) => Some(Self::Start(i)),
                    OscArg::String(s) => Some(Self::New(s)),
                    _ => None,
                }
            } else {
                None
            }
        } else {
            None
        }
    }

    open spec fn spec_deconstruct_panics(prefix: Seq<char>, message: OscMessage) -> bool {
        false
    }

    fn deconstruct_osc(prefix: &str, message: &OscMessage) -> (r: Option<Self>) {
        if split_once_char(prefix, '/').is_some() {
            None
        } else if str_eq(prefix, "stop") {
            Some(Self::Stop)
        } else if str_eq(prefix, "start") || str_eq(prefix, "new") {
            if message.args.len() > 0 {
                match &message.args[0] {
                    OscArg::Int(i) => Some(Self::Start(*i)),
                    OscArg::String(s) => Some(Self::New(s.clone())),
                    _ => None,
                }
            } else {
                None
            }
        } else {
            None
        }
    }
}

/// Messages sent to a performer from the server, matchmaking among them.
#[derive(PartialEq, Debug, Clone, Copy, Structural)]
pub enum PerformerServerMessage {
    Ready(bool),
    Toggle(PerformerToggle),
    MatchMake(MatchMakeMessage),
}

impl OSCEncodable for PerformerServerMessage {
    open spec fn spec_base_prefix() -> Seq<char> {
        "performer"@
    }

    open spec fn spec_variant_prefix(&self) -> Seq<char> {
        match self {
            Self::MatchMake(_) => "matchmake"@,
            Self::Ready(_) => "ready"@,
            Self::Toggle(_) => "toggle"@,
        }
    }

    open spec fn spec_encodable(&self) -> bool {
        true
    }

    open spec fn spec_addr(&self, prefix: Seq<Seq<char>>) -> Seq<char> {
        let p = prefix.push(Self::spec_base_prefix()).push(self.spec_variant_prefix());
        match self {
            Self::Ready(_) => join(p, slash()),
            Self::Toggle(pt) => pt.spec_addr(p),
            Self::MatchMake(mm) => mm.spec_addr(p),
        }
    }

    open spec fn spec_args(&self) -> Seq<OscArg> {
        match self {
            Self::Ready(b) => seq![OscArg::Bool(*b)],
            Self::Toggle(pt) => pt.spec_args(),
            Self::MatchMake(mm) => mm.spec_args(),
        }
    }

    fn base_prefix() -> (r: String) {
        "performer".to_owned()
    }

    fn variant_prefix(&self) -> (r: String) {
        match self {
            Self::MatchMake(_) => "matchmake",
            Self::Ready(_) => "ready",
            Self::Toggle(_) => "toggle",
        }.to_owned()
    }

    fn to_message(&self, addr: Vec<String>) -> (r: OscMessage) {
        let mut addr = addr;
        let ghost p = views(addr@);
        addr.push(Self::base_prefix());
        addr.push(self.variant_prefix());
        assert(views(addr@) =~= p.push(Self::spec_base_prefix()).push(self.spec_variant_prefix()));
        match self {
            Self::Ready(b) => {
                let pfx = join_slash(&addr);
                let mut args = Vec::new();
                args.push(OscArg::Bool(*b));
                let r = OscMessage { addr: pfx, args };
                assert(r.args@ =~= self.spec_args());
                r
            },
            Self::Toggle(pt) => pt.to_message(addr),
            Self::MatchMake(mm) => mm.to_message(addr),
        }
    }
}

impl OSCDecodable for PerformerServerMessage {
    open spec fn spec_deconstruct(prefix: Seq<char>, message: OscMessage) -> Option<Self> {
        match split_once(prefix, '/') {
            Some((start, rest)) => {
                if start == "matchmake"@ {
                    match MatchMakeMessage::spec_deconstruct(rest, message) {
                        Some(m) => Some(Self::MatchMake(m)),
                        None => None,
                    }
                } else if start == "toggle"@ {
                    match PerformerToggle::spec_deconstruct(rest, message) {
                        Some(t) => Some(Self::Toggle(t)),
                        None => None,
                    }
                } else {
                    None
                }
            },
            None => {
                if message.args@.len() != 1 {
                    None
                } else if prefix == "ready"@ {
                    match message.args@[0] {
                        OscArg::Bool(b) => Some(Self::Ready(b)),
                        _ => None,
                    }
                } else {
                    None
                }
            },
        }
    }

    open spec fn spec_deconstruct_panics(prefix: Seq<char>, message: OscMessage) -> bool {
        false
    }

    fn deconstruct_osc(prefix: &str, message: &OscMessage) -> (r: Option<Self>) {
        if let Some((start, rest)) = split_once_char(prefix, '/') {
            if str_eq(start, "matchmake") {
                match MatchMakeMessage::deconstruct_osc(rest, message) {
                    Some(m) => Some(Self::MatchMake(m)),
                    None => None,
                }
            } else if str_eq(start, "toggle") {
                match PerformerToggle::deconstruct_osc(rest, message) {
                    Some(t) => Some(Self::Toggle(t)),
                    None => None,
                }
            } else {
                None
            }
        } else {
            if message.args.len() != 1 {
                return None;
            }
            if str_eq(prefix, "ready") {
                match &message.args[0] {
                    OscArg::Bool(b) => Some(Self::Ready(*b)),
                    _ => None,
                }
            } else {
                None
            }
        }
    }
}

/// Matchmaking among performers.
#[derive(PartialEq, Debug, Clone, Copy, Structural)]
pub enum MatchMakeMessage {
    Request,
}

impl OSCEncodable for MatchMakeMessage {
    open spec fn spec_base_prefix() -> Seq<char> {
        "matchmake"@
    }

    open spec fn spec_variant_prefix(&self) -> Seq<char> {
        "request"@
    }

    open spec fn spec_encodable(&self) -> bool {
        true
    }

    open spec fn spec_addr(&self, prefix: Seq<Seq<char>>) -> Seq<char> {
        join(prefix.push(Self::spec_base_prefix()), slash()) + "/request"@
    }

    open spec fn spec_args(&self) -> Seq<OscArg> {
        Seq::empty()
    }

    fn base_prefix() -> (r: String) {
        "matchmake".to_owned()
    }

    fn variant_prefix(&self) -> (r: String) {
        match self {
            Self::Request => "request",
        }.to_owned()
    }

    fn to_message(&self, existing_prefix: Vec<String>) -> (r: OscMessage) {
        let mut existing_prefix = existing_prefix;
        let ghost p = views(existing_prefix@);
        existing_prefix.push(Self::base_prefix());
        assert(views(existing_prefix@) =~= p.push(Self::spec_base_prefix()));
        let pfx = join_slash(&existing_prefix);
        match self {
            Self::Request => {
                let r = OscMessage { addr: pfx.concat("/request"), args: Vec::new() };
                assert(r.args@ =~= self.spec_args());
                r
            },
        }
    }
}

impl OSCDecodable for MatchMakeMessage {
    /// Any message whose whole address holds a slash is refused.
    open spec fn spec_deconstruct(prefix: Seq<char>, message: OscMessage) -> Option<Self> {
        if split_once(message.addr@, '/') is Some {
            None
        } else if prefix == "request"@ {
            Some(Self::Request)
        } else {
            None
        }
    }

    open spec fn spec_deconstruct_panics(prefix: Seq<char>, message: OscMessage) -> bool {
        false
    }

    fn deconstruct_osc(prefix: &str, message: &OscMessage) -> (r: Option<Self>) {
        if split_once_char(message.addr.as_str(), '/').is_some() {
            return None;
        }
        if str_eq(prefix, "request") {
            Some(Self::Request)
        } else {
            None
        }
    }
}

/// The address the server gives a message of kind `kind` and variant `variant`
/// under a root prefix, with its leading slashes taken off, is
/// "server/<kind>/<variant>".
proof fn lemma_server_address(prefix: Seq<Seq<char>>, kind: Seq<char>, variant: Seq<char>)
    requires
        is_root_prefix(prefix),
    ensures
        strip_slash(strip_slash(join(prefix.push("/server"@).push(kind).push(variant), slash())))
            == "server"@ + slash() + (kind + slash() + variant),
{
    reveal_strlit("/server");
    reveal_strlit("server");
    let parts = seq!["/server"@, kind, variant];
    assert(prefix.push("/server"@).push(kind).push(variant) =~= prefix + parts);
    lemma_join_root(prefix, parts, slash());
    lemma_join_three("/server"@, kind, variant, slash());
    let body = "server"@ + slash() + (kind + slash() + variant);
    assert(join(parts, slash()) =~= slash() + body);
    assert(body[0] == 's');
    if prefix.len() == 0 {
        assert(strip_slash(slash() + body) =~= body);
    } else {
        assert(strip_slash(slash() + (slash() + body)) =~= slash() + body);
        assert(strip_slash(slash() + body) =~= body);
    }
}

/// A "ready" message to performers, sent under no prefix or under a single
/// empty segment, is read back as the same message.
pub proof fn lemma_server_ready_roundtrip(b: bool, prefix: Seq<Seq<char>>, m: OscMessage)
    requires
        is_root_prefix(prefix),
        m.addr@ == ServerMessage::Performer(PerformerServerMessage::Ready(b)).spec_addr(prefix),
        m.args@ == ServerMessage::Performer(PerformerServerMessage::Ready(b)).spec_args(),
    ensures
        !spec_from_osc_message_panics::<ServerMessage>(m),
        spec_from_osc_message::<ServerMessage>(m) == Some(
            ServerMessage::Performer(PerformerServerMessage::Ready(b)),
        ),
{
    reveal_strlit("server");
    reveal_strlit("performer");
    reveal_strlit("ready");
    reveal_strlit("scene");
    lemma_server_address(prefix, "performer"@, "ready"@);
    assert(m.addr@.len() > 0);
    lemma_split_once_concat("server"@, '/', "performer"@ + slash() + "ready"@);
    lemma_split_once_concat("performer"@, '/', "ready"@);
    lemma_split_once_none("ready"@, '/');
}

/// A scene-state message, sent under no prefix or under a single empty
/// segment, is read back as the same message.
pub proof fn lemma_server_scene_roundtrip(n: i32, prefix: Seq<Seq<char>>, m: OscMessage)
    requires
        is_root_prefix(prefix),
        m.addr@ == ServerMessage::Scene(SceneMessage::State(n)).spec_addr(prefix),
        m.args@ == ServerMessage::Scene(SceneMessage::State(n)).spec_args(),
    ensures
        !spec_from_osc_message_panics::<ServerMessage>(m),
        spec_from_osc_message::<ServerMessage>(m) == Some(ServerMessage::Scene(SceneMessage::State(n))),
{
    reveal_strlit("server");
    reveal_strlit("scene");
    reveal_strlit("state");
    lemma_server_address(prefix, "scene"@, "state"@);
    assert(m.addr@.len() > 0);
    lemma_split_once_concat("server"@, '/', "scene"@ + slash() + "state"@);
    lemma_split_once_concat("scene"@, '/', "state"@);
    lemma_split_once_none("state"@, '/');
}

/// A backing-track message is read back from its own variant name and arguments.
pub proof fn lemma_backing_roundtrip(msg: BackingMessage, m: OscMessage)
    requires
        m.args@ == msg.spec_args(),
    ensures
        BackingMessage::spec_deconstruct(msg.spec_variant_prefix(), m) == Some(msg),
{
    reveal_strlit("stop");
    reveal_strlit("start");
    reveal_strlit("new");
    lemma_split_once_none("stop"@, '/');
    lemma_split_once_none("start"@, '/');
    lemma_split_once_none("new"@, '/');
}

/// The name a backing-track message is sent under.
pub open spec fn backing_name(m: BackingMessage) -> Seq<char> {
    match m {
        BackingMessage::Start(_) => "start"@,
        BackingMessage::Stop => "stop"@,
        BackingMessage::New(_) => "new"@,
    }
}

/// Each backing-track message goes out under "/server", "backing" and then
/// its own name: "start" to start the track, "stop" to stop it, "new" to load
/// another; so different kinds of message get different addresses, and the
/// reader takes each name with its arguments back to the same message.
pub proof fn lemma_backing_names(
    m: BackingMessage,
    n: BackingMessage,
    prefix: Seq<Seq<char>>,
    msg: OscMessage,
)
    ensures
        m.spec_variant_prefix() == backing_name(m),
        ServerMessage::Backing(m).spec_addr(prefix) == join(
            prefix.push("/server"@).push("backing"@).push(backing_name(m)),
            slash(),
        ),
        (m is Start) != (n is Start) || (m is Stop) != (n is Stop) ==> ServerMessage::Backing(
            m,
        ).spec_addr(prefix) != ServerMessage::Backing(n).spec_addr(prefix),
        msg.args@ == m.spec_args() ==> BackingMessage::spec_deconstruct(backing_name(m), msg)
            == Some(m),
{
    reveal_strlit("start");
    reveal_strlit("stop");
    reveal_strlit("new");
    assert("start"@.len() == 5 && "stop"@.len() == 4 && "new"@.len() == 3);
    lemma_split_once_none("stop"@, '/');
    lemma_split_once_none("start"@, '/');
    lemma_split_once_none("new"@, '/');
    let a = prefix.push("/server"@).push("backing"@);
    lemma_join_push(a, backing_name(m), slash());
    lemma_join_push(a, backing_name(n), slash());
    let base = join(a, slash()) + slash();
    assert(ServerMessage::Backing(m).spec_addr(prefix) =~= base + backing_name(m));
    assert(ServerMessage::Backing(n).spec_addr(prefix) =~= base + backing_name(n));
    if backing_name(m) != backing_name(n) {
        assert((base + backing_name(m)).len() != (base + backing_name(n)).len());
    }
}

/// A status message is read back from its own variant name and arguments.
pub proof fn lemma_status_roundtrip(msg: StatusMessage, m: OscMessage)
    requires
        m.args@ == msg.spec_args(),
    ensures
        !StatusMessage::spec_deconstruct_panics(msg.spec_variant_prefix(), m),
        StatusMessage::spec_deconstruct(msg.spec_variant_prefix(), m) == Some(msg),
{
    reveal_strlit("useradd");
    reveal_strlit("userremove");
    reveal_strlit("userreconnect");
    lemma_split_once_none("useradd"@, '/');
    lemma_split_once_none("userremove"@, '/');
    lemma_split_once_none("userreconnect"@, '/');
    let id = msg.spec_user().0;
    assert((id as i32) as u16 == id);
}

} // verus!
