//! The decisions the relay server takes: what a console line asks for, how a
//! handshake ends, which datagrams are accepted, and which clients a relay
//! forwards to.
use vstd::prelude::*;
use vstd::string::*;

use crate::osc::OscBundle;
use crate::osc_codec::{decode_mocap_datagram, osc_udp_decoded};
use crate::osc::OscElement;
use crate::osc_messages_out::{ServerMessage, StatusMessage};
use crate::text::{split_once, split_once_char, str_eq};
use crate::vrl_packet::OscData;
use crate::{UserIDType, UserType};

verus! {

/// The backing track that the "default" path stands for.
pub open spec fn default_backing_track() -> Seq<char> {
    "utils\\howd_i_wind_up_here.mp3"@
}

/// What a line typed at the server console asks for.
#[derive(Debug, PartialEq)]
pub enum ConsoleCommand {
    /// List the commands.
    Help,
    /// Load the backing track at this path.
    Backing(String),
    /// Reset the server.
    Reset,
    /// Tell performers the server is ready.
    MessageReady,
    /// Start or stop the backing track.
    MessageBacking,
    /// A message the server does not know.
    UnknownMessage(String),
    /// Anything else: nothing to do.
    Nothing,
}

/// The first word of a line and the rest after the first space, if any.
pub open spec fn command_parts(line: Seq<char>) -> (Seq<char>, Option<Seq<char>>) {
    match split_once(line, ' ') {
        Some((x, y)) => (x, Some(y)),
        None => (line, None),
    }
}

/// Reads a console line: "help" or "h"; "backing" or "b" with a path ("default"
/// or "d" naming the default track); "reset"; "message", "msg" or "m" with
/// "ready", "backing" or another message. Anything else asks for nothing.
pub fn parse_command(line: &str) -> (r: ConsoleCommand)
    ensures
        ({
            let (start, rest) = command_parts(line@);
            if start == "help"@ || start == "h"@ {
                r == ConsoleCommand::Help
            } else if (start == "backing"@ || start == "b"@) && rest is Some {
                r matches ConsoleCommand::Backing(p) && p@ == (if rest->0 == "default"@ || rest->0
                    == "d"@ {
                    default_backing_track()
                } else {
                    rest->0
                })
            } else if start == "reset"@ {
                r == ConsoleCommand::Reset
            } else if (start == "message"@ || start == "msg"@ || start == "m"@) && rest is Some {
                if rest->0 == "ready"@ {
                    r == ConsoleCommand::MessageReady
                } else if rest->0 == "backing"@ {
                    r == ConsoleCommand::MessageBacking
                } else {
                    r matches ConsoleCommand::UnknownMessage(m) && m@ == rest->0
                }
            } else {
                r == ConsoleCommand::Nothing
            }
        }),
{
    proof {
        reveal_strlit("backing");
        reveal_strlit("b");
        reveal_strlit("reset");
        reveal_strlit("message");
        reveal_strlit("msg");
        reveal_strlit("m");
        assert("reset"@.len() == 5);
        assert("backing"@.len() == 7);
        assert("b"@.len() == 1);
        assert("message"@.len() == 7);
        assert("msg"@.len() == 3);
        assert("m"@.len() == 1);
        assert("backing"@[0] != "message"@[0]);
        assert("b"@[0] != "m"@[0]);
    }
    let (start, rest) = match split_once_char(line, ' ') {
        Some((x, y)) => (x, Some(y)),
        None => (line, None),
    };
    if str_eq(start, "help") || str_eq(start, "h") {
        ConsoleCommand::Help
    } else if str_eq(start, "backing") || str_eq(start, "b") {
        match rest {
            Some(path) => {
                let path = if str_eq(path, "default") || str_eq(path, "d") {
                    "utils\\howd_i_wind_up_here.mp3"
                } else {
                    path
                };
                ConsoleCommand::Backing(path.to_owned())
            },
            None => ConsoleCommand::Nothing,
        }
    } else if str_eq(start, "reset") {
        ConsoleCommand::Reset
    } else if str_eq(start, "message") || str_eq(start, "msg") || str_eq(start, "m") {
        match rest {
            Some(msg) => {
                if str_eq(msg, "ready") {
                    ConsoleCommand::MessageReady
                } else if str_eq(msg, "backing") {
                    ConsoleCommand::MessageBacking
                } else {
                    ConsoleCommand::UnknownMessage(msg.to_owned())
                }
            },
            None => ConsoleCommand::Nothing,
        }
    } else {
        ConsoleCommand::Nothing
    }
}

/// The user type a handshake's type code names: 1 an audience member, 2 a performer.
pub open spec fn user_type_from_code(code: u16) -> Option<UserType> {
    if code == 1 {
        Some(UserType::Audience)
    } else if code == 2 {
        Some(UserType::Performer)
    } else {
        None
    }
}

impl UserType {
    /// The user type a handshake's type code names, if any.
    pub fn from_code(code: u16) -> (r: Option<UserType>)
        ensures
            r == user_type_from_code(code),
    {
        match code {
            1 => Some(UserType::Audience),
            2 => Some(UserType::Performer),
            _ => None,
        }
    }
}

/// The identifier a connecting user gets: a returning user (known by address,
/// with its identifier and type) keeps its identifier; a new user gets the
/// counter's value, and the counter moves on by one, wrapping around.
/// Returns the identifier, the returning user's type, and the next counter value.
pub fn assign_user_id(existing: Option<(UserIDType, UserType)>, counter: u16) -> (r: (
    UserIDType,
    Option<UserType>,
    u16,
))
    ensures
        match existing {
            Some((id, t)) => r == (id, Some(t), counter),
            None => r == (counter, None::<UserType>, (if counter == u16::MAX {
                0
            } else {
                (counter + 1) as u16
            })),
        },
{
    match existing {
        Some((id, t)) => (id, Some(t), counter),
        None => (counter, None, if counter == u16::MAX { 0 } else { counter + 1 }),
    }
}

/// Why a handshake is refused.
#[derive(Debug, PartialEq, Eq, Structural)]
pub enum HandshakeFailure {
    /// The client answered with another identifier than the one it was given.
    UserIdMismatch,
    /// The client named a user type that does not exist.
    InvalidUserType(u16),
}

/// How an accepted handshake ends.
#[derive(Debug, PartialEq, Eq, Structural)]
pub enum HandshakeOutcome {
    /// A user came back as the same kind of user: nothing is rebuilt.
    Reconnection(UserType),
    /// A new user, or one that changed its kind: its data is built afresh.
    NewConnection(UserType),
}

/// What the server does after reading a client's answer.
#[derive(Debug)]
pub struct HandshakePlan {
    /// Drop the returning user's existing data first (it changed its kind of user).
    pub drop_existing: bool,
    /// How the handshake ends.
    pub outcome: Result<HandshakeOutcome, HandshakeFailure>,
}

/// The plan for the answer (`synack_user_id`, `synack_user_type`) to a handshake
/// started with identifier `our_user_id`, for a returning user of type `existing`
/// or a new user.
pub open spec fn spec_plan_handshake(
    our_user_id: UserIDType,
    existing: Option<UserType>,
    synack_user_id: UserIDType,
    synack_user_type: u16,
) -> Result<HandshakePlan, HandshakeFailure> {
    if synack_user_id != our_user_id {
        Err(HandshakeFailure::UserIdMismatch)
    } else {
        let named = user_type_from_code(synack_user_type);
        let same = existing is Some && named == Some(existing->0);
        Ok(
            HandshakePlan {
                drop_existing: existing is Some && !same,
                outcome: if same {
                    Ok(HandshakeOutcome::Reconnection(existing->0))
                } else {
                    match named {
                        Some(t) => Ok(HandshakeOutcome::NewConnection(t)),
                        None => Err(HandshakeFailure::InvalidUserType(synack_user_type)),
                    }
                },
            },
        )
    }
}

/// Decides how a handshake ends from the client's answer.
pub fn plan_handshake(
    our_user_id: UserIDType,
    existing: Option<UserType>,
    synack_user_id: UserIDType,
    synack_user_type: u16,
) -> (r: Result<HandshakePlan, HandshakeFailure>)
    ensures
        r == spec_plan_handshake(our_user_id, existing, synack_user_id, synack_user_type),
{
    // perform some sanity checks
    if synack_user_id != our_user_id {
        return Err(HandshakeFailure::UserIdMismatch);
    }
    let named = UserType::from_code(synack_user_type);
    let same = match (existing, named) {
        (Some(e), Some(n)) => e == n,
        _ => false,
    };
    let outcome = if same {
        match existing {
            Some(e) => Ok(HandshakeOutcome::Reconnection(e)),
            None => Err(HandshakeFailure::InvalidUserType(synack_user_type)),
        }
    } else {
        match named {
            Some(t) => Ok(HandshakeOutcome::NewConnection(t)),
            None => Err(HandshakeFailure::InvalidUserType(synack_user_type)),
        }
    };
    Ok(HandshakePlan { drop_existing: existing.is_some() && !same, outcome })
}

/// A handshake answered with the identifier it was started with is accepted.
/// The returning user's data is dropped exactly when the answer names another
/// type than the user had (code 1 an audience member, 2 a performer, any other
/// code no type at all); a user who answers with its own type reconnects, and
/// otherwise the named type connects afresh or, with no type named, the
/// answer is refused as invalid. An answer with another identifier is refused
/// as a mismatch, whatever else it says.
pub proof fn lemma_handshake_plan(
    our_user_id: UserIDType,
    existing: Option<UserType>,
    synack_user_id: UserIDType,
    synack_user_type: u16,
)
    ensures
        ({
            let r = spec_plan_handshake(our_user_id, existing, synack_user_id, synack_user_type);
            let keeps = (synack_user_type == 1 && existing == Some(UserType::Audience)) || (
            synack_user_type == 2 && existing == Some(UserType::Performer));
            &&& synack_user_id != our_user_id ==> r == Err::<HandshakePlan, HandshakeFailure>(
                HandshakeFailure::UserIdMismatch,
            )
            &&& synack_user_id == our_user_id ==> {
                &&& r is Ok
                &&& r->Ok_0.drop_existing == (existing is Some && !keeps)
                &&& keeps ==> r->Ok_0.outcome == Ok::<HandshakeOutcome, HandshakeFailure>(
                    HandshakeOutcome::Reconnection(existing->0),
                )
                &&& (!keeps && synack_user_type == 1) ==> r->Ok_0.outcome == Ok::<
                    HandshakeOutcome,
                    HandshakeFailure,
                >(HandshakeOutcome::NewConnection(UserType::Audience))
                &&& (!keeps && synack_user_type == 2) ==> r->Ok_0.outcome == Ok::<
                    HandshakeOutcome,
                    HandshakeFailure,
                >(HandshakeOutcome::NewConnection(UserType::Performer))
                &&& (synack_user_type != 1 && synack_user_type != 2) ==> r->Ok_0.outcome == Err::<
                    HandshakeOutcome,
                    HandshakeFailure,
                >(HandshakeFailure::InvalidUserType(synack_user_type))
            }
        }),
{
}

/// A returning user of type `t` that answers with its own identifier and the
/// code of its own type (1 an audience member, 2 a performer) reconnects: its
/// data is kept.
pub proof fn lemma_handshake_reconnects(id: UserIDType, t: UserType, code: u16)
    requires
        (code == 1 && t == UserType::Audience) || (code == 2 && t == UserType::Performer),
    ensures
        spec_plan_handshake(id, Some(t), id, code) == Ok::<HandshakePlan, HandshakeFailure>(
            HandshakePlan { drop_existing: false, outcome: Ok(HandshakeOutcome::Reconnection(t)) },
        ),
{
}

/// The event sent to everyone once user `user_id` of type `user_type` is
/// connected, for a new connection and for a reconnection alike.
pub fn connection_event(user_id: UserIDType, user_type: UserType) -> (r: ServerMessage)
    ensures
        r == ServerMessage::Status(StatusMessage::UserAdd(user_id, user_type)),
{
    ServerMessage::Status(StatusMessage::UserAdd(user_id, user_type))
}

/// The motion-capture bundle in a datagram from a performer: nothing where it
/// comes from anyone else or does not hold a bundle.
pub fn accept_performer_mocap(sender: UserType, bytes: &[u8]) -> (r: Option<OscBundle>)
    ensures
        r == (if sender == UserType::Performer {
            match osc_udp_decoded(bytes@) {
                Some(OscElement::Bundle(b)) => Some(b),
                _ => None,
            }
        } else {
            None
        }),
{
    if sender != UserType::Performer {
        return None;
    }
    decode_mocap_datagram(bytes)
}

/// The motion-capture data in a datagram from audience member `user_id`:
/// nothing where it does not hold a bundle.
pub fn accept_audience_mocap(user_id: UserIDType, bytes: &[u8]) -> (r: Option<OscData>)
    ensures
        r == match osc_udp_decoded(bytes@) {
            Some(OscElement::Bundle(b)) => Some(OscData { user_id, bundle: b }),
            _ => None,
        },
{
    match decode_mocap_datagram(bytes) {
        Some(b) => Some(OscData::new(b, user_id)),
        None => None,
    }
}

/// A change to the set of users that a relay forwards to.
pub enum ListenerMessage<C> {
    /// The user subscribes, giving the channel on which to reach it.
    Subscribe(UserIDType, C),
    /// The user's channel is to be dropped.
    Unsubscribe(UserIDType),
}

/// A relay's users and the channels on which to reach them, in the order they subscribed.
pub struct Listener<R, C> {
    /// Users and their channels.
    pub client_channels: Vec<(UserIDType, C)>,
    /// Where changes to the users come from.
    pub user_update_channel: R,
}

/// The first position of user `u` in `s`.
pub open spec fn first_of<C>(s: Seq<(UserIDType, C)>, u: UserIDType, k: int) -> bool {
    &&& 0 <= k < s.len()
    &&& s[k].0 == u
    &&& forall|j: int| 0 <= j < k ==> s[j].0 != u
}

/// `s` without its first entry for `u`, where it has one.
pub open spec fn without_first<C>(s: Seq<(UserIDType, C)>, u: UserIDType) -> Seq<(UserIDType, C)> {
    if exists|k: int| first_of(s, u, k) {
        s.remove(choose|k: int| first_of(s, u, k))
    } else {
        s
    }
}

/// `s` after the first entry of each of `us`, in turn, is removed.
pub open spec fn without_each<C>(s: Seq<(UserIDType, C)>, us: Seq<UserIDType>) -> Seq<(UserIDType, C)>
    decreases us.len(),
{
    if us.len() == 0 {
        s
    } else {
        without_first(without_each(s, us.drop_last()), us.last())
    }
}

/// A user that is not yet subscribed, once subscribed and then unsubscribed,
/// leaves the users and channels as they were.
pub proof fn lemma_subscribe_then_unsubscribe<C>(s: Seq<(UserIDType, C)>, u: UserIDType, c: C)
    requires
        forall|k: int| 0 <= k < s.len() ==> s[k].0 != u,
    ensures
        without_first(s.push((u, c)), u) == s,
{
    let t = s.push((u, c));
    assert(first_of(t, u, s.len() as int));
    let k = choose|k: int| first_of(t, u, k);
    if k < s.len() {
        assert(t[k] == s[k]);
    }
    assert(t.remove(s.len() as int) =~= s);
}

/// Unsubscribing a user that is not subscribed changes nothing.
pub proof fn lemma_unsubscribe_absent<C>(s: Seq<(UserIDType, C)>, u: UserIDType)
    requires
        forall|k: int| 0 <= k < s.len() ==> s[k].0 != u,
    ensures
        without_first(s, u) == s,
{
}

impl<R, C> Listener<R, C> {
    /// A relay with no users, taking changes from `user_update_channel`.
    pub fn new(user_update_channel: R) -> (r: Self)
        ensures
            r.client_channels@.len() == 0,
            r.user_update_channel == user_update_channel,
    {
        Self { client_channels: Vec::new(), user_update_channel }
    }

    /// Adds a user and its channel at the end.
    pub fn insert(&mut self, user: UserIDType, sender: C)
        ensures
            final(self).client_channels@ == old(self).client_channels@.push((user, sender)),
            final(self).user_update_channel == old(self).user_update_channel,
    {
        self.client_channels.push((user, sender));
    }

    /// Removes the user's first entry, giving it back; nothing where the user has none.
    pub fn remove(&mut self, user: &UserIDType) -> (r: Option<(UserIDType, C)>)
        ensures
            final(self).client_channels@ == without_first(old(self).client_channels@, *user),
            final(self).user_update_channel == old(self).user_update_channel,
            match r {
                Some(e) => exists|k: int|
                    first_of(old(self).client_channels@, *user, k) && e == old(
                        self,
                    ).client_channels@[k],
                None => !exists|k: int| first_of(old(self).client_channels@, *user, k),
            },
    {
        let ghost s = self.client_channels@;
        let n = self.client_channels.len();
        let mut k: usize = 0;
        while k < n
            invariant
                n == s.len(),
                s == old(self).client_channels@,
                self.client_channels@ == s,
                self.user_update_channel == old(self).user_update_channel,
                k <= n,
                forall|j: int| 0 <= j < k ==> s[j].0 != *user,
            decreases n - k,
        {
            if self.client_channels[k].0 == *user {
                proof {
                    assert(first_of(s, *user, k as int));
                    let c = choose|c: int| first_of(s, *user, c);
                    assert(c == k);
                }
                let e = self.client_channels.remove(k);
                assert(e == s[k as int]);
                return Some(e);
            }
            k = k + 1;
        }
        proof {
            assert forall|c: int| !first_of(s, *user, c) by {}
        }
        None
    }

    /// Removes the first entry of each of `users`, in turn.
    pub fn remove_each(&mut self, users: &Vec<UserIDType>)
        ensures
            final(self).client_channels@ == without_each(old(self).client_channels@, users@),
            final(self).user_update_channel == old(self).user_update_channel,
    {
        let ghost s = self.client_channels@;
        let n = users.len();
        let mut i: usize = 0;
        while i < n
            invariant
                n == users@.len(),
                i <= n,
                self.client_channels@ == without_each(s, users@.take(i as int)),
                self.user_update_channel == old(self).user_update_channel,
            decreases n - i,
        {
            assert(users@.take(i + 1).drop_last() =~= users@.take(i as int));
            assert(users@.take(i + 1).last() == users@[i as int]);
            let _ = self.remove(&users[i]);
            i = i + 1;
        }
        assert(users@.take(n as int) =~= users@);
    }

    /// Applies a change: a subscription adds the user at the end, an
    /// unsubscription removes the user's first entry.
    pub fn apply(&mut self, msg: ListenerMessage<C>)
        ensures
            final(self).client_channels@ == match msg {
                ListenerMessage::Subscribe(u, c) => old(self).client_channels@.push((u, c)),
                ListenerMessage::Unsubscribe(u) => without_first(old(self).client_channels@, u),
            },
            final(self).user_update_channel == old(self).user_update_channel,
    {
        match msg {
            ListenerMessage::Subscribe(u, c) => self.insert(u, c),
            ListenerMessage::Unsubscribe(u) => {
                let _ = self.remove(&u);
            },
        }
    }
}

} // verus!
