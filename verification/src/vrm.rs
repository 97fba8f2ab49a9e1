//! Turning SlimeVR tracker messages into VMC bone messages.
//!
//! A SlimeVR message is addressed `/tracking/trackers/<tracker>/<kind>`, where
//! the tracker is a numeric id (mapped to a bone name) or `head`, and the kind
//! is `position` (three floats) or `rotation` (a quaternion of four floats, or
//! three Euler angles in degrees). The readings of a bundle, nested bundles
//! included, are gathered per tracker, the last reading of each kind winning,
//! and each tracker becomes one `/VMC/Ext/Bone/Pos` message holding its name,
//! position and rotation. Floats are carried by their bit patterns; turning
//! Euler angles into a quaternion is floating-point work that the caller hands
//! in as a function.
use crate::osc::{flat_bundle, flat_packets, OscArg, OscBundle, OscElement, OscMessage};
use crate::text::{split_once, split_once_char, str_eq};
use vstd::prelude::*;
use vstd::string::*;

verus! {

/// Which bone names the numeric tracker ids stand for.
#[derive(Clone, Copy, Debug, PartialEq, Eq, Structural)]
pub enum BoneNaming {
    /// The names of the VRM humanoid bones.
    Base,
    /// The names of the bones of the test avatar.
    Ligeia,
}

/// The VRM bone that tracker `id` (1 to 8) stands for.
pub open spec fn base_bone_name(id: u32) -> Seq<char> {
    if id == 1 {
        "Spine"@
    } else if id == 2 {
        "LeftFoot"@
    } else if id == 3 {
        "RightFoot"@
    } else if id == 4 {
        "LeftUpperLeg"@
    } else if id == 5 {
        "RightUpperLeg"@
    } else if id == 6 {
        "UpperChest"@
    } else if id == 7 {
        "LeftUpperArm"@
    } else {
        "RightUpperArm"@
    }
}

/// The test avatar's bone that tracker `id` (1 to 8) stands for.
pub open spec fn ligeia_bone_name(id: u32) -> Seq<char> {
    if id == 1 {
        "Spine"@
    } else if id == 2 {
        "Foot.L"@
    } else if id == 3 {
        "Foot.R"@
    } else if id == 4 {
        "UpperLeg.L"@
    } else if id == 5 {
        "UpperLeg.R"@
    } else if id == 6 {
        "Chest"@
    } else if id == 7 {
        "UpperArm.L"@
    } else {
        "UpperArm.R"@
    }
}

/// The bone name for tracker `id` under `naming`.
pub open spec fn bone_name(naming: BoneNaming, id: u32) -> Seq<char> {
    match naming {
        BoneNaming::Base => base_bone_name(id),
        BoneNaming::Ligeia => ligeia_bone_name(id),
    }
}

/// The humanoid table: the bone that each tracker drives, by its id, under
/// the VRM names and under the test avatar's names. The body's centre line is
/// tracker 1 (spine) and 6 (chest); the left limbs are the even ids 2 and 4
/// with arm 7, the right ones 3 and 5 with arm 8.
pub proof fn lemma_bone_table()
    ensures
        bone_name(BoneNaming::Base, 1) == "Spine"@,
        bone_name(BoneNaming::Base, 2) == "LeftFoot"@,
        bone_name(BoneNaming::Base, 3) == "RightFoot"@,
        bone_name(BoneNaming::Base, 4) == "LeftUpperLeg"@,
        bone_name(BoneNaming::Base, 5) == "RightUpperLeg"@,
        bone_name(BoneNaming::Base, 6) == "UpperChest"@,
        bone_name(BoneNaming::Base, 7) == "LeftUpperArm"@,
        bone_name(BoneNaming::Base, 8) == "RightUpperArm"@,
        bone_name(BoneNaming::Ligeia, 1) == "Spine"@,
        bone_name(BoneNaming::Ligeia, 2) == "Foot.L"@,
        bone_name(BoneNaming::Ligeia, 3) == "Foot.R"@,
        bone_name(BoneNaming::Ligeia, 4) == "UpperLeg.L"@,
        bone_name(BoneNaming::Ligeia, 5) == "UpperLeg.R"@,
        bone_name(BoneNaming::Ligeia, 6) == "Chest"@,
        bone_name(BoneNaming::Ligeia, 7) == "UpperArm.L"@,
        bone_name(BoneNaming::Ligeia, 8) == "UpperArm.R"@,
{
}

/// The VRM bone name for tracker `id`, which must be 1 to 8.
pub fn base_vrm_id(id: u32) -> (r: &'static str)
    requires
        1 <= id <= 8,
    ensures
        r@ == base_bone_name(id),
        id == 1 ==> r@ == "Spine"@,
        id == 2 ==> r@ == "LeftFoot"@,
        id == 3 ==> r@ == "RightFoot"@,
        id == 4 ==> r@ == "LeftUpperLeg"@,
        id == 5 ==> r@ == "RightUpperLeg"@,
        id == 6 ==> r@ == "UpperChest"@,
        id == 7 ==> r@ == "LeftUpperArm"@,
        id == 8 ==> r@ == "RightUpperArm"@,
{
    match id {
        1 => "Spine",
        2 => "LeftFoot",
        3 => "RightFoot",
        4 => "LeftUpperLeg",
        5 => "RightUpperLeg",
        6 => "UpperChest",
        7 => "LeftUpperArm",
        _ => "RightUpperArm",
    }
}

/// The test avatar's bone name for tracker `id`, which must be 1 to 8.
pub fn ligeia_vrm_id(id: u32) -> (r: &'static str)
    requires
        1 <= id <= 8,
    ensures
        r@ == ligeia_bone_name(id),
        id == 1 ==> r@ == "Spine"@,
        id == 2 ==> r@ == "Foot.L"@,
        id == 3 ==> r@ == "Foot.R"@,
        id == 4 ==> r@ == "UpperLeg.L"@,
        id == 5 ==> r@ == "UpperLeg.R"@,
        id == 6 ==> r@ == "Chest"@,
        id == 7 ==> r@ == "UpperArm.L"@,
        id == 8 ==> r@ == "UpperArm.R"@,
{
    match id {
        1 => "Spine",
        2 => "Foot.L",
        3 => "Foot.R",
        4 => "UpperLeg.L",
        5 => "UpperLeg.R",
        6 => "Chest",
        7 => "UpperArm.L",
        _ => "UpperArm.R",
    }
}

fn named_bone(naming: BoneNaming, id: u32) -> (r: &'static str)
    requires
        1 <= id <= 8,
    ensures
        r@ == bone_name(naming, id),
{
    match naming {
        BoneNaming::Base => base_vrm_id(id),
        BoneNaming::Ligeia => ligeia_vrm_id(id),
    }
}

/// Whether `c` is an ASCII decimal digit.
pub open spec fn is_digit(c: char) -> bool {
    '0' <= c <= '9'
}

/// The value of a string of decimal digits.
pub open spec fn digits_value(s: Seq<char>) -> int
    decreases s.len(),
{
    if s.len() == 0 {
        0
    } else {
        digits_value(s.drop_last()) * 10 + (s.last() as int - '0' as int)
    }
}

/// The digits of an unsigned number, after an optional leading `+`.
pub open spec fn unsigned_digits(s: Seq<char>) -> Seq<char> {
    if s.len() > 0 && s[0] == '+' {
        s.skip(1)
    } else {
        s
    }
}

/// `s` read as a `u32` the way `str::parse::<u32>` reads it: an optional `+`,
/// then at least one decimal digit, with a value that fits.
pub open spec fn parse_u32(s: Seq<char>) -> Option<u32> {
    let d = unsigned_digits(s);
    if d.len() > 0 && (forall|i: int| 0 <= i < d.len() ==> is_digit(#[trigger] d[i])) && digits_value(
        d,
    ) <= u32::MAX {
        Some(digits_value(d) as u32)
    } else {
        None
    }
}

proof fn lemma_digits_value_prefix(s: Seq<char>, k: int)
    requires
        0 <= k <= s.len(),
        forall|i: int| 0 <= i < s.len() ==> is_digit(#[trigger] s[i]),
    ensures
        0 <= digits_value(s.take(k)) <= digits_value(s),
    decreases s.len(),
{
    if k == s.len() {
        assert(s.take(k) =~= s);
        if s.len() > 0 {
            lemma_digits_value_prefix(s.drop_last(), k - 1);
            assert(s.drop_last().take(k - 1) =~= s.drop_last());
            assert(is_digit(s[s.len() - 1]));
        }
    } else {
        lemma_digits_value_prefix(s.drop_last(), k);
        assert(s.drop_last().take(k) =~= s.take(k));
        lemma_digits_value_prefix(s.drop_last(), s.len() - 1);
        assert(s.drop_last().take(s.len() - 1) =~= s.drop_last());
        assert(is_digit(s[s.len() - 1]));
    }
}

/// Reads `s` as `str::parse::<u32>` does; nothing where that fails.
fn parse_u32_str(s: &str) -> (r: Option<u32>)
    ensures
        r == parse_u32(s@),
{
    let n = s.unicode_len();
    let mut start: usize = 0;
    if n > 0 && s.get_char(0) == '+' {
        start = 1;
    }
    let ghost d = s@.skip(start as int);
    assert(d =~= unsigned_digits(s@));
    if start == n {
        return None;
    }
    let mut value: u64 = 0;
    let mut i: usize = start;
    while i < n
        invariant
            n == s@.len(),
            start <= i <= n,
            start < n,
            d == s@.skip(start as int),
            d == unsigned_digits(s@),
            forall|j: int| 0 <= j < i - start ==> is_digit(#[trigger] d[j]),
            value == digits_value(d.take(i - start)),
            value <= u32::MAX,
        decreases n - i,
    {
        let c = s.get_char(i);
        assert(c == d[i - start]);
        if !('0' <= c && c <= '9') {
            assert(!is_digit(d[i - start]));
            return None;
        }
        let digit = (c as u32) - ('0' as u32);
        assert(d.take(i - start + 1).drop_last() =~= d.take(i - start));
        value = value * 10 + digit as u64;
        i = i + 1;
        if value > 0xffff_ffff {
            proof {
                if forall|j: int| 0 <= j < d.len() ==> is_digit(#[trigger] d[j]) {
                    lemma_digits_value_prefix(d, i - start);
                }
            }
            return None;
        }
    }
    assert(d.take(n - start) =~= d);
    Some(value as u32)
}

/// Whether `p` reads "head" once ASCII letters are lowered.
pub open spec fn is_head(p: Seq<char>) -> bool {
    &&& p.len() == 4
    &&& (p[0] == 'h' || p[0] == 'H')
    &&& (p[1] == 'e' || p[1] == 'E')
    &&& (p[2] == 'a' || p[2] == 'A')
    &&& (p[3] == 'd' || p[3] == 'D')
}

fn is_head_str(p: &str) -> (r: bool)
    ensures
        r == is_head(p@),
{
    if p.unicode_len() != 4 {
        return false;
    }
    let a = p.get_char(0);
    let b = p.get_char(1);
    let c = p.get_char(2);
    let d = p.get_char(3);
    (a == 'h' || a == 'H') && (b == 'e' || b == 'E') && (c == 'a' || c == 'A') && (d == 'd' || d
        == 'D')
}

/// What a SlimeVR message speaks of.
#[derive(Debug)]
pub enum SlimeVRTarget {
    Head,
    /// A tracker, by the name of its bone.
    Tracker(&'static str),
}

/// The name a target is sent under.
pub open spec fn target_name(t: SlimeVRTarget) -> Seq<char> {
    match t {
        SlimeVRTarget::Head => "Head"@,
        SlimeVRTarget::Tracker(s) => s@,
    }
}

impl SlimeVRTarget {
    /// The name the target is sent under: "Head", or the tracker's bone name.
    pub fn to_string(&self) -> (r: String)
        ensures
            r@ == target_name(*self),
    {
        match self {
            SlimeVRTarget::Head => "Head".to_owned(),
            SlimeVRTarget::Tracker(s) => (*s).to_owned(),
        }
    }
}

fn same_target(a: &SlimeVRTarget, b: &SlimeVRTarget) -> (r: bool)
    ensures
        r == (target_name(*a) == target_name(*b)),
{
    let x: &str = match a {
        SlimeVRTarget::Head => "Head",
        SlimeVRTarget::Tracker(s) => *s,
    };
    let y: &str = match b {
        SlimeVRTarget::Head => "Head",
        SlimeVRTarget::Tracker(s) => *s,
    };
    str_eq(x, y)
}

/// One reading of a tracker, floats by their bit patterns.
#[derive(Clone, Copy, Debug, PartialEq, Eq, Structural)]
pub enum ObjectData {
    /// A quaternion: x, y, z, w.
    Rotation(u32, u32, u32, u32),
    /// A position: x, y, z.
    Position(u32, u32, u32),
    /// Euler angles in degrees: roll, pitch, yaw.
    EulerRotation(u32, u32, u32),
}

/// A SlimeVR message read: which target, and what of it.
#[derive(Debug)]
pub struct SlimeVRMessageType {
    pub source: SlimeVRTarget,
    pub data_type: ObjectData,
}

/// The VMC address for `format`.
pub open spec fn vmc_addr(format: Seq<char>) -> Seq<char> {
    "/VMC/Ext/"@ + format + "/Pos"@
}

/// The address of the bone messages that are sent.
pub open spec fn vmc_bone_addr() -> Seq<char> {
    vmc_addr("Bone"@)
}

impl SlimeVRMessageType {
    /// The VMC address for `format`: "/VMC/Ext/", the format, then "/Pos".
    pub fn get_vrm_addr(&self, format: &str) -> (r: String)
        ensures
            r@ == vmc_addr(format@),
    {
        let mut r = "/VMC/Ext/".to_owned();
        r.append(format);
        r.append("/Pos");
        r
    }
}

/// The segment of `s` before its first '/', or all of `s`.
pub open spec fn first_segment(s: Seq<char>) -> Seq<char> {
    match split_once(s, '/') {
        Some((a, _)) => a,
        None => s,
    }
}

/// The tracker and kind segments of a SlimeVR address
/// `/tracking/trackers/<tracker>/<kind>[/...]`; nothing for any other address.
pub open spec fn slime_addr(addr: Seq<char>) -> Option<(Seq<char>, Seq<char>)> {
    match split_once(addr, '/') {
        Some((lead, r1)) => if lead.len() != 0 {
            None
        } else {
            match split_once(r1, '/') {
                Some((t, r2)) => if t != "tracking"@ {
                    None
                } else {
                    match split_once(r2, '/') {
                        Some((tr, r3)) => if tr != "trackers"@ {
                            None
                        } else {
                            match split_once(r3, '/') {
                                Some((part, r4)) => Some((part, first_segment(r4))),
                                None => None,
                            }
                        },
                        None => None,
                    }
                },
                None => None,
            }
        },
        None => None,
    }
}

/// The target name for tracker segment `part`: a bone for ids 1 to 8, "Head"
/// for `head` in any letter case; nothing otherwise.
pub open spec fn slime_target(part: Seq<char>, naming: BoneNaming) -> Option<Seq<char>> {
    match parse_u32(part) {
        Some(id) => if 1 <= id <= 8 {
            Some(bone_name(naming, id))
        } else {
            None
        },
        None => if is_head(part) {
            Some("Head"@)
        } else {
            None
        },
    }
}

/// The bits of a float argument.
pub open spec fn float_bits(a: OscArg) -> Option<u32> {
    match a {
        OscArg::Float(x) => Some(x),
        _ => None,
    }
}

/// Whether all of `args` are floats.
pub open spec fn all_floats(args: Seq<OscArg>) -> bool {
    forall|i: int| 0 <= i < args.len() ==> #[trigger] float_bits(args[i]) is Some
}

/// The reading for kind segment `kind` with arguments `args`: a position of
/// three floats, a rotation of four floats (a quaternion) or three (Euler
/// angles in degrees); nothing otherwise.
pub open spec fn slime_data(kind: Seq<char>, args: Seq<OscArg>) -> Option<ObjectData> {
    if !all_floats(args) {
        None
    } else if kind == "position"@ && args.len() == 3 {
        Some(
            ObjectData::Position(
                float_bits(args[0])->0,
                float_bits(args[1])->0,
                float_bits(args[2])->0,
            ),
        )
    } else if kind == "rotation"@ && args.len() == 4 {
        Some(
            ObjectData::Rotation(
                float_bits(args[0])->0,
                float_bits(args[1])->0,
                float_bits(args[2])->0,
                float_bits(args[3])->0,
            ),
        )
    } else if kind == "rotation"@ && args.len() == 3 {
        Some(
            ObjectData::EulerRotation(
                float_bits(args[0])->0,
                float_bits(args[1])->0,
                float_bits(args[2])->0,
            ),
        )
    } else {
        None
    }
}

/// What message `m` reads as: a target name and a reading; nothing where it
/// is not a SlimeVR tracker message that can be read.
pub open spec fn slime_reading(m: OscMessage, naming: BoneNaming) -> Option<(Seq<char>, ObjectData)> {
    match slime_addr(m.addr@) {
        Some((part, kind)) => match (slime_target(part, naming), slime_data(kind, m.args@)) {
            (Some(name), Some(data)) => Some((name, data)),
            _ => None,
        },
        None => None,
    }
}

fn float_arg(a: &OscArg) -> (r: Option<u32>)
    ensures
        r == float_bits(*a),
{
    match a {
        OscArg::Float(x) => Some(*x),
        _ => None,
    }
}

/// Reads a SlimeVR message: its target (named by `naming`) and its reading;
/// nothing where the message cannot be read.
pub fn slime_id_to_body_part(message: &OscMessage, naming: BoneNaming) -> (r: Option<
    SlimeVRMessageType,
>)
    ensures
        match r {
            Some(t) => slime_reading(*message, naming) == Some((target_name(t.source), t.data_type)),
            None => slime_reading(*message, naming) is None,
        },
{
    let addr = message.addr.as_str();
    let (lead, r1) = match split_once_char(addr, '/') {
        Some(p) => p,
        None => return None,
    };
    if lead.unicode_len() != 0 {
        return None;
    }
    let (t, r2) = match split_once_char(r1, '/') {
        Some(p) => p,
        None => return None,
    };
    if !str_eq(t, "tracking") {
        return None;
    }
    let (tr, r3) = match split_once_char(r2, '/') {
        Some(p) => p,
        None => return None,
    };
    if !str_eq(tr, "trackers") {
        return None;
    }
    let (part, r4) = match split_once_char(r3, '/') {
        Some(p) => p,
        None => return None,
    };
    let kind = match split_once_char(r4, '/') {
        Some((k, _)) => k,
        None => r4,
    };
    assert(slime_addr(message.addr@) == Some((part@, kind@)));
    let source = match parse_u32_str(part) {
        Some(id) => {
            if id < 1 || id > 8 {
                return None;
            }
            SlimeVRTarget::Tracker(named_bone(naming, id))
        },
        None => {
            if !is_head_str(part) {
                return None;
            }
            SlimeVRTarget::Head
        },
    };
    assert(slime_target(part@, naming) == Some(target_name(source)));
    let args = &message.args;
    let n = args.len();
    let mut i: usize = 0;
    while i < n
        invariant
            n == args@.len(),
            args@ == message.args@,
            i <= n,
            forall|j: int| 0 <= j < i ==> #[trigger] float_bits(args@[j]) is Some,
        decreases n - i,
    {
        if float_arg(&args[i]).is_none() {
            assert(!all_floats(message.args@));
            return None;
        }
        i = i + 1;
    }
    assert(all_floats(args@));
    let is_position = str_eq(kind, "position");
    let is_rotation = str_eq(kind, "rotation");
    let data_type = if is_position && n == 3 {
        ObjectData::Position(float_arg(&args[0]).unwrap(), float_arg(&args[1]).unwrap(), float_arg(&args[2]).unwrap())
    } else if is_rotation && n == 4 {
        ObjectData::Rotation(
            float_arg(&args[0]).unwrap(),
            float_arg(&args[1]).unwrap(),
            float_arg(&args[2]).unwrap(),
            float_arg(&args[3]).unwrap(),
        )
    } else if is_rotation && n == 3 {
        ObjectData::EulerRotation(
            float_arg(&args[0]).unwrap(),
            float_arg(&args[1]).unwrap(),
            float_arg(&args[2]).unwrap(),
        )
    } else {
        assert(slime_data(kind@, args@) is None);
        return None;
    };
    Some(SlimeVRMessageType { source, data_type })
}

/// A bone's rotation as last read.
#[derive(Clone, Copy, Debug, PartialEq, Eq, Structural)]
pub enum Orientation {
    /// A quaternion: x, y, z, w.
    Quaternion(u32, u32, u32, u32),
    /// Euler angles in degrees, still to be turned into a quaternion.
    EulerDegrees(u32, u32, u32),
}

/// What has been gathered of one target.
pub struct BoneView {
    pub name: Seq<char>,
    pub position: (u32, u32, u32),
    pub rotation: Orientation,
}

/// A target with nothing read yet: at the origin, with an all-zero rotation.
pub open spec fn new_bone(name: Seq<char>) -> BoneView {
    BoneView { name, position: (0, 0, 0), rotation: Orientation::Quaternion(0, 0, 0, 0) }
}

/// A target after reading `d`: the reading replaces the position or the rotation.
pub open spec fn apply_reading(b: BoneView, d: ObjectData) -> BoneView {
    match d {
        ObjectData::Position(x, y, z) => BoneView { position: (x, y, z), ..b },
        ObjectData::Rotation(x, y, z, w) => BoneView {
            rotation: Orientation::Quaternion(x, y, z, w),
            ..b
        },
        ObjectData::EulerRotation(x, y, z) => BoneView {
            rotation: Orientation::EulerDegrees(x, y, z),
            ..b
        },
    }
}

/// `k` is the first position of a target named `name` in `bs`.
pub open spec fn is_first_bone(bs: Seq<BoneView>, name: Seq<char>, k: int) -> bool {
    &&& 0 <= k < bs.len()
    &&& bs[k].name == name
    &&& forall|j: int| 0 <= j < k ==> bs[j].name != name
}

/// The targets after a reading `d` of target `name`: the target's entry is
/// updated where it has one, otherwise a new entry is added at the end.
pub open spec fn record_reading(bs: Seq<BoneView>, name: Seq<char>, d: ObjectData) -> Seq<BoneView> {
    if exists|k: int| is_first_bone(bs, name, k) {
        let k = choose|k: int| is_first_bone(bs, name, k);
        bs.update(k, apply_reading(bs[k], d))
    } else {
        bs.push(apply_reading(new_bone(name), d))
    }
}

/// The targets after reading each of `msgs` in turn, starting from `bs`.
pub open spec fn gather_bones(bs: Seq<BoneView>, msgs: Seq<OscMessage>, naming: BoneNaming) -> Seq<
    BoneView,
>
    decreases msgs.len(),
{
    if msgs.len() == 0 {
        bs
    } else {
        match slime_reading(msgs.last(), naming) {
            Some((name, d)) => record_reading(gather_bones(bs, msgs.drop_last(), naming), name, d),
            None => gather_bones(bs, msgs.drop_last(), naming),
        }
    }
}

/// Whether each of `msgs` can be read.
pub open spec fn slime_readable(msgs: Seq<OscMessage>, naming: BoneNaming) -> bool {
    forall|i: int| 0 <= i < msgs.len() ==> #[trigger] slime_reading(msgs[i], naming) is Some
}

/// Whether `m` is the bone message for `bone`: the bone address, the bone's
/// name, its position, and its rotation as a quaternion (turned from Euler
/// angles by `to_quaternion` where they were read so).
pub open spec fn bone_message<Q: Fn(u32, u32, u32) -> (u32, u32, u32, u32)>(
    m: OscMessage,
    bone: BoneView,
    to_quaternion: Q,
) -> bool {
    let a = m.args@;
    &&& m.addr@ == vmc_bone_addr()
    &&& a.len() == 8
    &&& a[0] matches OscArg::String(s) && s@ == bone.name
    &&& a[1] == OscArg::Float(bone.position.0)
    &&& a[2] == OscArg::Float(bone.position.1)
    &&& a[3] == OscArg::Float(bone.position.2)
    &&& float_bits(a[4]) is Some
    &&& float_bits(a[5]) is Some
    &&& float_bits(a[6]) is Some
    &&& float_bits(a[7]) is Some
    &&& match bone.rotation {
        Orientation::Quaternion(x, y, z, w) => float_bits(a[4]) == Some(x) && float_bits(a[5])
            == Some(y) && float_bits(a[6]) == Some(z) && float_bits(a[7]) == Some(w),
        Orientation::EulerDegrees(roll, pitch, yaw) => call_ensures(
            to_quaternion,
            (roll, pitch, yaw),
            (
                float_bits(a[4])->0,
                float_bits(a[5])->0,
                float_bits(a[6])->0,
                float_bits(a[7])->0,
            ),
        ),
    }
}

/// Whether `r` is the VMC bundle for `b`: the same time tag, and one bone
/// message per target read in `b` (nested bundles included), in the order the
/// targets were first read.
pub open spec fn vrm_bundle<Q: Fn(u32, u32, u32) -> (u32, u32, u32, u32)>(
    r: OscBundle,
    b: OscBundle,
    naming: BoneNaming,
    to_quaternion: Q,
) -> bool {
    let bones = gather_bones(Seq::empty(), flat_bundle(b), naming);
    &&& r.timetag == b.timetag
    &&& r.content@.len() == bones.len()
    &&& forall|i: int|
        0 <= i < bones.len() ==> (#[trigger] r.content@[i] matches OscElement::Message(m)
            && bone_message(m, bones[i], to_quaternion))
}

/// Reading `a` and then `b` gathers what reading `a + b` gathers.
pub proof fn lemma_gather_concat(bs: Seq<BoneView>, a: Seq<OscMessage>, b: Seq<OscMessage>, naming: BoneNaming)
    ensures
        gather_bones(bs, a + b, naming) == gather_bones(gather_bones(bs, a, naming), b, naming),
    decreases b.len(),
{
    if b.len() == 0 {
        assert(a + b =~= a);
    } else {
        assert((a + b).drop_last() =~= a + b.drop_last());
        assert((a + b).last() == b.last());
        lemma_gather_concat(bs, a, b.drop_last(), naming);
    }
}

/// The target name that message `m` reads as (empty where it cannot be read).
pub open spec fn reading_name(m: OscMessage, naming: BoneNaming) -> Seq<char> {
    match slime_reading(m, naming) {
        Some((name, _)) => name,
        None => Seq::empty(),
    }
}

/// No two targets share a name.
pub open spec fn names_distinct(bs: Seq<BoneView>) -> bool {
    forall|i: int, j: int| 0 <= i < j < bs.len() ==> bs[i].name != bs[j].name
}

/// Recording a reading keeps every target's name and place, and leaves a
/// target of that name; it adds no second target of a name.
proof fn lemma_record_names(bs: Seq<BoneView>, name: Seq<char>, d: ObjectData)
    ensures
        ({
            let r = record_reading(bs, name, d);
            &&& bs.len() <= r.len() <= bs.len() + 1
            &&& forall|k: int| 0 <= k < bs.len() ==> #[trigger] r[k].name == bs[k].name
            &&& exists|k: int| 0 <= k < r.len() && r[k].name == name
            &&& names_distinct(bs) ==> names_distinct(r)
        }),
{
    let r = record_reading(bs, name, d);
    if exists|k: int| is_first_bone(bs, name, k) {
        let k = choose|k: int| is_first_bone(bs, name, k);
        assert(r[k].name == name);
    } else {
        assert(r[bs.len() as int].name == name);
        if names_distinct(bs) {
            assert forall|i: int, j: int| 0 <= i < j < r.len() implies r[i].name != r[j].name by {
                if j == bs.len() {
                    if r[i].name == name {
                        assert(is_first_bone(bs, name, i) || exists|k: int| 0 <= k < i && bs[k].name == name);
                        if !is_first_bone(bs, name, i) {
                            let k = choose|k: int| 0 <= k < i && bs[k].name == name;
                            assert(false);
                        }
                    }
                }
            }
        }
    }
}

/// One entry per target: the targets gathered from readable messages have
/// distinct names, and every message's target is among them.
pub proof fn lemma_gather_one_per_target(msgs: Seq<OscMessage>, naming: BoneNaming)
    requires
        slime_readable(msgs, naming),
    ensures
        names_distinct(gather_bones(Seq::empty(), msgs, naming)),
        forall|i: int|
            0 <= i < msgs.len() ==> exists|k: int|
                0 <= k < gather_bones(Seq::empty(), msgs, naming).len() && gather_bones(
                    Seq::empty(),
                    msgs,
                    naming,
                )[k].name == #[trigger] reading_name(msgs[i], naming),
    decreases msgs.len(),
{
    if msgs.len() > 0 {
        let init = msgs.drop_last();
        assert forall|i: int| 0 <= i < init.len() implies #[trigger] slime_reading(init[i], naming) is Some by {
            assert(init[i] == msgs[i]);
        }
        lemma_gather_one_per_target(init, naming);
        let before = gather_bones(Seq::empty(), init, naming);
        assert(slime_reading(msgs[msgs.len() - 1], naming) is Some);
        let (name, d) = slime_reading(msgs.last(), naming)->0;
        lemma_record_names(before, name, d);
        let after = gather_bones(Seq::empty(), msgs, naming);
        assert(after == record_reading(before, name, d));
        assert forall|i: int| 0 <= i < msgs.len() implies exists|k: int|
            0 <= k < after.len() && after[k].name == #[trigger] reading_name(msgs[i], naming) by {
            if i < init.len() {
                assert(init[i] == msgs[i]);
                let k = choose|k: int|
                    0 <= k < before.len() && before[k].name == reading_name(init[i], naming);
                assert(after[k].name == before[k].name);
            }
        }
    }
}

/// The messages of the first `i` elements come first among those of the first `n`.
proof fn lemma_flat_prefix(ps: Seq<OscElement>, i: int, n: int)
    requires
        0 <= i <= n <= ps.len(),
    ensures
        flat_packets(ps, i).is_prefix_of(flat_packets(ps, n)),
    decreases n - i,
{
    if i < n {
        lemma_flat_prefix(ps, i, n - 1);
        let a = flat_packets(ps, i);
        let b = flat_packets(ps, n - 1);
        let c = flat_packets(ps, n);
        assert(c == b + match ps[n - 1] {
            OscElement::Message(m) => seq![m],
            OscElement::Bundle(nb) => flat_bundle(nb),
        });
        assert(a =~= c.subrange(0, a.len() as int));
    } else {
        assert(flat_packets(ps, i) =~= flat_packets(ps, n).subrange(0, flat_packets(ps, n).len() as int));
    }
}

/// Where a prefix cannot be read, the whole cannot either.
proof fn lemma_unreadable_prefix(a: Seq<OscMessage>, b: Seq<OscMessage>, naming: BoneNaming)
    requires
        a.is_prefix_of(b),
        !slime_readable(a, naming),
    ensures
        !slime_readable(b, naming),
{
    let i = choose|i: int| 0 <= i < a.len() && !(#[trigger] slime_reading(a[i], naming) is Some);
    assert(a[i] == b[i]);
}

/// What is gathered for a target, and where its message goes.
pub struct VRMBoneData {
    pub dest: String,
    pub kind: String,
    pub position: (u32, u32, u32),
    pub rotation: Orientation,
}

impl Default for VRMBoneData {
    fn default() -> (r: Self)
        ensures
            r.dest@ == Seq::<char>::empty(),
            r.kind@ == Seq::<char>::empty(),
            r.position == (0u32, 0u32, 0u32),
            r.rotation == Orientation::Quaternion(0, 0, 0, 0),
    {
        Self {
            kind: String::new(),
            dest: String::new(),
            position: (0, 0, 0),
            rotation: Orientation::Quaternion(0, 0, 0, 0),
        }
    }
}

/// What the entries hold of each target.
pub open spec fn bones_view(es: Seq<(SlimeVRTarget, VRMBoneData)>) -> Seq<BoneView> {
    Seq::new(
        es.len(),
        |i: int|
            BoneView {
                name: target_name(es[i].0),
                position: es[i].1.position,
                rotation: es[i].1.rotation,
            },
    )
}

/// Every entry's message goes to the bone address.
pub open spec fn dests_set(es: Seq<(SlimeVRTarget, VRMBoneData)>) -> bool {
    forall|i: int| 0 <= i < es.len() ==> (#[trigger] es[i]).1.dest@ == vmc_bone_addr()
}

fn apply_to_entry(data: &mut VRMBoneData, d: ObjectData)
    ensures
        final(data).dest == old(data).dest,
        final(data).kind == old(data).kind,
        ({
            let b = apply_reading(
                BoneView { name: Seq::empty(), position: old(data).position, rotation: old(data).rotation },
                d,
            );
            final(data).position == b.position && final(data).rotation == b.rotation
        }),
{
    match d {
        ObjectData::Rotation(x, y, z, w) => data.rotation = Orientation::Quaternion(x, y, z, w),
        ObjectData::Position(x, y, z) => data.position = (x, y, z),
        ObjectData::EulerRotation(x, y, z) => data.rotation = Orientation::EulerDegrees(x, y, z),
    }
}

/// Records one reading in the entries, as `record_reading` does.
fn record_message(entries: &mut Vec<(SlimeVRTarget, VRMBoneData)>, msg: SlimeVRMessageType)
    requires
        dests_set(old(entries)@),
    ensures
        dests_set(final(entries)@),
        bones_view(final(entries)@) == record_reading(
            bones_view(old(entries)@),
            target_name(msg.source),
            msg.data_type,
        ),
{
    let ghost es = entries@;
    let ghost bs = bones_view(es);
    let ghost name = target_name(msg.source);
    let msg_addr = msg.get_vrm_addr("Bone");
    let n = entries.len();
    let mut k: usize = 0;
    while k < n
        invariant
            n == entries@.len(),
            entries@ == es,
            bs == bones_view(es),
            name == target_name(msg.source),
            k <= n,
            forall|j: int| 0 <= j < k ==> bs[j].name != name,
        ensures
            k <= n,
            entries@ == es,
            forall|j: int| 0 <= j < k ==> bs[j].name != name,
            k < n ==> bs[k as int].name == name,
        decreases n - k,
    {
        if same_target(&entries[k].0, &msg.source) {
            break;
        }
        k = k + 1;
    }
    if k < n {
        proof {
            assert(is_first_bone(bs, name, k as int));
            let c = choose|c: int| is_first_bone(bs, name, c);
            assert(c == k);
        }
        let (key, mut data) = entries.remove(k);
        apply_to_entry(&mut data, msg.data_type);
        data.dest = msg_addr;
        entries.insert(k, (key, data));
        assert(bones_view(entries@) =~= bs.update(k as int, apply_reading(bs[k as int], msg.data_type)));
    } else {
        proof {
            assert forall|c: int| !is_first_bone(bs, name, c) by {}
        }
        let mut data = VRMBoneData::default();
        apply_to_entry(&mut data, msg.data_type);
        data.dest = msg_addr;
        entries.push((msg.source, data));
        assert(bones_view(entries@) =~= bs.push(apply_reading(new_bone(name), msg.data_type)));
    }
}

/// Gathers the readings of every message of `b`, nested bundles included, in
/// order; false where a message cannot be read.
fn gather_into(b: &OscBundle, naming: BoneNaming, entries: &mut Vec<(SlimeVRTarget, VRMBoneData)>) -> (ok: bool)
    requires
        dests_set(old(entries)@),
    ensures
        ok == slime_readable(flat_bundle(*b), naming),
        ok ==> dests_set(final(entries)@),
        ok ==> bones_view(final(entries)@) == gather_bones(
            bones_view(old(entries)@),
            flat_bundle(*b),
            naming,
        ),
    decreases b,
{
    let ghost ps = b.content@;
    let ghost start = bones_view(entries@);
    let n = b.content.len();
    let mut i: usize = 0;
    while i < n
        invariant
            ps == b.content@,
            n == ps.len(),
            i <= n,
            dests_set(entries@),
            slime_readable(flat_packets(ps, i as int), naming),
            bones_view(entries@) == gather_bones(start, flat_packets(ps, i as int), naming),
        decreases n - i,
    {
        let ghost before = flat_packets(ps, i as int);
        proof {
            lemma_flat_prefix(ps, i + 1, n as int);
            assert(flat_bundle(*b) == flat_packets(ps, n as int));
        }
        match &b.content[i] {
            OscElement::Bundle(nb) => {
                proof {
                    assert(decreases_to!(b => b.content));
                    assert(decreases_to!(b.content => b.content@));
                    assert(decreases_to!(b.content@ => b.content@[i as int]));
                }
                if !gather_into(nb, naming, entries) {
                    proof {
                        assert(flat_packets(ps, i + 1) == before + flat_bundle(*nb));
                        let x = flat_bundle(*nb);
                        let w = choose|j: int|
                            0 <= j < x.len() && !(#[trigger] slime_reading(x[j], naming) is Some);
                        assert((before + x)[before.len() + w] == x[w]);
                        assert(!slime_readable(before + x, naming));
                        lemma_unreadable_prefix(flat_packets(ps, i + 1), flat_packets(ps, n as int), naming);
                    }
                    return false;
                }
                proof {
                    assert(flat_packets(ps, i + 1) == before + flat_bundle(*nb));
                    lemma_gather_concat(start, before, flat_bundle(*nb), naming);
                    assert forall|j: int| 0 <= j < (before + flat_bundle(*nb)).len() implies #[trigger] slime_reading(
                        (before + flat_bundle(*nb))[j],
                        naming,
                    ) is Some by {
                        if j >= before.len() {
                            assert((before + flat_bundle(*nb))[j] == flat_bundle(*nb)[j - before.len()]);
                        }
                    }
                }
            },
            OscElement::Message(m) => {
                proof {
                    assert(flat_packets(ps, i + 1) == before + seq![*m]);
                    assert((before + seq![*m]).drop_last() =~= before);
                    assert((before + seq![*m]).last() == *m);
                }
                match slime_id_to_body_part(m, naming) {
                    Some(t) => {
                        record_message(entries, t);
                        proof {
                            assert forall|j: int| 0 <= j < (before + seq![*m]).len() implies #[trigger] slime_reading(
                                (before + seq![*m])[j],
                                naming,
                            ) is Some by {
                                if j < before.len() {
                                    assert((before + seq![*m])[j] == before[j]);
                                }
                            }
                        }
                    },
                    None => {
                        proof {
                            assert((before + seq![*m])[before.len() as int] == *m);
                            lemma_unreadable_prefix(flat_packets(ps, i + 1), flat_packets(ps, n as int), naming);
                        }
                        return false;
                    },
                }
            },
        }
        i = i + 1;
    }
    assert(flat_bundle(*b) == flat_packets(ps, n as int));
    true
}

/// One bone message per entry, in order.
fn bone_messages<Q: Fn(u32, u32, u32) -> (u32, u32, u32, u32)>(
    entries: &Vec<(SlimeVRTarget, VRMBoneData)>,
    to_quaternion: Q,
) -> (r: Vec<OscElement>)
    requires
        dests_set(entries@),
        forall|x: u32, y: u32, z: u32| call_requires(to_quaternion, (x, y, z)),
    ensures
        r@.len() == entries@.len(),
        forall|i: int|
            0 <= i < entries@.len() ==> (#[trigger] r@[i] matches OscElement::Message(m)
                && bone_message(m, bones_view(entries@)[i], to_quaternion)),
{
    let ghost bs = bones_view(entries@);
    let n = entries.len();
    let mut messages: Vec<OscElement> = Vec::new();
    let mut i: usize = 0;
    while i < n
        invariant
            n == entries@.len(),
            bs == bones_view(entries@),
            dests_set(entries@),
            forall|x: u32, y: u32, z: u32| call_requires(to_quaternion, (x, y, z)),
            i <= n,
            messages@.len() == i,
            forall|j: int|
                0 <= j < i ==> (#[trigger] messages@[j] matches OscElement::Message(m)
                    && bone_message(m, bs[j], to_quaternion)),
        decreases n - i,
    {
        let key = &entries[i].0;
        let v = &entries[i].1;
        assert(v.dest@ == vmc_bone_addr());
        let (rx, ry, rz, rw) = match v.rotation {
            Orientation::Quaternion(x, y, z, w) => (x, y, z, w),
            Orientation::EulerDegrees(roll, pitch, yaw) => to_quaternion(roll, pitch, yaw),
        };
        let mut args: Vec<OscArg> = Vec::new();
        args.push(OscArg::String(key.to_string()));
        args.push(OscArg::Float(v.position.0));
        args.push(OscArg::Float(v.position.1));
        args.push(OscArg::Float(v.position.2));
        args.push(OscArg::Float(rx));
        args.push(OscArg::Float(ry));
        args.push(OscArg::Float(rz));
        args.push(OscArg::Float(rw));
        let m = OscMessage { addr: v.dest.clone(), args };
        assert(bone_message(m, bs[i as int], to_quaternion));
        messages.push(OscElement::Message(m));
        i = i + 1;
    }
    messages
}

/// Converts a bundle of SlimeVR tracker messages into VMC bone messages, with
/// trackers named by `naming`; nothing where a message cannot be read.
pub fn try_convert_to_vrm<Q: Fn(u32, u32, u32) -> (u32, u32, u32, u32)>(
    b: &OscBundle,
    naming: BoneNaming,
    to_quaternion: Q,
) -> (r: Option<OscBundle>)
    requires
        forall|x: u32, y: u32, z: u32| call_requires(to_quaternion, (x, y, z)),
    ensures
        r is Some <==> slime_readable(flat_bundle(*b), naming),
        r matches Some(o) ==> vrm_bundle(o, *b, naming, to_quaternion),
{
    let mut entries: Vec<(SlimeVRTarget, VRMBoneData)> = Vec::new();
    assert(bones_view(entries@) =~= Seq::<BoneView>::empty());
    if !gather_into(b, naming, &mut entries) {
        return None;
    }
    let messages = bone_messages(&entries, to_quaternion);
    Some(OscBundle { timetag: b.timetag, content: messages })
}

/// Converts a bundle of SlimeVR tracker messages into VMC bone messages named
/// for the test avatar. Every message must be readable.
pub fn convert_to_vrm_ligeia<Q: Fn(u32, u32, u32) -> (u32, u32, u32, u32)>(
    b: &OscBundle,
    to_quaternion: Q,
) -> (r: OscBundle)
    requires
        slime_readable(flat_bundle(*b), BoneNaming::Ligeia),
        forall|x: u32, y: u32, z: u32| call_requires(to_quaternion, (x, y, z)),
    ensures
        vrm_bundle(r, *b, BoneNaming::Ligeia, to_quaternion),
{
    match try_convert_to_vrm(b, BoneNaming::Ligeia, to_quaternion) {
        Some(o) => o,
        None => OscBundle { timetag: b.timetag, content: Vec::new() },
    }
}

/// Converts a bundle of SlimeVR tracker messages into VMC bone messages named
/// for the VRM humanoid bones. Every message must be readable.
pub fn convert_to_vrm_base<Q: Fn(u32, u32, u32) -> (u32, u32, u32, u32)>(
    b: &OscBundle,
    to_quaternion: Q,
) -> (r: OscBundle)
    requires
        slime_readable(flat_bundle(*b), BoneNaming::Base),
        forall|x: u32, y: u32, z: u32| call_requires(to_quaternion, (x, y, z)),
    ensures
        vrm_bundle(r, *b, BoneNaming::Base, to_quaternion),
{
    match try_convert_to_vrm(b, BoneNaming::Base, to_quaternion) {
        Some(o) => o,
        None => OscBundle { timetag: b.timetag, content: Vec::new() },
    }
}

} // verus!
