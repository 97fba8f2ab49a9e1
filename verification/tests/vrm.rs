use vrlive_server::osc::{OscArg, OscBundle, OscElement, OscMessage, OscTime};
use vrlive_server::vrm::{
    base_vrm_id, convert_to_vrm_base, convert_to_vrm_ligeia, ligeia_vrm_id, slime_id_to_body_part,
    try_convert_to_vrm, BoneNaming, ObjectData, SlimeVRMessageType, SlimeVRTarget,
};

fn f(x: f32) -> OscArg {
    OscArg::Float(x.to_bits())
}

fn msg(addr: &str, args: Vec<OscArg>) -> OscMessage {
    OscMessage { addr: addr.to_owned(), args }
}

/// Stands in for the Euler conversion: marks each angle so the test can see it was used.
fn fake_quaternion(x: u32, y: u32, z: u32) -> (u32, u32, u32, u32) {
    (x + 1, y + 1, z + 1, 99)
}

fn message_parts(e: &OscElement) -> (String, Vec<u32>) {
    match e {
        OscElement::Message(m) => {
            assert_eq!(m.addr, "/VMC/Ext/Bone/Pos");
            assert_eq!(m.args.len(), 8);
            let name = match &m.args[0] {
                OscArg::String(s) => s.clone(),
                _ => panic!("expected the bone name first"),
            };
            let floats = m.args[1..]
                .iter()
                .map(|a| match a {
                    OscArg::Float(b) => *b,
                    _ => panic!("expected floats"),
                })
                .collect();
            (name, floats)
        },
        _ => panic!("expected a message"),
    }
}

#[test]
fn bone_names() {
    assert_eq!(base_vrm_id(1), "Spine");
    assert_eq!(base_vrm_id(2), "LeftFoot");
    assert_eq!(base_vrm_id(6), "UpperChest");
    assert_eq!(base_vrm_id(8), "RightUpperArm");
    assert_eq!(ligeia_vrm_id(2), "Foot.L");
    assert_eq!(ligeia_vrm_id(6), "Chest");
    assert_eq!(ligeia_vrm_id(8), "UpperArm.R");
}

#[test]
fn target_names() {
    assert_eq!(SlimeVRTarget::Head.to_string(), "Head");
    assert_eq!(SlimeVRTarget::Tracker("Spine").to_string(), "Spine");
}

#[test]
fn vrm_address() {
    let t = SlimeVRMessageType { source: SlimeVRTarget::Head, data_type: ObjectData::Position(0, 0, 0) };
    assert_eq!(t.get_vrm_addr("Bone"), "/VMC/Ext/Bone/Pos");
}

#[test]
fn reads_a_position() {
    let m = msg("/tracking/trackers/3/position", vec![f(1.0), f(2.0), f(3.0)]);
    let t = slime_id_to_body_part(&m, BoneNaming::Base).expect("readable");
    assert!(matches!(t.source, SlimeVRTarget::Tracker("RightFoot")));
    assert_eq!(t.data_type, ObjectData::Position(1f32.to_bits(), 2f32.to_bits(), 3f32.to_bits()));
}

#[test]
fn reads_rotations_and_the_head() {
    let m = msg("/tracking/trackers/HeAd/rotation", vec![f(0.0), f(0.0), f(0.0), f(1.0)]);
    let t = slime_id_to_body_part(&m, BoneNaming::Ligeia).expect("readable");
    assert!(matches!(t.source, SlimeVRTarget::Head));
    assert_eq!(t.data_type, ObjectData::Rotation(0, 0, 0, 1f32.to_bits()));

    let m = msg("/tracking/trackers/+7/rotation/extra", vec![f(90.0), f(0.0), f(0.0)]);
    let t = slime_id_to_body_part(&m, BoneNaming::Ligeia).expect("readable");
    assert!(matches!(t.source, SlimeVRTarget::Tracker("UpperArm.L")));
    assert_eq!(t.data_type, ObjectData::EulerRotation(90f32.to_bits(), 0, 0));
}

#[test]
fn unreadable_messages() {
    let pos = vec![f(1.0), f(2.0), f(3.0)];
    for addr in [
        "tracking/trackers/1/position",
        "/tracking/other/1/position",
        "/tracking/trackers/9/position",
        "/tracking/trackers/0/position",
        "/tracking/trackers/neck/position",
        "/tracking/trackers/1",
        "/tracking/trackers/1/velocity",
        "/tracking/trackers/-1/position",
        "/tracking/trackers/99999999999/position",
    ] {
        assert!(slime_id_to_body_part(&msg(addr, pos.clone_args()), BoneNaming::Base).is_none(), "{addr}");
    }
    let m = msg("/tracking/trackers/1/position", vec![f(1.0), f(2.0)]);
    assert!(slime_id_to_body_part(&m, BoneNaming::Base).is_none());
    let m = msg("/tracking/trackers/1/position", vec![f(1.0), OscArg::Int(2), f(3.0)]);
    assert!(slime_id_to_body_part(&m, BoneNaming::Base).is_none());
}

trait CloneArgs {
    fn clone_args(&self) -> Vec<OscArg>;
}

impl CloneArgs for Vec<OscArg> {
    fn clone_args(&self) -> Vec<OscArg> {
        self.iter()
            .map(|a| match a {
                OscArg::Float(b) => OscArg::Float(*b),
                OscArg::Int(i) => OscArg::Int(*i),
                _ => OscArg::Nil,
            })
            .collect()
    }
}

fn tracker_bundle() -> OscBundle {
    let nested = OscBundle {
        timetag: OscTime { seconds: 0, fractional: 0 },
        content: vec![
            OscElement::Message(msg("/tracking/trackers/head/position", vec![f(4.0), f(5.0), f(6.0)])),
            OscElement::Message(msg("/tracking/trackers/1/position", vec![f(7.0), f(8.0), f(9.0)])),
        ],
    };
    OscBundle {
        timetag: OscTime { seconds: 11, fractional: 12 },
        content: vec![
            OscElement::Message(msg("/tracking/trackers/1/position", vec![f(1.0), f(2.0), f(3.0)])),
            OscElement::Message(msg("/tracking/trackers/1/rotation", vec![f(10.0), f(20.0), f(30.0)])),
            OscElement::Bundle(nested),
        ],
    }
}

#[test]
fn gathers_one_message_per_tracker() {
    let out = convert_to_vrm_base(&tracker_bundle(), fake_quaternion);
    assert_eq!(out.timetag, OscTime { seconds: 11, fractional: 12 });
    assert_eq!(out.content.len(), 2);
    let (name, floats) = message_parts(&out.content[0]);
    assert_eq!(name, "Spine");
    // the last position read wins; the Euler rotation goes through the conversion
    assert_eq!(
        floats,
        vec![
            7f32.to_bits(),
            8f32.to_bits(),
            9f32.to_bits(),
            10f32.to_bits() + 1,
            20f32.to_bits() + 1,
            30f32.to_bits() + 1,
            99
        ]
    );
    let (name, floats) = message_parts(&out.content[1]);
    assert_eq!(name, "Head");
    assert_eq!(floats, vec![4f32.to_bits(), 5f32.to_bits(), 6f32.to_bits(), 0, 0, 0, 0]);
}

#[test]
fn ligeia_names() {
    let out = convert_to_vrm_ligeia(&tracker_bundle(), fake_quaternion);
    let (name, _) = message_parts(&out.content[0]);
    assert_eq!(name, "Spine");
    let b = OscBundle {
        timetag: OscTime { seconds: 0, fractional: 0 },
        content: vec![OscElement::Message(msg(
            "/tracking/trackers/2/rotation",
            vec![f(0.0), f(0.0), f(0.0), f(1.0)],
        ))],
    };
    let out = convert_to_vrm_ligeia(&b, fake_quaternion);
    let (name, floats) = message_parts(&out.content[0]);
    assert_eq!(name, "Foot.L");
    assert_eq!(floats, vec![0, 0, 0, 0, 0, 0, 1f32.to_bits()]);
}

#[test]
fn unreadable_bundle_is_not_converted() {
    let mut b = tracker_bundle();
    b.content.push(OscElement::Message(msg("/elsewhere", vec![])));
    assert!(try_convert_to_vrm(&b, BoneNaming::Base, fake_quaternion).is_none());
    assert!(try_convert_to_vrm(&tracker_bundle(), BoneNaming::Base, fake_quaternion).is_some());
}

#[test]
fn empty_bundle_converts_to_empty_bundle() {
    let b = OscBundle { timetag: OscTime { seconds: 1, fractional: 2 }, content: vec![] };
    let out = convert_to_vrm_base(&b, fake_quaternion);
    assert!(out.content.is_empty());
    assert_eq!(out.timetag, OscTime { seconds: 1, fractional: 2 });
}
