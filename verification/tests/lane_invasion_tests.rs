use sensor_serde::DecodeError;
use sensor_serde::lane_invasion::{
    EncodedLaneInvasion, LaneInvasionEventSerDe, LaneMarkingColorSerDe,
    LaneMarkingLaneChangeSerDe, LaneMarkingSerDe, LaneMarkingTypeSerDe,
};

fn marking(
    marking_type: LaneMarkingTypeSerDe,
    marking_color: LaneMarkingColorSerDe,
    lane_change: LaneMarkingLaneChangeSerDe,
    width: f64,
) -> LaneMarkingSerDe {
    LaneMarkingSerDe { marking_type, marking_color, lane_change, width_bits: width.to_bits() }
}

#[test]
fn marking_type_tags_are_stable() {
    let variants = [
        LaneMarkingTypeSerDe::Other,
        LaneMarkingTypeSerDe::Broken,
        LaneMarkingTypeSerDe::Solid,
        LaneMarkingTypeSerDe::SolidSolid,
        LaneMarkingTypeSerDe::SolidBroken,
        LaneMarkingTypeSerDe::BrokenSolid,
        LaneMarkingTypeSerDe::BrokenBroken,
        LaneMarkingTypeSerDe::BottsDots,
        LaneMarkingTypeSerDe::Grass,
        LaneMarkingTypeSerDe::Curb,
        LaneMarkingTypeSerDe::NoMarking,
    ];
    for (i, v) in variants.iter().enumerate() {
        assert_eq!(v.tag(), i as u64);
        assert_eq!(LaneMarkingTypeSerDe::of_tag(i as u64), Ok(*v));
    }
    assert_eq!(LaneMarkingTypeSerDe::of_tag(11), Err(DecodeError::UnknownVariant));
    assert_eq!(LaneMarkingTypeSerDe::of_tag(u64::MAX), Err(DecodeError::UnknownVariant));
}

#[test]
fn marking_color_tags_are_stable() {
    let variants = [
        LaneMarkingColorSerDe::Standard,
        LaneMarkingColorSerDe::Blue,
        LaneMarkingColorSerDe::Green,
        LaneMarkingColorSerDe::Red,
        LaneMarkingColorSerDe::Yellow,
        LaneMarkingColorSerDe::Other,
    ];
    for (i, v) in variants.iter().enumerate() {
        assert_eq!(v.tag(), i as u64);
        assert_eq!(LaneMarkingColorSerDe::of_tag(i as u64), Ok(*v));
    }
    assert_eq!(LaneMarkingColorSerDe::of_tag(6), Err(DecodeError::UnknownVariant));
}

#[test]
fn lane_change_tags_are_stable() {
    let variants = [
        LaneMarkingLaneChangeSerDe::NoChange,
        LaneMarkingLaneChangeSerDe::Right,
        LaneMarkingLaneChangeSerDe::Left,
        LaneMarkingLaneChangeSerDe::Both,
    ];
    for (i, v) in variants.iter().enumerate() {
        assert_eq!(v.tag(), i as u64);
        assert_eq!(LaneMarkingLaneChangeSerDe::of_tag(i as u64), Ok(*v));
    }
    assert_eq!(LaneMarkingLaneChangeSerDe::of_tag(4), Err(DecodeError::UnknownVariant));
}

#[test]
fn lane_invasion_round_trip() {
    let ev = LaneInvasionEventSerDe::from_markings(vec![
        marking(
            LaneMarkingTypeSerDe::Broken,
            LaneMarkingColorSerDe::Yellow,
            LaneMarkingLaneChangeSerDe::Both,
            0.15,
        ),
        marking(
            LaneMarkingTypeSerDe::Solid,
            LaneMarkingColorSerDe::Standard,
            LaneMarkingLaneChangeSerDe::NoChange,
            0.2,
        ),
    ]);
    let encoded = ev.encode();
    // declared field order: type tag, color tag, lane-change tag, width bits
    assert_eq!(encoded.crossed_lane_markings[0], vec![1u64, 4, 3, 0.15f64.to_bits()]);
    let back = LaneInvasionEventSerDe::decode(&encoded).unwrap();
    assert_eq!(back, ev);
}

#[test]
fn lane_invasion_round_trip_empty() {
    let ev = LaneInvasionEventSerDe::from_markings(Vec::new());
    let encoded = ev.encode();
    assert_eq!(encoded.crossed_lane_markings.len(), 0);
    let back = LaneInvasionEventSerDe::decode(&encoded).unwrap();
    assert_eq!(back, ev);
}

#[test]
fn lane_invasion_unknown_tag_rejected() {
    let encoded = EncodedLaneInvasion { crossed_lane_markings: vec![vec![11u64, 0, 0, 0]] };
    assert_eq!(LaneInvasionEventSerDe::decode(&encoded), Err(DecodeError::UnknownVariant));
    let encoded = EncodedLaneInvasion { crossed_lane_markings: vec![vec![0u64, 9, 0, 0]] };
    assert_eq!(LaneInvasionEventSerDe::decode(&encoded), Err(DecodeError::UnknownVariant));
    let encoded = EncodedLaneInvasion { crossed_lane_markings: vec![vec![0u64, 0, 7, 0]] };
    assert_eq!(LaneInvasionEventSerDe::decode(&encoded), Err(DecodeError::UnknownVariant));
}

#[test]
fn lane_invasion_wrong_field_count_rejected() {
    let encoded = EncodedLaneInvasion { crossed_lane_markings: vec![vec![0u64, 0, 0]] };
    assert_eq!(LaneInvasionEventSerDe::decode(&encoded), Err(DecodeError::SchemaMismatch));
}

#[test]
fn marking_render_text() {
    let m = marking(
        LaneMarkingTypeSerDe::Broken,
        LaneMarkingColorSerDe::Yellow,
        LaneMarkingLaneChangeSerDe::Left,
        0.25,
    );
    let expected = format!(
        "LaneMarkingSerDe {{ marking_type: Broken, marking_color: Yellow, lane_change: Left, width_bits: {} }}",
        0.25f64.to_bits()
    );
    assert_eq!(m.render(), expected);
}

#[test]
fn lane_invasion_render_text() {
    let m1 = marking(
        LaneMarkingTypeSerDe::Curb,
        LaneMarkingColorSerDe::Standard,
        LaneMarkingLaneChangeSerDe::NoChange,
        1.0,
    );
    let m2 = marking(
        LaneMarkingTypeSerDe::Grass,
        LaneMarkingColorSerDe::Green,
        LaneMarkingLaneChangeSerDe::Right,
        2.0,
    );
    let ev = LaneInvasionEventSerDe::from_markings(vec![m1, m2]);
    let expected = format!(
        "LaneInvasionEventSerDe {{ crossed_lane_markings: [{}, {}] }}",
        m1.render(),
        m2.render()
    );
    assert_eq!(ev.render(), expected);
}
