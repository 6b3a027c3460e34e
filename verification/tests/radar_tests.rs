use sensor_serde::DecodeError;
use sensor_serde::radar::{
    EncodedRadar, RadarDetectionRemote, RadarMeasurementSerBorrowed, RadarMeasurementSerDe,
};

fn det(velocity: f32, azimuth: f32, altitude: f32, depth: f32) -> RadarDetectionRemote {
    RadarDetectionRemote {
        velocity_bits: velocity.to_bits(),
        azimuth_bits: azimuth.to_bits(),
        altitude_bits: altitude.to_bits(),
        depth_bits: depth.to_bits(),
    }
}

fn sample_detections(n: usize) -> Vec<RadarDetectionRemote> {
    (0..n).map(|i| det(i as f32, 0.5 + i as f32, -1.5 * i as f32, 10.0 + i as f32)).collect()
}

#[test]
fn radar_round_trip() {
    let m = RadarMeasurementSerDe::from_detections(sample_detections(4));
    assert_eq!(m.detection_amount, 4);
    assert_eq!(m.len, 4);
    assert!(!m.is_empty);
    let encoded = m.encode();
    assert_eq!(encoded.detections.len(), 4);
    // field order is velocity, azimuth, altitude, depth, as bit patterns
    assert_eq!(
        encoded.detections[1],
        vec![
            1f32.to_bits() as u64,
            1.5f32.to_bits() as u64,
            (-1.5f32).to_bits() as u64,
            11f32.to_bits() as u64,
        ]
    );
    let back = RadarMeasurementSerDe::decode(&encoded).unwrap();
    assert_eq!(back, m);
}

#[test]
fn radar_round_trip_empty() {
    let m = RadarMeasurementSerDe::from_detections(Vec::new());
    assert!(m.is_empty);
    let encoded = m.encode();
    assert_eq!(encoded.detections.len(), 0);
    let back = RadarMeasurementSerDe::decode(&encoded).unwrap();
    assert_eq!(back, m);
}

#[test]
fn radar_malformed_detection_rejected() {
    let encoded = EncodedRadar {
        detection_amount: 1,
        detections: vec![vec![u32::MAX as u64 + 1, 0, 0, 0]],
        len: 1,
        is_empty: false,
    };
    assert_eq!(RadarMeasurementSerDe::decode(&encoded), Err(DecodeError::MalformedElement));
}

#[test]
fn radar_wrong_field_count_rejected() {
    let encoded = EncodedRadar {
        detection_amount: 1,
        detections: vec![vec![0u64, 0, 0, 0, 0]],
        len: 1,
        is_empty: false,
    };
    assert_eq!(RadarMeasurementSerDe::decode(&encoded), Err(DecodeError::SchemaMismatch));
}

#[test]
fn radar_borrowed_and_owned_encode_identically() {
    let ds = sample_detections(6);
    let borrowed = RadarMeasurementSerBorrowed::from_detections(&ds);
    let owned = RadarMeasurementSerDe::from_detections(ds.clone());
    assert_eq!(borrowed.encode(), owned.encode());
}

fn expected_detection_text(d: &RadarDetectionRemote) -> String {
    format!(
        "{{ velocity_bits: {}, azimuth_bits: {}, altitude_bits: {}, depth_bits: {} }}",
        d.velocity_bits, d.azimuth_bits, d.altitude_bits, d.depth_bits
    )
}

#[test]
fn radar_preview_render_elides_with_count() {
    let ds = sample_detections(7);
    let m = RadarMeasurementSerDe::from_detections(ds.clone());
    let mut expected = String::from(
        "RadarMeasurementSerDe { detection_amount: 7, len: 7, is_empty: false, .. }",
    );
    expected.push_str("\ndetections (preview showing 5 of 7) = [\n");
    for d in ds.iter().take(5) {
        expected.push_str("  ");
        expected.push_str(&expected_detection_text(d));
        expected.push_str(",\n");
    }
    expected.push_str("  \u{2026} (2 more)\n]");
    assert_eq!(m.render(false), expected);
}

#[test]
fn radar_full_render_shows_everything() {
    let ds = sample_detections(7);
    let m = RadarMeasurementSerDe::from_detections(ds.clone());
    let mut expected = String::from(
        "RadarMeasurementSerDe { detection_amount: 7, len: 7, is_empty: false, .. }",
    );
    expected.push_str("\ndetections (full, 7 total) = [\n");
    for d in ds.iter() {
        expected.push_str("  ");
        expected.push_str(&expected_detection_text(d));
        expected.push_str(",\n");
    }
    expected.push_str("]");
    let text = m.render(true);
    assert_eq!(text, expected);
    assert!(!text.contains('\u{2026}'));
}

#[test]
fn radar_preview_of_short_list_has_no_elision() {
    let m = RadarMeasurementSerDe::from_detections(sample_detections(3));
    let text = m.render(false);
    assert!(text.contains("preview showing 3 of 3"));
    assert!(!text.contains('\u{2026}'));
}

#[test]
fn radar_borrowed_render_names_the_borrowed_adapter() {
    let ds = sample_detections(2);
    let borrowed = RadarMeasurementSerBorrowed::from_detections(&ds);
    let text = borrowed.render(false);
    assert!(text.starts_with("RadarMeasurementSerBorrowed { detection_amount: 2,"));
}
