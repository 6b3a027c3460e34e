use sensor_serde::DecodeError;
use sensor_serde::imu_measurement::{EncodedImu, ImuMeasurementSerDe, Vector3DSerDe};

fn vec3(x: f32, y: f32, z: f32) -> Vector3DSerDe {
    Vector3DSerDe { x_bits: x.to_bits(), y_bits: y.to_bits(), z_bits: z.to_bits() }
}

#[test]
fn imu_round_trip() {
    let m = ImuMeasurementSerDe::from_parts(
        vec3(0.1, -9.8, 0.0),
        vec3(0.01, 0.02, -0.03),
        1.57f32.to_bits(),
    );
    let encoded = m.encode();
    // declared field order per vector: x, y, z, as bit patterns
    assert_eq!(
        encoded.accelerometer,
        vec![0.1f32.to_bits() as u64, (-9.8f32).to_bits() as u64, 0f32.to_bits() as u64]
    );
    assert_eq!(encoded.compass_bits, 1.57f32.to_bits());
    let back = ImuMeasurementSerDe::decode(&encoded).unwrap();
    assert_eq!(back, m);
}

#[test]
fn imu_readings_survive_bit_conversion() {
    let m = ImuMeasurementSerDe::from_parts(
        vec3(0.125, -3.5, 7.75),
        vec3(-0.5, 2.25, 11.0),
        42.5f32.to_bits(),
    );
    let back = ImuMeasurementSerDe::decode(&m.encode()).unwrap();
    assert_eq!(f32::from_bits(back.accelerometer.y_bits), -3.5);
    assert_eq!(f32::from_bits(back.gyroscope.z_bits), 11.0);
    assert_eq!(f32::from_bits(back.compass_bits), 42.5);
}

#[test]
fn imu_wrong_vector_field_count_rejected() {
    let encoded = EncodedImu { accelerometer: vec![0u64, 0], gyroscope: vec![0, 0, 0], compass_bits: 0 };
    assert_eq!(ImuMeasurementSerDe::decode(&encoded), Err(DecodeError::SchemaMismatch));
}

#[test]
fn imu_malformed_vector_field_rejected() {
    let encoded = EncodedImu {
        accelerometer: vec![0u64, 0, 0],
        gyroscope: vec![0, u32::MAX as u64 + 1, 0],
        compass_bits: 0,
    };
    assert_eq!(ImuMeasurementSerDe::decode(&encoded), Err(DecodeError::MalformedElement));
}

#[test]
fn imu_accelerometer_error_reported_first() {
    let encoded = EncodedImu {
        accelerometer: vec![0u64, 0],
        gyroscope: vec![u32::MAX as u64 + 1, 0, 0],
        compass_bits: 0,
    };
    assert_eq!(ImuMeasurementSerDe::decode(&encoded), Err(DecodeError::SchemaMismatch));
}
