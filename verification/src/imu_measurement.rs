//! Inertial-measurement adapter: two three-component vectors and a compass
//! heading.
//!
//! The readings are IEEE-754 single-precision values; the adapter carries
//! each as its 32-bit pattern, which converts to and from the foreign value
//! without loss. The adapter is owned-only: the payload is three scalars per
//! vector, so a zero-copy borrowed form would save nothing.

use vstd::prelude::*;

use crate::DecodeError;
use crate::codec::Element;

verus! {

/// A three-component vector of single-precision readings, carried as bit
/// patterns, in the declared field order `x`, `y`, `z`.
#[derive(Clone, Copy, Debug, PartialEq, Eq, Structural)]
pub struct Vector3DSerDe {
    pub x_bits: u32,
    pub y_bits: u32,
    pub z_bits: u32,
}

impl Element for Vector3DSerDe {
    open spec fn fields_spec(self) -> Seq<u64> {
        seq![self.x_bits as u64, self.y_bits as u64, self.z_bits as u64]
    }

    open spec fn of_fields_spec(fields: Seq<u64>) -> Result<Vector3DSerDe, DecodeError> {
        if fields.len() != 3 {
            Err(DecodeError::SchemaMismatch)
        } else if fields[0] > 0xffff_ffff || fields[1] > 0xffff_ffff || fields[2] > 0xffff_ffff {
            Err(DecodeError::MalformedElement)
        } else {
            Ok(Vector3DSerDe {
                x_bits: fields[0] as u32,
                y_bits: fields[1] as u32,
                z_bits: fields[2] as u32,
            })
        }
    }

    proof fn lemma_element_round_trip(self) {
    }

    fn to_fields(&self) -> (r: Vec<u64>) {
        let fields: Vec<u64> = vec![self.x_bits as u64, self.y_bits as u64, self.z_bits as u64];
        proof {
            assert(fields@ =~= self.fields_spec());
        }
        fields
    }

    fn of_fields(fields: &[u64]) -> (r: Result<Vector3DSerDe, DecodeError>) {
        if fields.len() != 3 {
            Err(DecodeError::SchemaMismatch)
        } else if fields[0] > 0xffff_ffff || fields[1] > 0xffff_ffff || fields[2] > 0xffff_ffff {
            Err(DecodeError::MalformedElement)
        } else {
            Ok(Vector3DSerDe {
                x_bits: fields[0] as u32,
                y_bits: fields[1] as u32,
                z_bits: fields[2] as u32,
            })
        }
    }
}

/// Owned, round-trip inertial-measurement adapter: accelerometer, gyroscope,
/// compass heading.
#[derive(Clone, Copy, Debug, PartialEq, Eq, Structural)]
pub struct ImuMeasurementSerDe {
    pub accelerometer: Vector3DSerDe,
    pub gyroscope: Vector3DSerDe,
    pub compass_bits: u32,
}

/// The encoded form of an inertial measurement: one field list per vector and
/// the compass heading's bit pattern.
#[derive(Clone, Debug, PartialEq, Eq)]
pub struct EncodedImu {
    pub accelerometer: Vec<u64>,
    pub gyroscope: Vec<u64>,
    pub compass_bits: u32,
}

/// The mathematical content of an encoded inertial measurement.
pub struct EncodedImuView {
    pub accelerometer: Seq<u64>,
    pub gyroscope: Seq<u64>,
    pub compass_bits: u32,
}

impl View for EncodedImu {
    type V = EncodedImuView;

    open spec fn view(&self) -> EncodedImuView {
        EncodedImuView {
            accelerometer: self.accelerometer@,
            gyroscope: self.gyroscope@,
            compass_bits: self.compass_bits,
        }
    }
}

/// What encoding an inertial-measurement adapter emits: both vectors' field
/// lists in declared order and the compass bits.
pub open spec fn encode_imu_spec(m: ImuMeasurementSerDe) -> EncodedImuView {
    EncodedImuView {
        accelerometer: m.accelerometer.fields_spec(),
        gyroscope: m.gyroscope.fields_spec(),
        compass_bits: m.compass_bits,
    }
}

/// What decoding an encoded inertial measurement yields: the accelerometer's
/// failure, if any, is reported before the gyroscope's.
pub open spec fn decode_imu_spec(e: EncodedImuView) -> Result<ImuMeasurementSerDe, DecodeError> {
    match Vector3DSerDe::of_fields_spec(e.accelerometer) {
        Err(err) => Err(err),
        Ok(acc) => match Vector3DSerDe::of_fields_spec(e.gyroscope) {
            Err(err) => Err(err),
            Ok(gyro) => Ok(
                ImuMeasurementSerDe {
                    accelerometer: acc,
                    gyroscope: gyro,
                    compass_bits: e.compass_bits,
                },
            ),
        },
    }
}

impl ImuMeasurementSerDe {
    /// Build the adapter from the source's readings.
    pub fn from_parts(accelerometer: Vector3DSerDe, gyroscope: Vector3DSerDe, compass_bits: u32)
        -> (r: ImuMeasurementSerDe)
        ensures
            r == (ImuMeasurementSerDe { accelerometer, gyroscope, compass_bits }),
    {
        ImuMeasurementSerDe { accelerometer, gyroscope, compass_bits }
    }

    /// Encode this adapter.
    pub fn encode(&self) -> (r: EncodedImu)
        ensures
            r@ == encode_imu_spec(*self),
    {
        EncodedImu {
            accelerometer: self.accelerometer.to_fields(),
            gyroscope: self.gyroscope.to_fields(),
            compass_bits: self.compass_bits,
        }
    }

    /// Decode an encoded inertial measurement.
    pub fn decode(e: &EncodedImu) -> (r: Result<ImuMeasurementSerDe, DecodeError>)
        ensures
            r == decode_imu_spec(e@),
    {
        let acc = match Vector3DSerDe::of_fields(e.accelerometer.as_slice()) {
            Ok(acc) => acc,
            Err(err) => {
                return Err(err);
            },
        };
        let gyro = match Vector3DSerDe::of_fields(e.gyroscope.as_slice()) {
            Ok(gyro) => gyro,
            Err(err) => {
                return Err(err);
            },
        };
        Ok(
            ImuMeasurementSerDe {
                accelerometer: acc,
                gyroscope: gyro,
                compass_bits: e.compass_bits,
            },
        )
    }
}

/// Round trip: decoding what an inertial-measurement adapter encodes to
/// restores the adapter field for field.
pub proof fn lemma_imu_round_trip(m: ImuMeasurementSerDe)
    ensures
        decode_imu_spec(encode_imu_spec(m)) == Ok::<ImuMeasurementSerDe, DecodeError>(m),
{
    m.accelerometer.lemma_element_round_trip();
    m.gyroscope.lemma_element_round_trip();
}

} // verus!
