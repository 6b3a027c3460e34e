//! Serialization adapters for foreign sensor records: images, inertial
//! measurements, lane-invasion events and radar point clouds.
//!
//! Each sensor kind gets a borrowed (zero-copy, encode-only) and/or an owned
//! (round-trip) view adapter, a codec that turns the adapter into a structured
//! field representation and back, and a bounded textual renderer.

use vstd::prelude::*;

pub mod codec;
pub mod grid;
pub mod image;
pub mod imu_measurement;
pub mod lane_invasion;
pub mod radar;
pub mod render;

verus! {

/// A failure reported while decoding an encoded sensor record.
#[derive(Clone, Copy, Debug, PartialEq, Eq, Structural)]
pub enum DecodeError {
    /// The field set of an encoded element does not match the declared schema
    /// (missing or extra fields).
    SchemaMismatch,
    /// An encoded enum tag lies outside the declared discriminant set.
    UnknownVariant,
    /// A structurally invalid element: a field value outside the range of the
    /// declared field type.
    MalformedElement,
    /// A two-dimensional payload whose rows are not all of the same length.
    RaggedGrid,
}

impl DecodeError {
    /// A human-readable description of the failure.
    pub fn message(&self) -> (r: &'static str)
        ensures
            *self is SchemaMismatch ==> r@ == "field set does not match the schema"@,
            *self is UnknownVariant ==> r@ == "enum tag outside the declared variants"@,
            *self is MalformedElement ==> r@ == "structurally invalid element"@,
            *self is RaggedGrid ==> r@ == "rows of a 2D payload differ in length"@,
    {
        match self {
            DecodeError::SchemaMismatch => "field set does not match the schema",
            DecodeError::UnknownVariant => "enum tag outside the declared variants",
            DecodeError::MalformedElement => "structurally invalid element",
            DecodeError::RaggedGrid => "rows of a 2D payload differ in length",
        }
    }
}

} // verus!
