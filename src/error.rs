//! Typed failures of the value objects and of record translation.

use vstd::prelude::*;

verus! {

/// The field a validation failure is attributed to.
#[derive(Debug, Clone, Copy, PartialEq, Eq, Structural)]
pub enum Field {
    Apn,
    ZipOrPostalCode,
    CountryCode,
    PropensityScore,
    Latitude,
    Longitude,
}

/// The rule a field broke.
#[derive(Debug, Clone, Copy, PartialEq, Eq, Structural)]
pub enum ValidationKind {
    /// The text does not have the required shape.
    Format,
    /// The text is too long or too short.
    Length,
    /// The number lies outside the accepted range.
    Range,
}

/// A field-level constraint violation.
#[derive(Debug, Clone, Copy, PartialEq, Eq, Structural)]
pub struct ValidationError {
    pub field: Field,
    pub kind: ValidationKind,
}

/// Failures of the domain model.
#[derive(Debug, Clone, PartialEq)]
pub enum CoreError {
    /// A land-use label that no category recognises; holds the label.
    UnrecognizedLandUseType(String),
    /// A value object refused its input.
    ValidationError(ValidationError),
}

/// The human-readable reason given for each kind of failure.
pub open spec fn reason_text(kind: ValidationKind) -> Seq<char> {
    match kind {
        ValidationKind::Format => "malformed value"@,
        ValidationKind::Length => "value has the wrong length"@,
        ValidationKind::Range => "value out of range"@,
    }
}

impl ValidationError {
    /// A short human-readable reason.
    pub fn reason(&self) -> (r: &'static str)
        ensures
            r@ == reason_text(self.kind),
    {
        match self.kind {
            ValidationKind::Format => "malformed value",
            ValidationKind::Length => "value has the wrong length",
            ValidationKind::Range => "value out of range",
        }
    }
}

} // verus!
