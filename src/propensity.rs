//! Propensity scores and the records that attach them to parcels.

use crate::address::{is_postal_code, Address, ZipOrPostalCode, check_postal_code};
use crate::error::{CoreError, Field, ValidationError, ValidationKind};
use crate::parcel::AssessorParcelNumber;
use crate::property::Property;
use vstd::prelude::*;

verus! {

/// Lowest accepted score.
pub const MIN_SCORE: u16 = 1;

/// Highest accepted score.
pub const MAX_SCORE: u16 = 950;

/// A score is accepted from one to nine hundred fifty, both included.
pub open spec fn is_valid_score(score: u16) -> bool {
    MIN_SCORE <= score <= MAX_SCORE
}

/// The error for a score out of range.
pub open spec fn score_range_error() -> CoreError {
    CoreError::ValidationError(ValidationError { field: Field::PropensityScore, kind: ValidationKind::Range })
}

/// A propensity score.
#[derive(Debug, Clone, Copy, PartialEq, Eq, Structural)]
pub struct PropensityScore {
    pub score: u16,
}

impl PropensityScore {
    /// Accepts scores from one to nine hundred fifty.
    pub fn new(propensity_score: u16) -> (r: Result<Self, CoreError>)
        ensures
            r is Ok <==> is_valid_score(propensity_score),
            r matches Ok(s) ==> s.score == propensity_score,
            r matches Err(e) ==> e == score_range_error(),
    {
        if MIN_SCORE <= propensity_score && propensity_score <= MAX_SCORE {
            Ok(PropensityScore { score: propensity_score })
        } else {
            Err(CoreError::ValidationError(ValidationError { field: Field::PropensityScore, kind: ValidationKind::Range }))
        }
    }
}

/// The postal code's text, where there is one.
pub open spec fn zip_view(z: Option<ZipOrPostalCode>) -> Option<Seq<char>> {
    match z {
        Some(c) => Some(c@),
        None => None,
    }
}

/// A propensity score attached to a parcel.
#[derive(Debug, Clone, PartialEq, Eq)]
pub struct PropertyPropensityScore {
    /// Surrogate identifier, assigned once the record is stored.
    pub id: Option<i32>,
    pub apn: AssessorParcelNumber,
    pub zip_or_postal_code: Option<ZipOrPostalCode>,
    pub score: PropensityScore,
}

fn clone_zip(z: &Option<ZipOrPostalCode>) -> (r: Option<ZipOrPostalCode>)
    ensures
        r == *z,
{
    match z {
        Some(c) => Some(c.clone()),
        None => None,
    }
}

impl PropertyPropensityScore {
    /// A record not yet stored. The score must be in range and the postal
    /// code, if any, well formed.
    pub fn new(
        score: PropensityScore,
        apn: &AssessorParcelNumber,
        zip_or_postal_code: &Option<ZipOrPostalCode>,
    ) -> (r: Result<Self, CoreError>)
        ensures
            r is Ok <==> is_valid_score(score.score) && (zip_or_postal_code matches Some(z) ==> is_postal_code(z@)),
            r matches Ok(p) ==> p.id is None && p.apn == *apn && p.zip_or_postal_code == *zip_or_postal_code
                && p.score == score,
            zip_or_postal_code matches Some(z) && !is_postal_code(z@) ==> r == Err::<Self, CoreError>(
                CoreError::ValidationError(ValidationError { field: Field::ZipOrPostalCode, kind: ValidationKind::Format }),
            ),
            (zip_or_postal_code matches Some(z) ==> is_postal_code(z@)) && !is_valid_score(score.score) ==> r == Err::<
                Self,
                CoreError,
            >(score_range_error()),
    {
        if let Some(z) = zip_or_postal_code {
            if !check_postal_code(z.as_str()) {
                return Err(
                    CoreError::ValidationError(ValidationError { field: Field::ZipOrPostalCode, kind: ValidationKind::Format }),
                );
            }
        }
        if !(MIN_SCORE <= score.score && score.score <= MAX_SCORE) {
            return Err(
                CoreError::ValidationError(ValidationError { field: Field::PropensityScore, kind: ValidationKind::Range }),
            );
        }
        Ok(PropertyPropensityScore { id: None, apn: apn.clone(), zip_or_postal_code: clone_zip(zip_or_postal_code), score })
    }

    /// A record for a stored property, under the property's parcel number and
    /// postal code.
    pub fn for_property(property: &Property, score: PropensityScore) -> (r: Result<Self, CoreError>)
        ensures
            r is Ok <==> is_valid_score(score.score) && is_postal_code(property.address.zip_or_postal_code@),
            r matches Ok(p) ==> p.id is None && p.apn == property.apn && p.zip_or_postal_code == Some(
                property.address.zip_or_postal_code,
            ) && p.score == score,
            r matches Err(e) ==> e matches CoreError::ValidationError(_),
    {
        let zip = Some(property.address.zip_or_postal_code.clone());
        Self::new(score, &property.apn, &zip)
    }
}

} // verus!
