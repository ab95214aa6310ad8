//! Records as the store hands them back, and their validation into domain
//! records.

use crate::address::ZipOrPostalCode;
use crate::error::{CoreError, Field, ValidationError, ValidationKind};
use crate::parcel::{canonical_apn, AssessorParcelNumber};
use crate::propensity::{zip_view, PropensityScore, PropertyPropensityScore, MAX_SCORE, MIN_SCORE};
use crate::rows::{opt_view, row_zip_ok};
use vstd::prelude::*;

verus! {

/// A propensity record as the store returns it.
#[derive(Debug, Clone, PartialEq)]
pub struct StoredPropensity {
    pub id: i32,
    pub apn: String,
    pub score: i16,
    pub zip_or_postal_code: Option<String>,
}

impl StoredPropensity {
    /// The domain record, carrying its surrogate identifier. The stored
    /// values are validated again: parcel number, postal code, then score.
    pub fn to_domain(&self) -> (r: Result<PropertyPropensityScore, CoreError>)
        ensures
            r is Ok <==> canonical_apn(self.apn@) is Ok && row_zip_ok(self.zip_or_postal_code) && MIN_SCORE
                <= self.score <= MAX_SCORE,
            r matches Ok(p) ==> {
                &&& p.id == Some(self.id)
                &&& canonical_apn(self.apn@) == Ok::<Seq<char>, ValidationKind>(p.apn@)
                &&& zip_view(p.zip_or_postal_code) == opt_view(self.zip_or_postal_code)
                &&& p.score.score == self.score
            },
            r matches Err(e) ==> e matches CoreError::ValidationError(_),
    {
        let apn = match AssessorParcelNumber::new(self.apn.as_str()) {
            Ok(a) => a,
            Err(e) => return Err(CoreError::ValidationError(e)),
        };
        let zip_or_postal_code = match &self.zip_or_postal_code {
            None => None,
            Some(z) => match ZipOrPostalCode::new(z.as_str()) {
                Ok(code) => Some(code),
                Err(e) => return Err(CoreError::ValidationError(e)),
            },
        };
        if self.score < 0 {
            return Err(
                CoreError::ValidationError(ValidationError { field: Field::PropensityScore, kind: ValidationKind::Range }),
            );
        }
        let score = match PropensityScore::new(self.score as u16) {
            Ok(s) => s,
            Err(e) => return Err(e),
        };
        Ok(PropertyPropensityScore { id: Some(self.id), apn, zip_or_postal_code, score })
    }
}

} // verus!
