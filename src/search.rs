//! The read path: ranked propensity lookups by postal code.

use crate::address::{is_postal_code, Address, ZipOrPostalCode};
use crate::error::ValidationError;
use crate::parcel::AssessorParcelNumber;
use crate::propensity::{PropensityScore, PropertyPropensityScore};
use vstd::prelude::*;

verus! {

/// Number of results when the query names no limit.
pub const LIMIT_DEFAULT: u16 = 10;

/// A search query: a postal code and an optional number of results.
#[derive(Debug, PartialEq)]
pub struct PropensityScoresParameters {
    pub limit: Option<u16>,
    pub zip_code: String,
}

/// Why a search failed.
#[derive(Debug)]
pub enum PropensityRouteError {
    /// The store failed; holds a description.
    UnexpectedError(String),
    /// The postal code of the query is malformed.
    InvalidZipCode(ValidationError),
}

impl PropensityRouteError {
    /// The HTTP status answering the failure: a client error for a bad
    /// postal code, a server error otherwise.
    pub fn status_code(&self) -> (r: u16)
        ensures
            self is InvalidZipCode ==> r == 400,
            self is UnexpectedError ==> r == 500,
    {
        match self {
            PropensityRouteError::UnexpectedError(_) => 500,
            PropensityRouteError::InvalidZipCode(_) => 400,
        }
    }
}

impl PropensityScoresParameters {
    /// The postal code and the number of results the query asks for; the
    /// limit defaults to ten.
    pub fn query(&self) -> (r: Result<(ZipOrPostalCode, u16), PropensityRouteError>)
        ensures
            r is Ok <==> is_postal_code(self.zip_code@),
            r matches Ok((z, l)) ==> z@ == self.zip_code@ && l == (match self.limit {
                Some(n) => n,
                None => LIMIT_DEFAULT,
            }),
            r matches Err(e) ==> e is InvalidZipCode,
    {
        let zip = match ZipOrPostalCode::new(self.zip_code.as_str()) {
            Ok(z) => z,
            Err(e) => return Err(PropensityRouteError::InvalidZipCode(e)),
        };
        let limit = match self.limit {
            Some(n) => n,
            None => LIMIT_DEFAULT,
        };
        Ok((zip, limit))
    }
}

/// One search result.
#[derive(Debug)]
pub struct PropensitySearchItem {
    pub apn: AssessorParcelNumber,
    pub propensity_score: PropensityScore,
    pub address: Option<Address>,
}

/// Turns the store's ranked (score record, address) pairs into search
/// results, in the same order.
pub fn search_items(found: Vec<(PropertyPropensityScore, Option<Address>)>) -> (r: Vec<PropensitySearchItem>)
    ensures
        r@.len() == found@.len(),
        forall|i: int|
            0 <= i < r@.len() ==> {
                &&& #[trigger] r@[i].apn == found@[i].0.apn
                &&& r@[i].propensity_score == found@[i].0.score
                &&& r@[i].address == found@[i].1
            },
{
    let ghost given = found@;
    let mut rest = found;
    let mut r: Vec<PropensitySearchItem> = Vec::new();
    while rest.len() > 0
        invariant
            r@.len() + rest@.len() == given.len(),
            rest@ == given.skip(r@.len() as int),
            forall|i: int|
                0 <= i < r@.len() ==> {
                    &&& #[trigger] r@[i].apn == given[i].0.apn
                    &&& r@[i].propensity_score == given[i].0.score
                    &&& r@[i].address == given[i].1
                },
        decreases rest@.len(),
    {
        let (score, address) = rest.remove(0);
        r.push(PropensitySearchItem { apn: score.apn, propensity_score: score.score, address });
        assert(rest@ =~= given.skip(r@.len() as int));
    }
    r
}

} // verus!
