//! Property records.

use crate::address::Address;
use crate::land_use::LandUseType;
use crate::parcel::AssessorParcelNumber;
use vstd::prelude::*;

verus! {

/// Declares `bigdecimal::BigDecimal`, carried unopened through property
/// records: nothing here reads or compares its value.
#[verifier::external_type_specification]
#[verifier::external_body]
pub struct ExBigDecimal(bigdecimal::BigDecimal);

/// A latitude and longitude, as arbitrary-precision decimals.
#[derive(Debug, PartialEq)]
pub struct GeoCoordinate {
    pub latitude: bigdecimal::BigDecimal,
    pub longitude: bigdecimal::BigDecimal,
}

impl GeoCoordinate {
    /// Pairs the two decimals.
    pub fn new(latitude: bigdecimal::BigDecimal, longitude: bigdecimal::BigDecimal) -> (r: Self)
        ensures
            r.latitude == latitude,
            r.longitude == longitude,
    {
        GeoCoordinate { latitude, longitude }
    }
}

/// A property, identified by its parcel number.
#[derive(Debug, PartialEq)]
pub struct Property {
    /// Surrogate identifier, assigned once the record is stored.
    pub id: Option<i32>,
    pub apn: AssessorParcelNumber,
    pub address: Address,
    /// The county or its equivalent.
    pub admin_division: String,
    pub geo_coordinate: Option<GeoCoordinate>,
    pub land_use_type: LandUseType,
    pub area_sq_ft: Option<u32>,
    pub nr_bedrooms: Option<u8>,
    pub nr_bathrooms: Option<bigdecimal::BigDecimal>,
    pub total_area_sq_ft: Option<u32>,
}

} // verus!
