//! Raw tabular rows and their translation into domain records.

use crate::address::{address_from_parts, is_postal_code, Address, AddressParts, ZipOrPostalCode};
use crate::error::{CoreError, Field, ValidationError, ValidationKind};
use crate::land_use::{classify, LandUseType};
use crate::parcel::{canonical_apn, AssessorParcelNumber};
use crate::propensity::{is_valid_score, score_range_error, zip_view, PropensityScore, PropertyPropensityScore};
use crate::property::{GeoCoordinate, Property};
use crate::text::{regex_finds_ignoring_case, regex_search};
use vstd::prelude::*;

verus! {

/// A raw parcel number passes the row's format gate when it holds a run of
/// at least seven digits, word characters or hyphens.
pub open spec fn is_row_apn(s: Seq<char>) -> bool {
    regex_finds_ignoring_case("[\\d\\w-]{7,}"@, s) == Some(true)
}

/// Checks the row-level format gate of a raw parcel number.
pub fn check_row_apn(apn: &str) -> (b: bool)
    ensures
        b == is_row_apn(apn@),
{
    regex_search("[\\d\\w-]{7,}", apn) == Some(true)
}

/// The text of an optional field.
pub open spec fn opt_view(o: Option<String>) -> Option<Seq<char>> {
    match o {
        Some(s) => Some(s@),
        None => None,
    }
}

/// One row read from a file: malformed, refused by a check made while it was
/// read, or parsed.
pub enum RowRead<R> {
    Malformed,
    Rejected(ValidationError),
    Parsed(R),
}

/// A row of a propensity extract.
#[derive(Debug, Clone, PartialEq)]
pub struct CsvPropertyPropensityScore {
    pub apn: String,
    pub street_number: Option<String>,
    pub street_number_suffix: Option<String>,
    pub street_pre_direction: Option<String>,
    pub street_name: Option<String>,
    pub street_suffix: Option<String>,
    pub street_post_direction: Option<String>,
    pub secondary_designator: Option<String>,
    pub secondary_number: Option<String>,
    pub city: Option<String>,
    pub state_or_region: Option<String>,
    pub zip_or_postal_code: Option<String>,
    pub propensity_score: Option<u16>,
}

/// The postal code of a row, if it has one, is well formed.
pub open spec fn row_zip_ok(zip: Option<String>) -> bool {
    zip matches Some(z) ==> is_postal_code(z@)
}

/// A propensity row with a score translates when its parcel number
/// canonicalises, its postal code is well formed and its score is in range.
pub open spec fn propensity_row_translates(row: CsvPropertyPropensityScore) -> bool {
    &&& canonical_apn(row.apn@) is Ok
    &&& row_zip_ok(row.zip_or_postal_code)
    &&& (row.propensity_score matches Some(s) ==> is_valid_score(s))
}

impl CsvPropertyPropensityScore {
    /// The format gate run before translation: the raw parcel number must
    /// have the expected shape.
    pub fn validate(&self) -> (r: Result<(), ValidationError>)
        ensures
            r is Ok <==> is_row_apn(self.apn@),
            r matches Err(e) ==> e == (ValidationError { field: Field::Apn, kind: ValidationKind::Format }),
    {
        if check_row_apn(self.apn.as_str()) {
            Ok(())
        } else {
            Err(ValidationError { field: Field::Apn, kind: ValidationKind::Format })
        }
    }

    /// The canonical parcel number of the row.
    pub fn extract_apn(&self) -> (r: Result<AssessorParcelNumber, CoreError>)
        ensures
            r is Ok <==> canonical_apn(self.apn@) is Ok,
            r matches Ok(a) ==> canonical_apn(self.apn@) == Ok::<Seq<char>, ValidationKind>(a@),
            r matches Err(e) ==> e matches CoreError::ValidationError(v) && v.field == Field::Apn,
    {
        match AssessorParcelNumber::new(self.apn.as_str()) {
            Ok(a) => Ok(a),
            Err(e) => Err(CoreError::ValidationError(e)),
        }
    }

    /// The postal code of the row, if it has one.
    pub fn extract_zip_or_postal_code(&self) -> (r: Result<Option<ZipOrPostalCode>, CoreError>)
        ensures
            r is Ok <==> row_zip_ok(self.zip_or_postal_code),
            r matches Ok(z) ==> zip_view(z) == opt_view(self.zip_or_postal_code),
            r matches Err(e) ==> e matches CoreError::ValidationError(v) && v.field == Field::ZipOrPostalCode,
    {
        match &self.zip_or_postal_code {
            None => Ok(None),
            Some(z) => match ZipOrPostalCode::new(z.as_str()) {
                Ok(code) => Ok(Some(code)),
                Err(e) => Err(CoreError::ValidationError(e)),
            },
        }
    }

    /// The domain record of the row: `None` where the row has no score;
    /// otherwise the parcel number, postal code and score are checked in that
    /// order.
    pub fn to_domain(&self) -> (r: Result<Option<PropertyPropensityScore>, CoreError>)
        ensures
            self.propensity_score is None ==> r == Ok::<Option<PropertyPropensityScore>, CoreError>(None),
            self.propensity_score is Some ==> (r is Ok <==> propensity_row_translates(*self)),
            self.propensity_score is Some && r is Ok ==> r matches Ok(Some(_)),
            self.propensity_score is Some && !(canonical_apn(self.apn@) is Ok) ==> (r matches Err(
                CoreError::ValidationError(v),
            ) && v.field == Field::Apn),
            self.propensity_score is Some && canonical_apn(self.apn@) is Ok && !row_zip_ok(self.zip_or_postal_code)
                ==> (r matches Err(CoreError::ValidationError(v)) && v.field == Field::ZipOrPostalCode),
            self.propensity_score matches Some(s) && canonical_apn(self.apn@) is Ok && row_zip_ok(
                self.zip_or_postal_code,
            ) && !is_valid_score(s) ==> r == Err::<Option<PropertyPropensityScore>, CoreError>(
                score_range_error(),
            ),
            r matches Ok(Some(p)) ==> {
                &&& p.id is None
                &&& canonical_apn(self.apn@) == Ok::<Seq<char>, ValidationKind>(p.apn@)
                &&& zip_view(p.zip_or_postal_code) == opt_view(self.zip_or_postal_code)
                &&& self.propensity_score == Some(p.score.score)
            },
    {
        match self.propensity_score {
            None => Ok(None),
            Some(score) => {
                let apn = match self.extract_apn() {
                    Ok(a) => a,
                    Err(e) => return Err(e),
                };
                let zip_or_postal_code = match self.extract_zip_or_postal_code() {
                    Ok(z) => z,
                    Err(e) => return Err(e),
                };
                let score = match PropensityScore::new(score) {
                    Ok(s) => s,
                    Err(e) => return Err(e),
                };
                Ok(Some(PropertyPropensityScore { id: None, apn, zip_or_postal_code, score }))
            },
        }
    }
}

/// A row of a property extract. Decimal fields arrive already converted;
/// a coordinate that could not be converted is absent.
#[derive(Debug)]
pub struct CsvProperty {
    pub apn: String,
    pub street_number: String,
    pub street_pre_direction: Option<String>,
    pub street_name: String,
    pub street_suffix: String,
    pub street_post_direction: Option<String>,
    pub secondary_designator: Option<String>,
    pub secondary_number: Option<String>,
    pub city: String,
    pub state_or_region: String,
    pub zip_or_postal_code: String,
    pub latitude: Option<bigdecimal::BigDecimal>,
    pub longitude: Option<bigdecimal::BigDecimal>,
    pub admin_division: String,
    pub land_use_type: String,
    pub area_sq_ft: Option<u32>,
    pub nr_bedrooms: Option<u8>,
    pub nr_bathrooms: Option<bigdecimal::BigDecimal>,
    pub total_area_sq_ft: Option<u32>,
}

/// The address parts of a property row.
pub open spec fn row_address_parts(row: CsvProperty) -> AddressParts {
    AddressParts {
        street_number: row.street_number,
        street_pre_direction: row.street_pre_direction,
        street_name: row.street_name,
        street_suffix: row.street_suffix,
        street_post_direction: row.street_post_direction,
        secondary_designator: row.secondary_designator,
        secondary_number: row.secondary_number,
        city: row.city,
        state_or_region: row.state_or_region,
        zip_or_postal_code: row.zip_or_postal_code,
    }
}

fn clone_opt(o: &Option<String>) -> (r: Option<String>)
    ensures
        r == *o,
{
    match o {
        Some(s) => Some(s.clone()),
        None => None,
    }
}

/// A property row translates when its parcel number canonicalises, its
/// postal code is well formed and its land-use label is recognised.
pub open spec fn property_row_translates(row: CsvProperty) -> bool {
    &&& canonical_apn(row.apn@) is Ok
    &&& is_postal_code(row.zip_or_postal_code@)
    &&& classify(row.land_use_type@) is Some
}

impl CsvProperty {
    /// The format gate run before translation: the raw parcel number must
    /// have the expected shape.
    pub fn validate(&self) -> (r: Result<(), ValidationError>)
        ensures
            r is Ok <==> is_row_apn(self.apn@),
            r matches Err(e) ==> e == (ValidationError { field: Field::Apn, kind: ValidationKind::Format }),
    {
        if check_row_apn(self.apn.as_str()) {
            Ok(())
        } else {
            Err(ValidationError { field: Field::Apn, kind: ValidationKind::Format })
        }
    }

    /// The canonical parcel number of the row.
    pub fn extract_apn(&self) -> (r: Result<AssessorParcelNumber, CoreError>)
        ensures
            r is Ok <==> canonical_apn(self.apn@) is Ok,
            r matches Ok(a) ==> canonical_apn(self.apn@) == Ok::<Seq<char>, ValidationKind>(a@),
            r matches Err(e) ==> e matches CoreError::ValidationError(v) && v.field == Field::Apn,
    {
        match AssessorParcelNumber::new(self.apn.as_str()) {
            Ok(a) => Ok(a),
            Err(e) => Err(CoreError::ValidationError(e)),
        }
    }

    /// The address of the row; fails only on a malformed postal code.
    pub fn extract_address(&self) -> (r: Result<Address, CoreError>)
        ensures
            r is Ok <==> is_postal_code(self.zip_or_postal_code@),
            r matches Ok(a) ==> address_from_parts(a, row_address_parts(*self)),
            r matches Err(e) ==> e matches CoreError::ValidationError(v) && v.field == Field::ZipOrPostalCode,
    {
        let parts = AddressParts {
            street_number: self.street_number.clone(),
            street_pre_direction: clone_opt(&self.street_pre_direction),
            street_name: self.street_name.clone(),
            street_suffix: self.street_suffix.clone(),
            street_post_direction: clone_opt(&self.street_post_direction),
            secondary_designator: clone_opt(&self.secondary_designator),
            secondary_number: clone_opt(&self.secondary_number),
            city: self.city.clone(),
            state_or_region: self.state_or_region.clone(),
            zip_or_postal_code: self.zip_or_postal_code.clone(),
        };
        assert(parts == row_address_parts(*self));
        parts.to_address()
    }

    /// The land-use category of the row's label.
    pub fn extract_land_use_type(&self) -> (r: Result<LandUseType, CoreError>)
        ensures
            r is Ok <==> classify(self.land_use_type@) is Some,
            r matches Ok(t) ==> classify(self.land_use_type@) == Some(t),
            r matches Err(e) ==> e matches CoreError::UnrecognizedLandUseType(s) && s@ == self.land_use_type@,
    {
        LandUseType::from_label(self.land_use_type.as_str())
    }

    /// The property record of the row. The parcel number, the address and the
    /// land-use label are checked in that order; the coordinate is kept only
    /// when both of its parts are present.
    pub fn to_domain(self) -> (r: Result<Property, CoreError>)
        ensures
            r is Ok <==> property_row_translates(self),
            !(canonical_apn(self.apn@) is Ok) ==> (r matches Err(CoreError::ValidationError(v)) && v.field
                == Field::Apn),
            canonical_apn(self.apn@) is Ok && !is_postal_code(self.zip_or_postal_code@) ==> (r matches Err(
                CoreError::ValidationError(v),
            ) && v.field == Field::ZipOrPostalCode),
            canonical_apn(self.apn@) is Ok && is_postal_code(self.zip_or_postal_code@) && classify(
                self.land_use_type@,
            ) is None ==> (r matches Err(CoreError::UnrecognizedLandUseType(s)) && s@ == self.land_use_type@),
            r matches Ok(p) ==> {
                &&& p.id is None
                &&& canonical_apn(self.apn@) == Ok::<Seq<char>, ValidationKind>(p.apn@)
                &&& address_from_parts(p.address, row_address_parts(self))
                &&& p.admin_division@ == self.admin_division@
                &&& (p.geo_coordinate is Some <==> self.latitude is Some && self.longitude is Some)
                &&& classify(self.land_use_type@) == Some(p.land_use_type)
                &&& p.area_sq_ft == self.area_sq_ft
                &&& p.nr_bedrooms == self.nr_bedrooms
                &&& p.nr_bathrooms == self.nr_bathrooms
                &&& p.total_area_sq_ft == self.total_area_sq_ft
            },
    {
        let apn = match self.extract_apn() {
            Ok(a) => a,
            Err(e) => return Err(e),
        };
        let address = match self.extract_address() {
            Ok(a) => a,
            Err(e) => return Err(e),
        };
        let land_use_type = match self.extract_land_use_type() {
            Ok(t) => t,
            Err(e) => return Err(e),
        };
        let geo_coordinate = match (self.latitude, self.longitude) {
            (Some(latitude), Some(longitude)) => Some(GeoCoordinate::new(latitude, longitude)),
            _ => None,
        };
        Ok(
            Property {
                id: None,
                apn,
                address,
                admin_division: self.admin_division,
                geo_coordinate,
                land_use_type,
                area_sq_ft: self.area_sq_ft,
                nr_bedrooms: self.nr_bedrooms,
                nr_bathrooms: self.nr_bathrooms,
                total_area_sq_ft: self.total_area_sq_ft,
            },
        )
    }
}

} // verus!
