use address_propensity::address::{Address, AddressLine, City, StateOrRegion, StreetDirection, ZipOrPostalCode};
use address_propensity::error::{CoreError, Field, ValidationError, ValidationKind};
use address_propensity::ingest::{
    ingest_propensity_row, ingest_property_row, lacks_property, next_step, start_propensity_row, KeyTable, Next,
    QualityReport, RowOutcome, StoreCall, StoreReply,
};
use address_propensity::land_use::LandUseType;
use address_propensity::parcel::AssessorParcelNumber;
use address_propensity::propensity::{PropensityScore, PropertyPropensityScore};
use address_propensity::rows::{CsvProperty, CsvPropertyPropensityScore, RowRead};
use address_propensity::search::{search_items, PropensityRouteError, PropensityScoresParameters};

fn propensity_row(apn: &str, zip: Option<&str>, score: Option<u16>) -> CsvPropertyPropensityScore {
    CsvPropertyPropensityScore {
        apn: apn.to_string(),
        street_number: Some("3112".to_string()),
        street_number_suffix: None,
        street_pre_direction: Some("N".to_string()),
        street_name: Some("Bonnie Brook".to_string()),
        street_suffix: Some("Ln".to_string()),
        street_post_direction: None,
        secondary_designator: None,
        secondary_number: None,
        city: Some("Plano".to_string()),
        state_or_region: Some("TX".to_string()),
        zip_or_postal_code: zip.map(|z| z.to_string()),
        propensity_score: score,
    }
}

fn property_row(apn: &str, zip: &str, land_use: &str) -> CsvProperty {
    CsvProperty {
        apn: apn.to_string(),
        street_number: "3112".to_string(),
        street_pre_direction: Some("n".to_string()),
        street_name: "Bonnie Brook".to_string(),
        street_suffix: "Ln".to_string(),
        street_post_direction: None,
        secondary_designator: Some("Unit".to_string()),
        secondary_number: Some("7A".to_string()),
        city: "Plano".to_string(),
        state_or_region: "Tx".to_string(),
        zip_or_postal_code: zip.to_string(),
        latitude: Some("33.0198".parse().unwrap()),
        longitude: Some("-96.6989".parse().unwrap()),
        admin_division: "Collin".to_string(),
        land_use_type: land_use.to_string(),
        area_sq_ft: Some(2100),
        nr_bedrooms: Some(4),
        nr_bathrooms: Some("2.5".parse().unwrap()),
        total_area_sq_ft: Some(8000),
    }
}

#[test]
fn same_row_twice_is_saved_once() {
    let mut store = KeyTable::new();
    let properties = KeyTable::new();
    let mut report = QualityReport::new();
    let row = propensity_row("123-456-7890", Some("75075"), Some(700));
    let first = ingest_propensity_row(&mut store, &properties, &mut report, 1, RowRead::Parsed(row.clone()));
    let second = ingest_propensity_row(&mut store, &properties, &mut report, 2, RowRead::Parsed(row));
    assert_eq!(first, RowOutcome::Saved);
    assert_eq!(second, RowOutcome::SkippedDuplicate);
    assert_eq!(store.len(), 1);
    assert_eq!(report.saved, vec![1]);
    assert_eq!(report.duplicates, vec![2]);
    assert_eq!(report.skipped, vec![2]);
}

#[test]
fn same_property_row_twice_is_saved_once() {
    let mut store = KeyTable::new();
    let mut report = QualityReport::new();
    let first = ingest_property_row(
        &mut store,
        &mut report,
        1,
        RowRead::Parsed(property_row("123-456-7890", "75075", "Single Family Residential")),
    );
    let second = ingest_property_row(
        &mut store,
        &mut report,
        2,
        RowRead::Parsed(property_row("1234567890", "75075", "Single Family Residential")),
    );
    assert_eq!(first, RowOutcome::Saved);
    assert_eq!(second, RowOutcome::SkippedDuplicate);
    assert_eq!(store.len(), 1);
}

#[test]
fn unmatched_propensity_row_is_saved_and_flagged() {
    let mut store = KeyTable::new();
    let mut properties = KeyTable::new();
    properties.save(&AssessorParcelNumber::new("999-999").unwrap());
    let mut report = QualityReport::new();
    let outcome = ingest_propensity_row(
        &mut store,
        &properties,
        &mut report,
        7,
        RowRead::Parsed(propensity_row("123-456-7890", None, Some(10))),
    );
    assert_eq!(outcome, RowOutcome::Saved);
    assert_eq!(store.len(), 1);
    assert_eq!(report.not_in_core_properties, vec![7]);
    assert_eq!(report.not_in_core_properties.len(), 1);
}

#[test]
fn matched_propensity_row_is_not_flagged() {
    let mut store = KeyTable::new();
    let mut properties = KeyTable::new();
    properties.save(&AssessorParcelNumber::new("1234567890").unwrap());
    let mut report = QualityReport::new();
    let outcome = ingest_propensity_row(
        &mut store,
        &properties,
        &mut report,
        1,
        RowRead::Parsed(propensity_row("123-456-7890", Some("75075"), Some(10))),
    );
    assert_eq!(outcome, RowOutcome::Saved);
    assert!(report.not_in_core_properties.is_empty());
}

#[test]
fn missing_score_is_skipped_before_translation() {
    let mut store = KeyTable::new();
    let properties = KeyTable::new();
    let mut report = QualityReport::new();
    // The row would fail every later check; the missing score decides first.
    let row = propensity_row("x", Some("bad"), None);
    assert_eq!(row.to_domain(), Ok(None));
    let outcome = ingest_propensity_row(&mut store, &properties, &mut report, 3, RowRead::Parsed(row));
    assert_eq!(outcome, RowOutcome::SkippedMissingScore);
    assert_eq!(store.len(), 0);
    assert_eq!(report.missing_scores, vec![3]);
    assert_eq!(report.skipped, vec![3]);
}

#[test]
fn failure_categories() {
    let mut store = KeyTable::new();
    let properties = KeyTable::new();
    let mut report = QualityReport::new();
    let malformed = ingest_propensity_row(&mut store, &properties, &mut report, 1, RowRead::Malformed);
    let short_apn = ingest_propensity_row(
        &mut store,
        &properties,
        &mut report,
        2,
        RowRead::Parsed(propensity_row("12-34", None, Some(5))),
    );
    let bad_zip = ingest_propensity_row(
        &mut store,
        &properties,
        &mut report,
        3,
        RowRead::Parsed(propensity_row("1234567", Some("7507"), Some(5))),
    );
    let bad_score = ingest_propensity_row(
        &mut store,
        &properties,
        &mut report,
        4,
        RowRead::Parsed(propensity_row("1234567", None, Some(0))),
    );
    let rejected = ingest_propensity_row(
        &mut store,
        &properties,
        &mut report,
        5,
        RowRead::Rejected(ValidationError { field: Field::Latitude, kind: ValidationKind::Range }),
    );
    assert_eq!(malformed, RowOutcome::SkippedDeserializationFailure);
    assert_eq!(short_apn, RowOutcome::SkippedValidationFailure);
    assert_eq!(bad_zip, RowOutcome::SkippedDeserializationFailure);
    assert_eq!(bad_score, RowOutcome::SkippedDeserializationFailure);
    assert_eq!(rejected, RowOutcome::SkippedValidationFailure);
    assert_eq!(report.deserialization_failures, vec![1, 3, 4]);
    assert_eq!(report.validation_failures, vec![2, 5]);
    assert_eq!(report.skipped, vec![1, 2, 3, 4, 5]);
    assert_eq!(report.first_skipped(2), vec![1, 2]);
    assert_eq!(report.first_skipped(10), vec![1, 2, 3, 4, 5]);
    assert_eq!(store.len(), 0);
}

#[test]
fn property_row_with_unknown_land_use_fails_translation() {
    let mut store = KeyTable::new();
    let mut report = QualityReport::new();
    let outcome = ingest_property_row(
        &mut store,
        &mut report,
        1,
        RowRead::Parsed(property_row("1234567", "75075", "Treehouse")),
    );
    assert_eq!(outcome, RowOutcome::SkippedDeserializationFailure);
    assert_eq!(
        property_row("1234567", "75075", "Treehouse").to_domain().unwrap_err(),
        CoreError::UnrecognizedLandUseType("Treehouse".to_string())
    );
}

#[test]
fn property_row_translation() {
    let property = property_row("123-456-7890", "75075", "single family residential").to_domain().unwrap();
    assert_eq!(property.id, None);
    assert_eq!(property.apn.apn(), "00001234567890");
    assert_eq!(property.land_use_type, LandUseType::SingleFamilyResidential);
    assert_eq!(property.address.to_string(), "3112 N BONNIE BROOK LN UNIT 7A, PLANO, TX 75075, USA");
    assert!(property.geo_coordinate.is_some());
    assert_eq!(property.nr_bedrooms, Some(4));

    let mut row = property_row("1234567", "75075", "Duplex");
    row.longitude = None;
    assert!(row.to_domain().unwrap().geo_coordinate.is_none());

    let err = property_row("1234567", "ABCDE", "Duplex").to_domain().unwrap_err();
    assert_eq!(
        err,
        CoreError::ValidationError(ValidationError { field: Field::ZipOrPostalCode, kind: ValidationKind::Format })
    );
}

#[test]
fn propensity_row_translation() {
    let record = start_propensity_row(&RowRead::Parsed(propensity_row("12-34567", Some("75075"), Some(42)))).unwrap();
    assert_eq!(record.apn.apn(), "00000001234567");
    assert_eq!(record.zip_or_postal_code.unwrap().as_str(), "75075");
    assert_eq!(record.score, PropensityScore { score: 42 });
}

#[test]
fn store_replies_drive_the_row() {
    assert_eq!(
        next_step(true, StoreCall::FindExisting, StoreReply::Found),
        Next::Finish(RowOutcome::SkippedDuplicate)
    );
    assert_eq!(
        next_step(true, StoreCall::FindExisting, StoreReply::NotFound),
        Next::Call(StoreCall::FindProperty)
    );
    assert_eq!(next_step(false, StoreCall::FindExisting, StoreReply::NotFound), Next::Call(StoreCall::Save));
    assert_eq!(
        next_step(false, StoreCall::FindExisting, StoreReply::Failed),
        Next::Finish(RowOutcome::SkippedDeserializationFailure)
    );
    assert_eq!(next_step(true, StoreCall::FindProperty, StoreReply::Failed), Next::Call(StoreCall::Save));
    assert_eq!(next_step(true, StoreCall::Save, StoreReply::Stored), Next::Finish(RowOutcome::Saved));
    assert_eq!(next_step(true, StoreCall::Save, StoreReply::Failed), Next::Finish(RowOutcome::SkippedSaveFailure));
    assert!(lacks_property(StoreReply::NotFound));
    assert!(lacks_property(StoreReply::Failed));
    assert!(!lacks_property(StoreReply::Found));
}

#[test]
fn save_failure_keeps_the_raw_row() {
    let mut report: QualityReport<CsvPropertyPropensityScore> = QualityReport::new();
    let row = propensity_row("1234567", None, Some(3));
    report.record(9, RowOutcome::SkippedSaveFailure, Some(row.clone()));
    assert_eq!(report.save_failures, vec![(9, Some(row))]);
    assert_eq!(report.skipped, vec![9]);
}

#[test]
fn search_query_and_results() {
    let params = PropensityScoresParameters { limit: None, zip_code: "75075".to_string() };
    let (zip, limit) = params.query().unwrap();
    assert_eq!(zip.as_str(), "75075");
    assert_eq!(limit, 10);
    let params = PropensityScoresParameters { limit: Some(3), zip_code: "75075".to_string() };
    assert_eq!(params.query().unwrap().1, 3);
    let bad = PropensityScoresParameters { limit: None, zip_code: "7507".to_string() };
    let err = bad.query().unwrap_err();
    assert_eq!(err.status_code(), 400);
    assert_eq!(PropensityRouteError::UnexpectedError("down".to_string()).status_code(), 500);

    let apn = AssessorParcelNumber::new("1234567").unwrap();
    let record = PropertyPropensityScore::new(PropensityScore { score: 800 }, &apn, &Some(zip.clone())).unwrap();
    let address = Address::new_in_usa(
        AddressLine::new("1", "main", "st", StreetDirection::NoDirection),
        None,
        City::new("plano"),
        StateOrRegion::new("tx"),
        ZipOrPostalCode::new("75075").unwrap(),
    );
    let items = search_items(vec![(record.clone(), Some(address)), (record, None)]);
    assert_eq!(items.len(), 2);
    assert_eq!(items[0].apn, apn);
    assert_eq!(items[0].propensity_score.score, 800);
    assert_eq!(items[0].address.as_ref().unwrap().to_string(), "1 MAIN ST, PLANO, TX 75075, USA");
    assert!(items[1].address.is_none());
}
