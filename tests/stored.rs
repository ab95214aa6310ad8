use address_propensity::address::AddressParts;
use address_propensity::error::{CoreError, Field, ValidationError, ValidationKind};
use address_propensity::stored::StoredPropensity;

fn parts(zip: &str) -> AddressParts {
    AddressParts {
        street_number: "3112".to_string(),
        street_pre_direction: Some("n".to_string()),
        street_name: "Bonnie Brook".to_string(),
        street_suffix: "Ln".to_string(),
        street_post_direction: None,
        secondary_designator: Some("Unit".to_string()),
        secondary_number: None,
        city: "Plano".to_string(),
        state_or_region: "Tx".to_string(),
        zip_or_postal_code: zip.to_string(),
    }
}

#[test]
fn address_parts_assemble() {
    let address = parts("75075").to_address().unwrap();
    // A designator without a number gives no secondary line.
    assert!(address.secondary_address_line.is_none());
    assert_eq!(address.to_string(), "3112 N BONNIE BROOK LN, PLANO, TX 75075, USA");
    assert_eq!(
        parts("7507").to_address().unwrap_err(),
        CoreError::ValidationError(ValidationError { field: Field::ZipOrPostalCode, kind: ValidationKind::Format })
    );
}

#[test]
fn stored_propensity_is_validated_again() {
    let stored = StoredPropensity {
        id: 12,
        apn: "00001234567890".to_string(),
        score: 640,
        zip_or_postal_code: Some("75075".to_string()),
    };
    let record = stored.to_domain().unwrap();
    assert_eq!(record.id, Some(12));
    assert_eq!(record.apn.apn(), "00001234567890");
    assert_eq!(record.score.score, 640);

    let range = CoreError::ValidationError(ValidationError { field: Field::PropensityScore, kind: ValidationKind::Range });
    let negative = StoredPropensity { score: -1, ..stored.clone() };
    assert_eq!(negative.to_domain().unwrap_err(), range);
    let zero = StoredPropensity { score: 0, ..stored.clone() };
    assert_eq!(zero.to_domain().unwrap_err(), range);
    let bad_zip = StoredPropensity { zip_or_postal_code: Some("x".to_string()), ..stored };
    assert!(bad_zip.to_domain().is_err());
}
