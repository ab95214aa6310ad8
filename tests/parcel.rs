use address_propensity::error::{Field, ValidationError, ValidationKind};
use address_propensity::parcel::AssessorParcelNumber;

#[test]
fn apn_strips_hyphens_and_pads() {
    assert_eq!(AssessorParcelNumber::new("123-456-789").unwrap().apn(), "00000123456789");
    assert_eq!(AssessorParcelNumber::new("12").unwrap().apn(), "00000000000012");
    assert_eq!(AssessorParcelNumber::new("1-2").unwrap().apn(), "00000000000012");
    assert_eq!(AssessorParcelNumber::new("12345678901234").unwrap().apn(), "12345678901234");
    assert_eq!(AssessorParcelNumber::new("1234-5678-9012-34").unwrap().apn(), "12345678901234");
}

#[test]
fn apn_canonical_form_is_stable() {
    for raw in ["123-456-789", "0-1", "98-76-54-32-10-12-3"] {
        let once = AssessorParcelNumber::new(raw).unwrap();
        let twice = AssessorParcelNumber::new(once.apn()).unwrap();
        assert_eq!(once, twice);
    }
}

#[test]
fn differently_hyphenated_apns_compare_equal() {
    assert_eq!(AssessorParcelNumber::new("12-34-56").unwrap(), AssessorParcelNumber::new("123-456").unwrap());
}

#[test]
fn apn_without_numeric_run_is_a_format_failure() {
    let format = ValidationError { field: Field::Apn, kind: ValidationKind::Format };
    for raw in ["", "1", "abc", "1-", "-1", "1 2", "1a2"] {
        assert_eq!(AssessorParcelNumber::new(raw).unwrap_err(), format);
    }
}

#[test]
fn apn_longer_than_fourteen_digits_is_a_length_failure() {
    assert_eq!(
        AssessorParcelNumber::new("123456789012345").unwrap_err(),
        ValidationError { field: Field::Apn, kind: ValidationKind::Length }
    );
}

#[test]
fn apn_accepts_any_unicode_decimal_digits() {
    let apn = AssessorParcelNumber::new("\u{0661}\u{0662}").unwrap();
    assert_eq!(apn.apn(), "000000000000\u{0661}\u{0662}");
    let apn = AssessorParcelNumber::new("\u{0661}-\u{0662}").unwrap();
    assert_eq!(apn.apn(), "000000000000\u{0661}\u{0662}");
}
