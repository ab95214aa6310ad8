use address_propensity::address::{
    Address, AddressLine, City, CountryCode, SecondaryAddressLine, StateOrRegion, StreetDirection, ZipOrPostalCode,
};
use address_propensity::error::{Field, ValidationError, ValidationKind};

#[test]
fn test_address_display() {
    let address = Address::new_in_usa(
        AddressLine::new(&3112.to_string(), "Bonnie Brook", "Ln", StreetDirection::for_prefix("n")),
        Some(SecondaryAddressLine::new("Unit", "7A")),
        City::new("Plano"),
        StateOrRegion::new("Tx"),
        ZipOrPostalCode::new(&75075.to_string()).expect("valid zip code"),
    );

    assert_eq!(
        address.to_string(),
        "3112 N BONNIE BROOK LN UNIT 7A, PLANO, TX 75075, USA".to_string()
    );
}

#[test]
fn test_address_line_display() {
    let address = AddressLine {
        street_number: 3112.to_string(),
        street_direction: StreetDirection::NoDirection,
        street_name: "Bonnie Brook".to_string(),
        street_suffix: "Ln".to_string(),
    };

    assert_eq!(address.to_string(), "3112 Bonnie Brook Ln".to_string());

    let address = AddressLine {
        street_direction: StreetDirection::for_prefix("NE"),
        ..address
    };
    assert_eq!(address.to_string(), "3112 NE Bonnie Brook Ln".to_string());

    let address = AddressLine {
        street_direction: StreetDirection::for_suffix("SW"),
        ..address
    };
    assert_eq!(address.to_string(), "3112 Bonnie Brook Ln SW".to_string());
}

#[test]
fn address_without_secondary_line() {
    let address = Address::new_in_usa(
        AddressLine::new("12", "elm", "st", StreetDirection::new(None, Some("w"))),
        None,
        City::new("austin"),
        StateOrRegion::new("tx"),
        ZipOrPostalCode::new("73301").unwrap(),
    );
    assert_eq!(address.to_string(), "12 ELM ST W, AUSTIN, TX 73301, USA");
}

#[test]
fn postal_code_round_trips() {
    for code in ["75075", "00000", "99999", "01234"] {
        let zip = ZipOrPostalCode::new(code).unwrap();
        assert_eq!(zip.to_string(), code);
        assert_eq!(zip.as_str(), code);
    }
}

#[test]
fn postal_code_rejects_other_shapes() {
    let expected = ValidationError { field: Field::ZipOrPostalCode, kind: ValidationKind::Format };
    for code in ["7507", "750751", "75075-1234", "abcde", "", "7507a", " 75075"] {
        assert_eq!(ZipOrPostalCode::new(code).unwrap_err(), expected);
    }
}

#[test]
fn street_direction_variants() {
    assert_eq!(StreetDirection::new(None, None), StreetDirection::NoDirection);
    assert_eq!(StreetDirection::new(Some("n"), None), StreetDirection::Prefix("N".to_string()));
    assert_eq!(StreetDirection::new(None, Some("se")), StreetDirection::Suffix("SE".to_string()));
    assert_eq!(
        StreetDirection::new(Some("n"), Some("w")),
        StreetDirection::Both("N".to_string(), "W".to_string())
    );
    let both = StreetDirection::new(Some("n"), Some("w"));
    assert_eq!(both.prefix(), Some("N".to_string()));
    assert_eq!(both.suffix(), Some("W".to_string()));
    assert_eq!(StreetDirection::NoDirection.prefix(), None);
    assert_eq!(StreetDirection::for_prefix("e").suffix(), None);
    assert_eq!(both.decorate_street_name("MAIN ST"), "N MAIN ST W");
    assert_eq!(StreetDirection::NoDirection.decorate_street_name("MAIN ST"), "MAIN ST");
}

#[test]
fn free_text_is_upper_cased() {
    assert_eq!(City::new("Plano").as_str(), "PLANO");
    assert_eq!(StateOrRegion::new("tx").as_str(), "TX");
    let line = SecondaryAddressLine::new("apt", "b2");
    assert_eq!(line.designator, "APT");
    assert_eq!(line.number, "B2");
    let line = AddressLine::new("10a", "oak", "ave", StreetDirection::NoDirection);
    assert_eq!(line.street_number, "10a");
    assert_eq!(line.street_name, "OAK");
}

#[test]
fn country_code_length() {
    let code = CountryCode::new("can", "Canada").unwrap();
    assert_eq!(code.iso_3166_alpha_3(), "CAN");
    assert_eq!(
        CountryCode::new("us", "United States").unwrap_err(),
        ValidationError { field: Field::CountryCode, kind: ValidationKind::Length }
    );
    assert_eq!(CountryCode::usa().iso_3166_alpha_3(), "USA");
}
