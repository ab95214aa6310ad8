use address_propensity::error::CoreError;
use address_propensity::land_use::LandUseType;

#[test]
fn single_family_spellings_agree() {
    for label in ["Single Family Residential", "single residential", "SINGLE FAMILY RESIDENTIAL"] {
        assert_eq!(LandUseType::from_label(label).unwrap(), LandUseType::SingleFamilyResidential);
    }
}

#[test]
fn unknown_label_is_refused() {
    assert_eq!(
        LandUseType::from_label("Treehouse").unwrap_err(),
        CoreError::UnrecognizedLandUseType("Treehouse".to_string())
    );
    assert!(LandUseType::from_label("").is_err());
}

#[test]
fn categories_by_label() {
    assert_eq!(LandUseType::from_label("Duplex").unwrap(), LandUseType::Duplex);
    assert_eq!(LandUseType::from_label("Condominium Unit").unwrap(), LandUseType::CondominiumUnit);
    assert_eq!(LandUseType::from_label("Multi-Family Dwellings").unwrap(), LandUseType::MultiFamilyDwellings);
    assert_eq!(LandUseType::from_label("manufactured home").unwrap(), LandUseType::MobileOrManufacturedHome);
    assert_eq!(LandUseType::from_label("Planned Unit Development").unwrap(), LandUseType::PlannedUnitDevelopment);
    assert_eq!(LandUseType::from_label("Rural Residence").unwrap(), LandUseType::RuralOrAgriculturalResidence);
    assert_eq!(LandUseType::from_label("Townhouse").unwrap(), LandUseType::Townhouse);
    assert_eq!(LandUseType::from_label("TRIPLEX").unwrap(), LandUseType::Triplex);
    assert_eq!(LandUseType::from_label("Quadruplex").unwrap(), LandUseType::Quadruplex);
    assert_eq!(LandUseType::from_label("Vacation Residence").unwrap(), LandUseType::VacationResidence);
}

#[test]
fn earlier_category_wins() {
    assert_eq!(LandUseType::from_label("condominium unit in a duplex").unwrap(), LandUseType::CondominiumUnit);
    assert_eq!(LandUseType::from_label("duplex townhouse").unwrap(), LandUseType::Duplex);
}

#[test]
fn stored_names_classify_back() {
    for t in [
        LandUseType::CondominiumUnit,
        LandUseType::Duplex,
        LandUseType::SingleFamilyResidential,
        LandUseType::MultiFamilyDwellings,
        LandUseType::VacationResidence,
    ] {
        assert_eq!(LandUseType::from_label(t.name()).unwrap(), t);
    }
    assert_eq!(LandUseType::SingleFamilyResidential.name(), "SingleFamilyResidential");
}
