//! Land-use categories and the classifier that maps free-text labels onto
//! them.

use crate::error::CoreError;
use crate::text::{regex_finds_ignoring_case, regex_search};
use vstd::prelude::*;

verus! {

/// The residential land-use categories.
#[derive(Debug, Clone, Copy, PartialEq, Eq, Structural)]
pub enum LandUseType {
    CondominiumUnit,
    Duplex,
    MobileOrManufacturedHome,
    MultiFamilyDwellings,
    PlannedUnitDevelopment,
    Quadruplex,
    RuralOrAgriculturalResidence,
    SingleFamilyResidential,
    Townhouse,
    Triplex,
    VacationResidence,
}

/// Number of categories.
pub const CATEGORY_COUNT: usize = 11;

/// The category tried at position `i` of the priority order.
pub open spec fn category_at(i: int) -> LandUseType {
    if i == 0 {
        LandUseType::CondominiumUnit
    } else if i == 1 {
        LandUseType::Duplex
    } else if i == 2 {
        LandUseType::MobileOrManufacturedHome
    } else if i == 3 {
        LandUseType::MultiFamilyDwellings
    } else if i == 4 {
        LandUseType::PlannedUnitDevelopment
    } else if i == 5 {
        LandUseType::Quadruplex
    } else if i == 6 {
        LandUseType::RuralOrAgriculturalResidence
    } else if i == 7 {
        LandUseType::SingleFamilyResidential
    } else if i == 8 {
        LandUseType::Townhouse
    } else if i == 9 {
        LandUseType::Triplex
    } else {
        LandUseType::VacationResidence
    }
}

/// The case-insensitive patterns that recognise a category.
pub open spec fn category_patterns(t: LandUseType) -> Seq<Seq<char>> {
    match t {
        LandUseType::CondominiumUnit => seq!["condominium\\s*unit"@],
        LandUseType::Duplex => seq!["duplex"@],
        LandUseType::MobileOrManufacturedHome => seq![
            "mobile\\s*home"@,
            "manufactured\\s*home"@,
            "mobile\\s*or\\s*manufactured\\s*home"@,
            "manufactured\\s*or\\s*mobile\\s*home"@,
        ],
        LandUseType::MultiFamilyDwellings => seq![
            "multi\\s*-?\\s*family\\s*dwellings?"@,
            "multi\\s*-?\\s*family\\s*residential"@,
            "multi\\s*residential"@,
        ],
        LandUseType::PlannedUnitDevelopment => seq![
            "planned\\s*unit\\s*development"@,
            "planned\\s*development"@,
        ],
        LandUseType::Quadruplex => seq!["quadruplex"@],
        LandUseType::RuralOrAgriculturalResidence => seq![
            "rural\\s*or\\s*agricultural\\s*residence"@,
            "rural\\s*residence"@,
            "agricultural\\s*residence"@,
        ],
        LandUseType::SingleFamilyResidential => seq![
            "single\\s*family\\s*residential"@,
            "single\\s*residential"@,
        ],
        LandUseType::Townhouse => seq!["townhouse"@],
        LandUseType::Triplex => seq!["triplex"@],
        LandUseType::VacationResidence => seq!["vacation\\s*residence"@],
    }
}

/// Some pattern of the category matches somewhere in the label.
pub open spec fn in_category(t: LandUseType, label: Seq<char>) -> bool {
    exists|i: int|
        0 <= i < category_patterns(t).len() && #[trigger] regex_finds_ignoring_case(
            category_patterns(t)[i],
            label,
        ) == Some(true)
}

/// The first category, from position `i` of the priority order on, that
/// recognises the label.
pub open spec fn classify_from(label: Seq<char>, i: int) -> Option<LandUseType>
    decreases CATEGORY_COUNT - i,
{
    if i < 0 || i >= CATEGORY_COUNT {
        None
    } else if in_category(category_at(i), label) {
        Some(category_at(i))
    } else {
        classify_from(label, i + 1)
    }
}

/// The category of a label: the first in priority order that recognises it.
pub open spec fn classify(label: Seq<char>) -> Option<LandUseType> {
    classify_from(label, 0)
}

/// The name under which a category is stored and shown.
pub open spec fn category_name(t: LandUseType) -> Seq<char> {
    match t {
        LandUseType::CondominiumUnit => "CondominiumUnit"@,
        LandUseType::Duplex => "Duplex"@,
        LandUseType::MobileOrManufacturedHome => "MobileOrManufacturedHome"@,
        LandUseType::MultiFamilyDwellings => "MultiFamilyDwellings"@,
        LandUseType::PlannedUnitDevelopment => "PlannedUnitDevelopment"@,
        LandUseType::Quadruplex => "Quadruplex"@,
        LandUseType::RuralOrAgriculturalResidence => "RuralOrAgriculturalResidence"@,
        LandUseType::SingleFamilyResidential => "SingleFamilyResidential"@,
        LandUseType::Townhouse => "Townhouse"@,
        LandUseType::Triplex => "Triplex"@,
        LandUseType::VacationResidence => "VacationResidence"@,
    }
}

fn category_at_exec(i: usize) -> (t: LandUseType)
    requires
        i < CATEGORY_COUNT,
    ensures
        t == category_at(i as int),
{
    match i {
        0 => LandUseType::CondominiumUnit,
        1 => LandUseType::Duplex,
        2 => LandUseType::MobileOrManufacturedHome,
        3 => LandUseType::MultiFamilyDwellings,
        4 => LandUseType::PlannedUnitDevelopment,
        5 => LandUseType::Quadruplex,
        6 => LandUseType::RuralOrAgriculturalResidence,
        7 => LandUseType::SingleFamilyResidential,
        8 => LandUseType::Townhouse,
        9 => LandUseType::Triplex,
        _ => LandUseType::VacationResidence,
    }
}

impl LandUseType {
    /// The patterns that recognise this category.
    pub fn patterns(&self) -> (r: Vec<&'static str>)
        ensures
            r@.len() == category_patterns(*self).len(),
            forall|i: int| 0 <= i < r@.len() ==> #[trigger] r@[i]@ == category_patterns(*self)[i],
    {
        match self {
            LandUseType::CondominiumUnit => vec!["condominium\\s*unit"],
            LandUseType::Duplex => vec!["duplex"],
            LandUseType::MobileOrManufacturedHome => vec![
                "mobile\\s*home",
                "manufactured\\s*home",
                "mobile\\s*or\\s*manufactured\\s*home",
                "manufactured\\s*or\\s*mobile\\s*home",
            ],
            LandUseType::MultiFamilyDwellings => vec![
                "multi\\s*-?\\s*family\\s*dwellings?",
                "multi\\s*-?\\s*family\\s*residential",
                "multi\\s*residential",
            ],
            LandUseType::PlannedUnitDevelopment => vec![
                "planned\\s*unit\\s*development",
                "planned\\s*development",
            ],
            LandUseType::Quadruplex => vec!["quadruplex"],
            LandUseType::RuralOrAgriculturalResidence => vec![
                "rural\\s*or\\s*agricultural\\s*residence",
                "rural\\s*residence",
                "agricultural\\s*residence",
            ],
            LandUseType::SingleFamilyResidential => vec![
                "single\\s*family\\s*residential",
                "single\\s*residential",
            ],
            LandUseType::Townhouse => vec!["townhouse"],
            LandUseType::Triplex => vec!["triplex"],
            LandUseType::VacationResidence => vec!["vacation\\s*residence"],
        }
    }

    /// Whether some pattern of this category matches the label.
    pub fn recognises(&self, label: &str) -> (b: bool)
        ensures
            b == in_category(*self, label@),
    {
        let pats = self.patterns();
        let mut i: usize = 0;
        while i < pats.len()
            invariant
                pats@.len() == category_patterns(*self).len(),
                forall|j: int| 0 <= j < pats@.len() ==> #[trigger] pats@[j]@ == category_patterns(*self)[j],
                i <= pats@.len(),
                forall|j: int|
                    0 <= j < i ==> #[trigger] regex_finds_ignoring_case(category_patterns(*self)[j], label@)
                        != Some(true),
            decreases pats@.len() - i,
        {
            let found = regex_search(pats[i], label);
            if found == Some(true) {
                assert(regex_finds_ignoring_case(category_patterns(*self)[i as int], label@) == Some(true));
                return true;
            }
            i = i + 1;
        }
        false
    }

    /// Classifies a free-text land-use label: the categories are tried in
    /// priority order and the first that recognises the label wins; a label
    /// that none recognises is refused.
    pub fn from_label(label: &str) -> (r: Result<LandUseType, CoreError>)
        ensures
            r matches Ok(t) ==> classify(label@) == Some(t),
            r matches Err(e) ==> classify(label@) is None && (e matches CoreError::UnrecognizedLandUseType(s)
                && s@ == label@),
    {
        let mut i: usize = 0;
        while i < CATEGORY_COUNT
            invariant
                i <= CATEGORY_COUNT,
                classify(label@) == classify_from(label@, i as int),
            decreases CATEGORY_COUNT - i,
        {
            let t = category_at_exec(i);
            if t.recognises(label) {
                return Ok(t);
            }
            i = i + 1;
        }
        Err(CoreError::UnrecognizedLandUseType(String::from_str(label)))
    }

    /// The name under which the category is stored and shown.
    pub fn name(&self) -> (r: &'static str)
        ensures
            r@ == category_name(*self),
    {
        match self {
            LandUseType::CondominiumUnit => "CondominiumUnit",
            LandUseType::Duplex => "Duplex",
            LandUseType::MobileOrManufacturedHome => "MobileOrManufacturedHome",
            LandUseType::MultiFamilyDwellings => "MultiFamilyDwellings",
            LandUseType::PlannedUnitDevelopment => "PlannedUnitDevelopment",
            LandUseType::Quadruplex => "Quadruplex",
            LandUseType::RuralOrAgriculturalResidence => "RuralOrAgriculturalResidence",
            LandUseType::SingleFamilyResidential => "SingleFamilyResidential",
            LandUseType::Townhouse => "Townhouse",
            LandUseType::Triplex => "Triplex",
            LandUseType::VacationResidence => "VacationResidence",
        }
    }
}

} // verus!
