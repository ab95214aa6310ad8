//! Postal addresses. Every free-text part is stored upper-cased so that
//! equality and display are deterministic; only the US display format is
//! provided.

use crate::error::{CoreError, Field, ValidationError, ValidationKind};
use crate::text::{is_ascii_digit, is_digit, push_char, to_upper, upper_of};
use vstd::prelude::*;

verus! {

/// `a`, a space, then `b`.
pub open spec fn spaced(a: Seq<char>, b: Seq<char>) -> Seq<char> {
    a + seq![' '] + b
}

/// `a`, a comma and a space, then `b`.
pub open spec fn comma_spaced(a: Seq<char>, b: Seq<char>) -> Seq<char> {
    a + seq![',', ' '] + b
}

fn join(a: &str, sep: char, b: &str) -> (r: String)
    ensures
        r@ == a@ + seq![sep] + b@,
{
    let mut r = String::from_str(a);
    push_char(&mut r, sep);
    r.append(b);
    r
}

fn join_comma(a: &str, b: &str) -> (r: String)
    ensures
        r@ == comma_spaced(a@, b@),
{
    let mut r = String::from_str(a);
    push_char(&mut r, ',');
    push_char(&mut r, ' ');
    r.append(b);
    proof {
        assert(a@.push(',').push(' ') + b@ =~= comma_spaced(a@, b@));
    }
    r
}

/// A valid US postal code: exactly five ASCII digits.
pub open spec fn is_postal_code(s: Seq<char>) -> bool {
    s.len() == 5 && forall|i: int| 0 <= i < s.len() ==> is_ascii_digit(#[trigger] s[i])
}

/// Directional tokens around a street name.
#[derive(Debug, Clone, PartialEq)]
pub enum StreetDirection {
    NoDirection,
    Prefix(String),
    Suffix(String),
    Both(String, String),
}

/// A street name decorated with its directional tokens.
pub open spec fn decorated(d: StreetDirection, name: Seq<char>) -> Seq<char> {
    match d {
        StreetDirection::NoDirection => name,
        StreetDirection::Prefix(pre) => spaced(pre@, name),
        StreetDirection::Suffix(post) => spaced(name, post@),
        StreetDirection::Both(pre, post) => spaced(spaced(pre@, name), post@),
    }
}

impl View for StreetDirection {
    /// The prefix token and the suffix token, each where present.
    type V = (Option<Seq<char>>, Option<Seq<char>>);

    open spec fn view(&self) -> (Option<Seq<char>>, Option<Seq<char>>) {
        match *self {
            StreetDirection::NoDirection => (None, None),
            StreetDirection::Prefix(pre) => (Some(pre@), None),
            StreetDirection::Suffix(post) => (None, Some(post@)),
            StreetDirection::Both(pre, post) => (Some(pre@), Some(post@)),
        }
    }
}

/// The upper-cased token, where one is given.
pub open spec fn upper_token(t: Option<&str>) -> Option<Seq<char>> {
    match t {
        Some(x) => Some(upper_of(x@)),
        None => None,
    }
}

impl StreetDirection {
    /// No decoration when neither token is given; otherwise the variant for
    /// the tokens given, each upper-cased.
    pub fn new(prefix_direction: Option<&str>, suffix_direction: Option<&str>) -> (r: Self)
        ensures
            r@ == (upper_token(prefix_direction), upper_token(suffix_direction)),
    {
        match (prefix_direction, suffix_direction) {
            (None, None) => StreetDirection::NoDirection,
            (Some(prefix), None) => Self::for_prefix(prefix),
            (None, Some(suffix)) => Self::for_suffix(suffix),
            (Some(prefix), Some(suffix)) => StreetDirection::Both(to_upper(prefix), to_upper(suffix)),
        }
    }

    /// A prefix token, upper-cased.
    pub fn for_prefix(rep: &str) -> (r: Self)
        ensures
            r@ == (Some(upper_of(rep@)), None::<Seq<char>>),
    {
        StreetDirection::Prefix(to_upper(rep))
    }

    /// A suffix token, upper-cased.
    pub fn for_suffix(rep: &str) -> (r: Self)
        ensures
            r@ == (None::<Seq<char>>, Some(upper_of(rep@))),
    {
        StreetDirection::Suffix(to_upper(rep))
    }

    /// The prefix token, if any.
    pub fn prefix(&self) -> (r: Option<String>)
        ensures
            r is Some == self@.0 is Some,
            r matches Some(x) ==> self@.0 == Some(x@),
    {
        match self {
            StreetDirection::NoDirection | StreetDirection::Suffix(_) => None,
            StreetDirection::Prefix(prefix) => Some(prefix.clone()),
            StreetDirection::Both(prefix, _) => Some(prefix.clone()),
        }
    }

    /// The suffix token, if any.
    pub fn suffix(&self) -> (r: Option<String>)
        ensures
            r is Some == self@.1 is Some,
            r matches Some(x) ==> self@.1 == Some(x@),
    {
        match self {
            StreetDirection::NoDirection | StreetDirection::Prefix(_) => None,
            StreetDirection::Suffix(suffix) => Some(suffix.clone()),
            StreetDirection::Both(_, suffix) => Some(suffix.clone()),
        }
    }

    /// The street name with the prefix token before it and the suffix token
    /// after it, each separated by a space.
    pub fn decorate_street_name(&self, street_name: &str) -> (r: String)
        ensures
            r@ == decorated(*self, street_name@),
    {
        match self {
            StreetDirection::NoDirection => String::from_str(street_name),
            StreetDirection::Prefix(pre) => join(pre.as_str(), ' ', street_name),
            StreetDirection::Suffix(post) => join(street_name, ' ', post.as_str()),
            StreetDirection::Both(pre, post) => {
                let front = join(pre.as_str(), ' ', street_name);
                join(front.as_str(), ' ', post.as_str())
            },
        }
    }
}

/// The primary line of an address.
#[derive(Debug, Clone, PartialEq)]
pub struct AddressLine {
    pub street_number: String,
    pub street_name: String,
    pub street_suffix: String,
    pub street_direction: StreetDirection,
}

/// How a primary line is shown: number, then the decorated street name and
/// suffix.
pub open spec fn address_line_text(l: AddressLine) -> Seq<char> {
    spaced(l.street_number@, decorated(l.street_direction, spaced(l.street_name@, l.street_suffix@)))
}

impl AddressLine {
    /// Builds a primary line; the street name and suffix are upper-cased, the
    /// number is kept as given.
    pub fn new(number: &str, name: &str, suffix: &str, direction: StreetDirection) -> (r: Self)
        ensures
            r.street_number@ == number@,
            r.street_name@ == upper_of(name@),
            r.street_suffix@ == upper_of(suffix@),
            r.street_direction == direction,
    {
        AddressLine {
            street_number: String::from_str(number),
            street_name: to_upper(name),
            street_suffix: to_upper(suffix),
            street_direction: direction,
        }
    }

    /// The line as shown, e.g. `3112 N BONNIE BROOK LN`.
    pub fn to_string(&self) -> (r: String)
        ensures
            r@ == address_line_text(*self),
    {
        let street = join(self.street_name.as_str(), ' ', self.street_suffix.as_str());
        let street = self.street_direction.decorate_street_name(street.as_str());
        join(self.street_number.as_str(), ' ', street.as_str())
    }
}

/// The secondary line of an address, such as a unit.
#[derive(Debug, Clone, PartialEq, Eq)]
pub struct SecondaryAddressLine {
    pub designator: String,
    pub number: String,
}

/// How a secondary line is shown: designator, then number.
pub open spec fn secondary_line_text(l: SecondaryAddressLine) -> Seq<char> {
    spaced(l.designator@, l.number@)
}

impl SecondaryAddressLine {
    /// Builds a secondary line; both parts are upper-cased.
    pub fn new(designator: &str, number: &str) -> (r: Self)
        ensures
            r.designator@ == upper_of(designator@),
            r.number@ == upper_of(number@),
    {
        SecondaryAddressLine { designator: to_upper(designator), number: to_upper(number) }
    }

    /// The line as shown, e.g. `UNIT 7A`.
    pub fn to_string(&self) -> (r: String)
        ensures
            r@ == secondary_line_text(*self),
    {
        join(self.designator.as_str(), ' ', self.number.as_str())
    }
}

/// A city name, upper-cased.
#[derive(Debug, Clone, PartialEq)]
pub struct City(String);

impl View for City {
    type V = Seq<char>;

    closed spec fn view(&self) -> Seq<char> {
        self.0@
    }
}

impl City {
    /// Upper-cases the name.
    pub fn new(city: &str) -> (r: Self)
        ensures
            r@ == upper_of(city@),
    {
        City(to_upper(city))
    }

    /// The stored name.
    pub fn as_str(&self) -> (r: &str)
        ensures
            r@ == self@,
    {
        self.0.as_str()
    }
}

/// A state or region, upper-cased.
#[derive(Debug, Clone, PartialEq)]
pub struct StateOrRegion(String);

impl View for StateOrRegion {
    type V = Seq<char>;

    closed spec fn view(&self) -> Seq<char> {
        self.0@
    }
}

impl StateOrRegion {
    /// Upper-cases the name.
    pub fn new(state_or_region: &str) -> (r: Self)
        ensures
            r@ == upper_of(state_or_region@),
    {
        StateOrRegion(to_upper(state_or_region))
    }

    /// The stored name.
    pub fn as_str(&self) -> (r: &str)
        ensures
            r@ == self@,
    {
        self.0.as_str()
    }
}

/// A five-digit US postal code.
#[derive(Debug, PartialEq, Eq)]
pub struct ZipOrPostalCode {
    code: String,
}

impl Clone for ZipOrPostalCode {
    fn clone(&self) -> (r: Self)
        ensures
            r == *self,
    {
        ZipOrPostalCode { code: self.code.clone() }
    }
}

impl View for ZipOrPostalCode {
    type V = Seq<char>;

    closed spec fn view(&self) -> Seq<char> {
        self.code@
    }
}

/// Whether the text is five ASCII digits.
pub fn check_postal_code(s: &str) -> (b: bool)
    ensures
        b == is_postal_code(s@),
{
    let n = s.unicode_len();
    if n != 5 {
        return false;
    }
    let mut i: usize = 0;
    while i < n
        invariant
            n == s@.len(),
            i <= n,
            forall|j: int| 0 <= j < i ==> is_ascii_digit(#[trigger] s@[j]),
        decreases n - i,
    {
        if !is_digit(s.get_char(i)) {
            return false;
        }
        i = i + 1;
    }
    true
}

impl ZipOrPostalCode {
    /// Accepts exactly five ASCII digits, kept as given; anything else is a
    /// format failure of the postal-code field.
    pub fn new(zip_or_postal_code: &str) -> (r: Result<Self, ValidationError>)
        ensures
            r is Ok <==> is_postal_code(zip_or_postal_code@),
            r matches Ok(z) ==> z@ == zip_or_postal_code@,
            r matches Err(e) ==> e == (ValidationError { field: Field::ZipOrPostalCode, kind: ValidationKind::Format }),
    {
        if check_postal_code(zip_or_postal_code) {
            Ok(ZipOrPostalCode { code: String::from_str(zip_or_postal_code) })
        } else {
            Err(ValidationError { field: Field::ZipOrPostalCode, kind: ValidationKind::Format })
        }
    }

    /// The code.
    pub fn as_str(&self) -> (r: &str)
        ensures
            r@ == self@,
    {
        self.code.as_str()
    }

    /// The code as shown.
    pub fn to_string(&self) -> (r: String)
        ensures
            r@ == self@,
    {
        self.code.clone()
    }
}

/// A three-letter ISO 3166 country code with the country's official name,
/// both upper-cased.
#[derive(Debug, Clone, PartialEq)]
pub struct CountryCode {
    iso_3166_alpha_3: String,
    official_name: String,
}

impl CountryCode {
    /// The country code.
    pub closed spec fn code(&self) -> Seq<char> {
        self.iso_3166_alpha_3@
    }

    /// The official name.
    pub closed spec fn official_name(&self) -> Seq<char> {
        self.official_name@
    }

    /// Upper-cases both parts; the code must then be three characters long.
    pub fn new(iso_3166_alpha_3_code: &str, name: &str) -> (r: Result<Self, ValidationError>)
        ensures
            r is Ok <==> upper_of(iso_3166_alpha_3_code@).len() == 3,
            r matches Ok(c) ==> c.code() == upper_of(iso_3166_alpha_3_code@) && c.official_name() == upper_of(
                name@,
            ),
            r matches Err(e) ==> e == (ValidationError { field: Field::CountryCode, kind: ValidationKind::Length }),
    {
        let iso_3166_alpha_3 = to_upper(iso_3166_alpha_3_code);
        let official_name = to_upper(name);
        if iso_3166_alpha_3.as_str().unicode_len() == 3 {
            Ok(CountryCode { iso_3166_alpha_3, official_name })
        } else {
            Err(ValidationError { field: Field::CountryCode, kind: ValidationKind::Length })
        }
    }

    /// The United States of America.
    pub fn usa() -> (r: Self)
        ensures
            r.code() == "USA"@,
            r.official_name() == "UNITED STATES OF AMERICA"@,
    {
        CountryCode {
            iso_3166_alpha_3: String::from_str("USA"),
            official_name: String::from_str("UNITED STATES OF AMERICA"),
        }
    }

    /// The country code.
    pub fn iso_3166_alpha_3(&self) -> (r: &str)
        ensures
            r@ == self.code(),
    {
        self.iso_3166_alpha_3.as_str()
    }
}

/// A postal address.
#[derive(Debug, Clone, PartialEq)]
pub struct Address {
    pub address_line: AddressLine,
    pub secondary_address_line: Option<SecondaryAddressLine>,
    pub city: City,
    pub state_or_region: StateOrRegion,
    pub zip_or_postal_code: ZipOrPostalCode,
    pub locale: CountryCode,
}

/// The street lines of an address: the primary line, then the secondary
/// line if there is one.
pub open spec fn street_lines_text(a: Address) -> Seq<char> {
    match a.secondary_address_line {
        Some(s) => spaced(address_line_text(a.address_line), secondary_line_text(s)),
        None => address_line_text(a.address_line),
    }
}

/// How an address is shown in the US: `LINES, CITY, STATE ZIP, COUNTRY`.
pub open spec fn address_text(a: Address) -> Seq<char> {
    comma_spaced(
        comma_spaced(comma_spaced(street_lines_text(a), a.city@), spaced(a.state_or_region@, a.zip_or_postal_code@)),
        a.locale.code(),
    )
}

impl Address {
    /// An address in the United States.
    pub fn new_in_usa(
        address_line: AddressLine,
        secondary_address_line: Option<SecondaryAddressLine>,
        city: City,
        state: StateOrRegion,
        zip_code: ZipOrPostalCode,
    ) -> (r: Self)
        ensures
            r.address_line == address_line,
            r.secondary_address_line == secondary_address_line,
            r.city == city,
            r.state_or_region == state,
            r.zip_or_postal_code == zip_code,
            r.locale.code() == "USA"@,
            r.locale.official_name() == "UNITED STATES OF AMERICA"@,
    {
        Address {
            address_line,
            secondary_address_line,
            city,
            state_or_region: state,
            zip_or_postal_code: zip_code,
            locale: CountryCode::usa(),
        }
    }

    /// The address as shown, e.g.
    /// `3112 N BONNIE BROOK LN UNIT 7A, PLANO, TX 75075, USA`.
    pub fn to_string(&self) -> (r: String)
        ensures
            r@ == address_text(*self),
    {
        let line = self.address_line.to_string();
        let lines = match &self.secondary_address_line {
            Some(second) => {
                let s = second.to_string();
                join(line.as_str(), ' ', s.as_str())
            },
            None => line,
        };
        let a = join_comma(lines.as_str(), self.city.as_str());
        let region = join(self.state_or_region.as_str(), ' ', self.zip_or_postal_code.as_str());
        let b = join_comma(a.as_str(), region.as_str());
        join_comma(b.as_str(), self.locale.iso_3166_alpha_3())
    }
}

/// The raw text parts of an address, as a tabular row or a stored record
/// holds them.
#[derive(Debug, Clone, PartialEq)]
pub struct AddressParts {
    pub street_number: String,
    pub street_pre_direction: Option<String>,
    pub street_name: String,
    pub street_suffix: String,
    pub street_post_direction: Option<String>,
    pub secondary_designator: Option<String>,
    pub secondary_number: Option<String>,
    pub city: String,
    pub state_or_region: String,
    pub zip_or_postal_code: String,
}

/// The upper-cased text of an optional part.
pub open spec fn upper_part(o: Option<String>) -> Option<Seq<char>> {
    match o {
        Some(s) => Some(upper_of(s@)),
        None => None,
    }
}

/// An optional part borrowed as text.
pub(crate) fn opt_str(o: &Option<String>) -> (r: Option<&str>)
    ensures
        upper_token(r) == upper_part(*o),
        r is Some <==> o is Some,
{
    match o {
        Some(s) => Some(s.as_str()),
        None => None,
    }
}

/// The address is the one its parts describe: free text upper-cased, the
/// street number and postal code kept, the secondary line present when both
/// of its parts are, and the country the United States.
pub open spec fn address_from_parts(a: Address, p: AddressParts) -> bool {
    &&& a.address_line.street_number@ == p.street_number@
    &&& a.address_line.street_name@ == upper_of(p.street_name@)
    &&& a.address_line.street_suffix@ == upper_of(p.street_suffix@)
    &&& a.address_line.street_direction@ == (upper_part(p.street_pre_direction), upper_part(p.street_post_direction))
    &&& (a.secondary_address_line is Some <==> p.secondary_designator is Some && p.secondary_number is Some)
    &&& (a.secondary_address_line matches Some(s) ==> p.secondary_designator matches Some(d)
        && p.secondary_number matches Some(n) && s.designator@ == upper_of(d@) && s.number@ == upper_of(n@))
    &&& a.city@ == upper_of(p.city@)
    &&& a.state_or_region@ == upper_of(p.state_or_region@)
    &&& a.zip_or_postal_code@ == p.zip_or_postal_code@
    &&& a.locale.code() == "USA"@
}

impl AddressParts {
    /// Assembles a US address from its parts; fails only on a malformed
    /// postal code.
    pub fn to_address(&self) -> (r: Result<Address, CoreError>)
        ensures
            r is Ok <==> is_postal_code(self.zip_or_postal_code@),
            r matches Ok(a) ==> address_from_parts(a, *self),
            r matches Err(e) ==> e == CoreError::ValidationError(
                ValidationError { field: Field::ZipOrPostalCode, kind: ValidationKind::Format },
            ),
    {
        let address_line = AddressLine::new(
            self.street_number.as_str(),
            self.street_name.as_str(),
            self.street_suffix.as_str(),
            StreetDirection::new(opt_str(&self.street_pre_direction), opt_str(&self.street_post_direction)),
        );
        let secondary_line = match (&self.secondary_designator, &self.secondary_number) {
            (Some(d), Some(n)) => Some(SecondaryAddressLine::new(d.as_str(), n.as_str())),
            _ => None,
        };
        let zip = match ZipOrPostalCode::new(self.zip_or_postal_code.as_str()) {
            Ok(z) => z,
            Err(e) => return Err(CoreError::ValidationError(e)),
        };
        Ok(
            Address::new_in_usa(
                address_line,
                secondary_line,
                City::new(self.city.as_str()),
                StateOrRegion::new(self.state_or_region.as_str()),
                zip,
            ),
        )
    }
}

} // verus!
