//! Assessor parcel numbers: the natural key that joins property records
//! and propensity scores.

use crate::error::{ValidationError, ValidationKind, Field};
use crate::text::{push_char, regex_finds_ignoring_case, regex_search};
use vstd::prelude::*;

verus! {

/// Width of a canonical parcel number.
pub const APN_LENGTH: usize = 14;

/// A decimal digit as the `regex` crate's `\d` class decides it: every
/// Unicode decimal digit, not only the ASCII ones. It is asked through the
/// one-character pattern `^\d$`.
pub open spec fn is_decimal_digit(c: char) -> bool {
    regex_finds_ignoring_case("^\\d$"@, seq![c]) == Some(true)
}

/// Whether a character is a decimal digit in the `regex` crate's sense.
fn decimal_digit(c: char) -> (b: bool)
    ensures
        b == is_decimal_digit(c),
{
    let mut s = String::new();
    push_char(&mut s, c);
    assert(s@ =~= seq![c]);
    regex_search("^\\d$", s.as_str()) == Some(true)
}

/// The text with every hyphen removed.
pub open spec fn without_hyphens(s: Seq<char>) -> Seq<char>
    decreases s.len(),
{
    if s.len() == 0 {
        Seq::empty()
    } else if s.last() == '-' {
        without_hyphens(s.drop_last())
    } else {
        without_hyphens(s.drop_last()).push(s.last())
    }
}

/// The text holds a run of digits and hyphens that starts and ends with a
/// digit; said otherwise, once its hyphens are dropped two digits stand side
/// by side.
pub open spec fn is_numeric_apn(s: Seq<char>) -> bool {
    let r = without_hyphens(s);
    exists|k: int| 0 <= k < r.len() - 1 && is_decimal_digit(r[k]) && is_decimal_digit(#[trigger] r[k + 1])
}

/// `n` zeros.
pub open spec fn zeros(n: nat) -> Seq<char> {
    Seq::new(n, |i: int| '0')
}

/// The canonical form of a parcel number: hyphens dropped, zero-padded on the
/// left to the canonical width.
pub open spec fn padded_apn(s: Seq<char>) -> Seq<char> {
    let r = without_hyphens(s);
    zeros((APN_LENGTH - r.len()) as nat) + r
}

/// What canonicalising a raw parcel number gives: the canonical text, or the
/// kind of validation that failed.
pub open spec fn canonical_apn(s: Seq<char>) -> Result<Seq<char>, ValidationKind> {
    if !is_numeric_apn(s) {
        Err(ValidationKind::Format)
    } else if without_hyphens(s).len() > APN_LENGTH {
        Err(ValidationKind::Length)
    } else {
        Ok(padded_apn(s))
    }
}

/// A parcel number in canonical form.
#[derive(Debug, PartialEq, Eq)]
pub struct AssessorParcelNumber(String);

impl Clone for AssessorParcelNumber {
    fn clone(&self) -> (r: Self)
        ensures
            r == *self,
    {
        AssessorParcelNumber(self.0.clone())
    }
}

impl View for AssessorParcelNumber {
    type V = Seq<char>;

    closed spec fn view(&self) -> Seq<char> {
        self.0@
    }
}

proof fn lemma_without_hyphens_no_hyphen(s: Seq<char>)
    ensures
        forall|i: int| 0 <= i < without_hyphens(s).len() ==> without_hyphens(s)[i] != '-',
        without_hyphens(s).len() <= s.len(),
    decreases s.len(),
{
    if s.len() > 0 {
        lemma_without_hyphens_no_hyphen(s.drop_last());
    }
}

proof fn lemma_without_hyphens_fixed(s: Seq<char>)
    requires
        forall|i: int| 0 <= i < s.len() ==> s[i] != '-',
    ensures
        without_hyphens(s) == s,
    decreases s.len(),
{
    if s.len() > 0 {
        lemma_without_hyphens_fixed(s.drop_last());
        assert(s.drop_last().push(s.last()) =~= s);
    }
}

/// Drops every hyphen of the text.
fn strip_hyphens(s: &str) -> (r: String)
    ensures
        r@ == without_hyphens(s@),
{
    let n = s.unicode_len();
    let mut r = String::new();
    let mut i: usize = 0;
    while i < n
        invariant
            n == s@.len(),
            i <= n,
            r@ == without_hyphens(s@.take(i as int)),
        decreases n - i,
    {
        let c = s.get_char(i);
        assert(s@.take(i + 1).drop_last() =~= s@.take(i as int));
        if c != '-' {
            push_char(&mut r, c);
        }
        i = i + 1;
    }
    assert(s@.take(n as int) =~= s@);
    r
}

/// Whether two digits stand side by side in the text.
fn has_adjacent_digits(r: &str) -> (b: bool)
    ensures
        b == exists|k: int| 0 <= k < r@.len() - 1 && is_decimal_digit(r@[k]) && is_decimal_digit(#[trigger] r@[k + 1]),
{
    let n = r.unicode_len();
    if n < 2 {
        return false;
    }
    let mut prev_digit = decimal_digit(r.get_char(0));
    let mut i: usize = 1;
    while i < n
        invariant
            n == r@.len(),
            1 <= i <= n,
            prev_digit == is_decimal_digit(r@[i - 1]),
            forall|k: int| 0 <= k < i - 1 ==> !(is_decimal_digit(r@[k]) && is_decimal_digit(#[trigger] r@[k + 1])),
        decreases n - i,
    {
        let d = decimal_digit(r.get_char(i));
        if prev_digit && d {
            assert(is_decimal_digit(r@[(i - 1) + 1]));
            return true;
        }
        prev_digit = d;
        i = i + 1;
    }
    false
}

impl AssessorParcelNumber {
    /// Canonicalises a raw parcel number: it must hold a run of digits and
    /// hyphens that starts and ends with a digit; hyphens are dropped, and the
    /// rest, at most fourteen characters, is zero-padded on the left to
    /// fourteen.
    pub fn new(apn: &str) -> (r: Result<Self, ValidationError>)
        ensures
            r matches Ok(a) ==> canonical_apn(apn@) == Ok::<Seq<char>, ValidationKind>(a@),
            r matches Err(e) ==> e.field == Field::Apn && canonical_apn(apn@) == Err::<Seq<char>, ValidationKind>(e.kind),
    {
        match Self::check_apn(apn) {
            Ok(s) => Ok(AssessorParcelNumber(s)),
            Err(kind) => Err(ValidationError { field: Field::Apn, kind }),
        }
    }

    fn check_apn(apn: &str) -> (r: Result<String, ValidationKind>)
        ensures
            r matches Ok(s) ==> canonical_apn(apn@) == Ok::<Seq<char>, ValidationKind>(s@),
            r matches Err(k) ==> canonical_apn(apn@) == Err::<Seq<char>, ValidationKind>(k),
    {
        let reduced = strip_hyphens(apn);
        if !has_adjacent_digits(reduced.as_str()) {
            return Err(ValidationKind::Format);
        }
        let len = reduced.as_str().unicode_len();
        if APN_LENGTH < len {
            return Err(ValidationKind::Length);
        }
        let mut out = String::new();
        let mut i: usize = len;
        while i < APN_LENGTH
            invariant
                len <= i <= APN_LENGTH,
                out@ == zeros((i - len) as nat),
            decreases APN_LENGTH - i,
        {
            push_char(&mut out, '0');
            assert(out@ =~= zeros((i + 1 - len) as nat));
            i = i + 1;
        }
        out.append(reduced.as_str());
        Ok(out)
    }

    /// The canonical text.
    pub fn apn(&self) -> (r: &str)
        ensures
            r@ == self@,
    {
        self.0.as_str()
    }
}

/// Canonicalising a canonical parcel number gives it back unchanged.
pub proof fn lemma_canonical_apn_idempotent(s: Seq<char>)
    requires
        canonical_apn(s) is Ok,
    ensures
        canonical_apn(canonical_apn(s)->Ok_0) == canonical_apn(s),
{
    let r = without_hyphens(s);
    let c = padded_apn(s);
    let z = zeros((APN_LENGTH - r.len()) as nat);
    lemma_without_hyphens_no_hyphen(s);
    assert forall|i: int| 0 <= i < c.len() implies c[i] != '-' by {
        if i >= z.len() {
            assert(c[i] == r[i - z.len()]);
        }
    }
    lemma_without_hyphens_fixed(c);
    let k = choose|k: int| 0 <= k < r.len() - 1 && is_decimal_digit(r[k]) && is_decimal_digit(#[trigger] r[k + 1]);
    assert(c[k + z.len()] == r[k]);
    assert(c[(k + z.len()) + 1] == r[k + 1]);
    assert(c.len() == APN_LENGTH);
    assert(zeros(0) + c =~= c);
}

} // verus!
