//! ISO 4217 currency codes, validated through the `iso_currency` table.

use vstd::prelude::*;
use vstd::string::StrSliceExecFns;

verus! {

/// Whether a string is a valid ISO 4217 alphabetic currency code, exactly as
/// `iso_currency::Currency::from_code` accepts it.
pub uninterp spec fn iso4217_valid(code: Seq<char>) -> bool;

/// Relies on `iso_currency::Currency::from_code`: it accepts exactly the ISO
/// 4217 three-letter codes (it returns `None` outright for any string whose
/// length is not three, and otherwise matches against the fixed code table,
/// whose entries are all three ASCII letters).
#[verifier::external_body]
fn iso4217_check(code: &str) -> (r: bool)
    ensures
        r == iso4217_valid(code@),
        r ==> code@.len() == 3,
{
    iso_currency::Currency::from_code(code).is_some()
}

/// Relies on std's `format!` to concatenate three characters into a `String`.
#[verifier::external_body]
fn chars_to_string(c0: char, c1: char, c2: char) -> (r: String)
    ensures
        r@ == seq![c0, c1, c2],
{
    format!("{}{}{}", c0, c1, c2)
}

/// A validated ISO 4217 currency code, held as its three characters.
#[derive(Clone, Copy, PartialEq, Eq, Structural, Debug)]
pub struct CurrencyCode {
    c0: char,
    c1: char,
    c2: char,
}

/// Failure to construct a domain value: the currency code is not ISO 4217.
#[derive(Clone, Copy, PartialEq, Eq, Structural, Debug)]
pub enum ValidationError {
    InvalidCurrency,
}

/// The code value made of the first three characters of `s`.
pub closed spec fn spec_code_of(s: Seq<char>) -> CurrencyCode {
    CurrencyCode { c0: s[0], c1: s[1], c2: s[2] }
}

impl CurrencyCode {
    /// The three characters of the code.
    pub closed spec fn chars(self) -> Seq<char> {
        seq![self.c0, self.c1, self.c2]
    }

    /// A well-formed code is one that the ISO 4217 table contains.
    pub open spec fn valid(self) -> bool {
        iso4217_valid(self.chars())
    }

    /// Validating constructor: succeeds exactly on ISO 4217 codes.
    pub fn from_code(code: &str) -> (r: Result<CurrencyCode, ValidationError>)
        ensures
            match r {
                Ok(c) => iso4217_valid(code@) && c.chars() == code@ && c == spec_code_of(code@),
                Err(_) => !iso4217_valid(code@),
            },
    {
        if iso4217_check(code) {
            let c0: char = code.get_char(0);
            let c1: char = code.get_char(1);
            let c2: char = code.get_char(2);
            let c = CurrencyCode { c0, c1, c2 };
            proof {
                assert(c.chars() =~= code@);
            }
            Ok(c)
        } else {
            Err(ValidationError::InvalidCurrency)
        }
    }

    /// The three-letter code, as a string.
    pub fn code(&self) -> (r: String)
        ensures
            r@ == self.chars(),
    {
        chars_to_string(self.c0, self.c1, self.c2)
    }

    /// Whether the ISO 4217 table contains this code.
    pub fn check_valid(&self) -> (r: bool)
        ensures
            r == self.valid(),
    {
        let s: String = self.code();
        iso4217_check(s.as_str())
    }
}

} // verus!
