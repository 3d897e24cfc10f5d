//! The ownership filter of an EDGAR query: whether documents filed by the company's
//! directors and officers are included, excluded, or the only ones shown.

use crate::error::EDGARParserError;
use crate::text::{ascii_upper, matches_upper, upper_of, uppercase};
use vstd::prelude::*;
use vstd::string::*;
use vstd::utf8::is_ascii_chars;

verus! {

/// An ownership filter.
#[derive(Debug, PartialEq, Eq, Hash, Clone, Copy, Structural)]
pub enum OwnerOption {
    /// Include all documents regardless of the source.
    INCLUDE,
    /// Exclude documents related to director or officer ownership.
    EXCLUDE,
    /// Only show documents related to director or officer ownership.
    ONLY,
}

/// The filter a query uses when none is given is `include`.
impl Default for OwnerOption {
    fn default() -> (r: Self)
        ensures
            r == OwnerOption::INCLUDE,
    {
        OwnerOption::INCLUDE
    }
}

impl OwnerOption {
    /// The canonical code, as the EDGAR query interface writes it.
    pub open spec fn form(self) -> Seq<char> {
        match self {
            OwnerOption::INCLUDE => "include"@,
            OwnerOption::EXCLUDE => "exclude"@,
            OwnerOption::ONLY => "only"@,
        }
    }

    /// The code in ASCII uppercase: what a parsed string is compared with.
    pub open spec fn key(self) -> Seq<char> {
        ascii_upper(self.form())
    }

    /// What parsing makes of a string already normalized to uppercase.
    pub open spec fn parse_key(u: Seq<char>) -> Result<Self, EDGARParserError> {
        if u == OwnerOption::INCLUDE.key() {
            Ok(OwnerOption::INCLUDE)
        } else if u == OwnerOption::EXCLUDE.key() {
            Ok(OwnerOption::EXCLUDE)
        } else if u == OwnerOption::ONLY.key() {
            Ok(OwnerOption::ONLY)
        } else {
            Err(EDGARParserError::OwnerTypeNotFound)
        }
    }

    /// The three codes are ASCII and differ pairwise once uppercased.
    pub proof fn lemma_forms()
        ensures
            is_ascii_chars(OwnerOption::INCLUDE.form()),
            is_ascii_chars(OwnerOption::EXCLUDE.form()),
            is_ascii_chars(OwnerOption::ONLY.form()),
            OwnerOption::INCLUDE.key() != OwnerOption::EXCLUDE.key(),
            OwnerOption::INCLUDE.key() != OwnerOption::ONLY.key(),
            OwnerOption::EXCLUDE.key() != OwnerOption::ONLY.key(),
    {
        reveal_strlit("include");
        reveal_strlit("exclude");
        reveal_strlit("only");
        assert(OwnerOption::INCLUDE.key()[0] != OwnerOption::EXCLUDE.key()[0]);
        assert(OwnerOption::INCLUDE.key().len() != OwnerOption::ONLY.key().len());
        assert(OwnerOption::EXCLUDE.key().len() != OwnerOption::ONLY.key().len());
    }

    /// The canonical code.
    pub fn as_str(&self) -> (r: &'static str)
        ensures
            r@ == self.form(),
    {
        match self {
            OwnerOption::INCLUDE => "include",
            OwnerOption::EXCLUDE => "exclude",
            OwnerOption::ONLY => "only",
        }
    }

    /// The filter whose uppercased code is `u`.
    pub fn from_normalized(u: &str) -> (r: Result<Self, EDGARParserError>)
        ensures
            r == Self::parse_key(u@),
    {
        if matches_upper(u, OwnerOption::INCLUDE.as_str()) {
            Ok(OwnerOption::INCLUDE)
        } else if matches_upper(u, OwnerOption::EXCLUDE.as_str()) {
            Ok(OwnerOption::EXCLUDE)
        } else if matches_upper(u, OwnerOption::ONLY.as_str()) {
            Ok(OwnerOption::ONLY)
        } else {
            Err(EDGARParserError::OwnerTypeNotFound)
        }
    }

    /// Parses an ownership filter, ignoring case: the string is uppercased, then compared
    /// with the uppercased codes.
    pub fn from_str(s: &str) -> (r: Result<Self, EDGARParserError>)
        ensures
            r == Self::parse_key(upper_of(s@)),
            is_ascii_chars(s@) ==> r == Self::parse_key(ascii_upper(s@)),
    {
        let u = uppercase(s);
        Self::from_normalized(u.as_str())
    }

    /// The canonical code, as an owned string.
    pub fn to_string(&self) -> (r: String)
        ensures
            r@ == self.form(),
    {
        String::from_str(self.as_str())
    }

    /// Each of `include`, `exclude` and `only`, in any ASCII casing, parses; and the filter
    /// it parses to renders, once uppercased, as the uppercased input.
    pub proof fn lemma_any_casing_parses(s: Seq<char>)
        requires
            ascii_upper(s) == OwnerOption::INCLUDE.key() || ascii_upper(s)
                == OwnerOption::EXCLUDE.key() || ascii_upper(s) == OwnerOption::ONLY.key(),
        ensures
            Self::parse_key(ascii_upper(s)) is Ok,
            Self::parse_key(ascii_upper(s))->Ok_0.key() == ascii_upper(s),
    {
        Self::lemma_forms();
    }

    /// Parsing a rendered filter, after the uppercasing that parsing applies to ASCII text,
    /// gives back the same filter.
    pub proof fn lemma_parse_of_render(v: Self)
        ensures
            is_ascii_chars(v.form()),
            Self::parse_key(ascii_upper(v.form())) == Ok::<Self, EDGARParserError>(v),
    {
        Self::lemma_forms();
    }
}

/// Parses an ownership filter, ignoring case.
pub fn owner_from_str(s: &str) -> (r: Result<OwnerOption, EDGARParserError>)
    ensures
        r == OwnerOption::parse_key(upper_of(s@)),
        is_ascii_chars(s@) ==> r == OwnerOption::parse_key(ascii_upper(s@)),
{
    OwnerOption::from_str(s)
}

/// The canonical code of an ownership filter.
pub fn to_string(owner_type: OwnerOption) -> (r: String)
    ensures
        r@ == owner_type.form(),
{
    owner_type.to_string()
}

/// Parses an ownership filter, ignoring case, and gives back its canonical code.
pub fn validate_owner_type_string(s: &str) -> (r: Result<String, EDGARParserError>)
    ensures
        match OwnerOption::parse_key(upper_of(s@)) {
            Ok(v) => r is Ok && r->Ok_0@ == v.form(),
            Err(e) => r is Err && e == EDGARParserError::OwnerTypeNotFound
                && r->Err_0 == EDGARParserError::OwnerTypeNotFound,
        },
{
    let ft = owner_from_str(s)?;
    Ok(ft.to_string())
}

} // verus!
