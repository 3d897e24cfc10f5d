//! The EDGAR company-search query: a builder that validates its cutoff date and assembles
//! the query URL from a company, a filing type, an ownership filter, a cutoff date, a
//! result count and a free-text search.

use crate::edgar::EdgarParser;
use crate::error::EDGARParserError;
use crate::filing::FilingTypeOption;
use crate::owner::OwnerOption;
use crate::text::{decimal, decimal_text, pad_cik, padded_cik};
use vstd::prelude::*;
use vstd::string::*;

verus! {

/// Whether `c` is one of `0`..`9`.
pub open spec fn is_digit(c: char) -> bool {
    '0' <= c && c <= '9'
}

/// Whether `s` is exactly eight ASCII digits.
pub open spec fn eight_digits(s: Seq<char>) -> bool {
    s.len() == 8 && forall|i: int| 0 <= i < 8 ==> is_digit(#[trigger] s[i])
}

/// The value of the digit at `i`.
pub open spec fn digit_at(s: Seq<char>, i: int) -> int {
    s[i] as int - '0' as int
}

/// The year that a `YYYYMMDD` string names.
pub open spec fn year_of(s: Seq<char>) -> int {
    digit_at(s, 0) * 1000 + digit_at(s, 1) * 100 + digit_at(s, 2) * 10 + digit_at(s, 3)
}

/// The month that a `YYYYMMDD` string names.
pub open spec fn month_of(s: Seq<char>) -> int {
    digit_at(s, 4) * 10 + digit_at(s, 5)
}

/// The day that a `YYYYMMDD` string names.
pub open spec fn day_of(s: Seq<char>) -> int {
    digit_at(s, 6) * 10 + digit_at(s, 7)
}

/// Leap years of the proleptic Gregorian calendar.
pub open spec fn is_leap_year(y: int) -> bool {
    y % 4 == 0 && (y % 100 != 0 || y % 400 == 0)
}

/// The number of days of month `m` (1 to 12) in year `y`.
pub open spec fn days_in_month(y: int, m: int) -> int {
    if m == 2 {
        if is_leap_year(y) {
            29
        } else {
            28
        }
    } else if m == 4 || m == 6 || m == 9 || m == 11 {
        30
    } else {
        31
    }
}

/// Whether year `y`, month `m` and day `d` form a date of the proleptic Gregorian calendar.
pub open spec fn is_calendar_date(y: int, m: int, d: int) -> bool {
    1 <= m <= 12 && 1 <= d <= days_in_month(y, m)
}

/// Whether `s` is a valid cutoff date: eight digits that form a real `YYYYMMDD` date.
pub open spec fn valid_dateb(s: Seq<char>) -> bool {
    eight_digits(s) && is_calendar_date(year_of(s), month_of(s), day_of(s))
}

/// Relies on chrono's `NaiveDate::parse_from_str` with the pattern `%Y%m%d`: on eight ASCII
/// digits it reads a four-digit year, a two-digit month and a two-digit day, and succeeds
/// exactly when they form a date of the proleptic Gregorian calendar.
#[verifier::external_body]
fn parses_as_date(s: &str) -> (r: bool)
    requires
        eight_digits(s@),
    ensures
        r == is_calendar_date(year_of(s@), month_of(s@), day_of(s@)),
{
    match chrono::NaiveDate::parse_from_str(s, "%Y%m%d") {
        Ok(_) => true,
        Err(_) => false,
    }
}

/// What `url::Url::parse` makes of a text: the URL's serialization, or `None` when the text
/// is not a well-formed absolute URL.
pub uninterp spec fn serialized_url(s: Seq<char>) -> Option<Seq<char>>;

/// Relies on `url::Url::parse` and the URL's serialization: both depend on the text alone.
#[verifier::external_body]
fn parse_url(s: &str) -> (r: Result<String, url::ParseError>)
    ensures
        r matches Ok(u) ==> serialized_url(s@) == Some(u@),
        r is Err ==> serialized_url(s@) is None,
{
    match url::Url::parse(s) {
        Ok(u) => Ok(String::from(u)),
        Err(e) => Err(e),
    }
}

/// Whether every character of `s` is an ASCII digit.
fn all_digits(s: &str) -> (r: bool)
    ensures
        r == forall|i: int| 0 <= i < s@.len() ==> is_digit(#[trigger] s@[i]),
{
    let n = s.unicode_len();
    let mut i: usize = 0;
    while i < n
        invariant
            0 <= i <= n,
            n == s@.len(),
            forall|j: int| 0 <= j < i ==> is_digit(#[trigger] s@[j]),
        decreases n - i,
    {
        let c = s.get_char(i);
        if !('0' <= c && c <= '9') {
            return false;
        }
        i += 1;
    }
    true
}

/// The fixed start of every query URL.
pub open spec fn base_url_spec() -> Seq<char> {
    "https://www.sec.gov/cgi-bin/browse-edgar?action=getcompany&"@
}

/// The query text: base, then `CIK`, `type`, `dateb`, `owner`, `count` and `search_text` in
/// that order, then `output=atom`.
pub open spec fn query_spec(
    base: Seq<char>,
    cik: Seq<char>,
    filing_type: Seq<char>,
    dateb: Seq<char>,
    owner: Seq<char>,
    count: Seq<char>,
    search_text: Seq<char>,
) -> Seq<char> {
    base + "CIK="@ + cik + "&type="@ + filing_type + "&dateb="@ + dateb + "&owner="@ + owner
        + "&count="@ + count + "&search_text="@ + search_text + "&output=atom"@
}

/// Builds the URL of an EDGAR company search.
#[derive(Debug, PartialEq)]
pub struct EdgarFilingQueryBuilder {
    /// The company searched for.
    pub edgar_parser: EdgarParser,
    /// The type of filing to search for.
    pub filing_type: FilingTypeOption,
    /// Only filings before this date, as `YYYYMMDD`.
    pub dateb: String,
    /// The ownership filter.
    pub owner: OwnerOption,
    /// The start of the URL, up to the first query parameter.
    pub base_url: String,
    /// How many filings to list (passed through as given).
    pub count: String,
    /// Free text to search for (passed through as given).
    pub search_text: String,
    /// Whether the URL carries the CIK padded to ten digits (else its plain decimal form).
    pub padded_cik: bool,
}

/// The query builder under its shorter name.
pub type EdgarQueryBuilder = EdgarFilingQueryBuilder;

impl EdgarFilingQueryBuilder {
    /// The CIK as the URL writes it, if the company has one.
    pub open spec fn cik_spec(self) -> Option<Seq<char>> {
        match self.edgar_parser.cik_str {
            Some(c) => Some(
                if self.padded_cik {
                    padded_cik(c)
                } else {
                    decimal(c as nat)
                },
            ),
            None => None,
        }
    }

    /// The query text of a builder with a known CIK.
    pub open spec fn query_text(self, cik: Seq<char>) -> Seq<char> {
        query_spec(
            self.base_url@,
            cik,
            self.filing_type.form(),
            self.dateb@,
            self.owner.form(),
            self.count@,
            self.search_text@,
        )
    }

    /// A builder for `edgar_parser` with the defaults: the placeholder filing type, no cutoff
    /// date, the `include` filter, ten results, no search text, and the padded CIK.
    pub fn new(edgar_parser: EdgarParser) -> (r: Self)
        ensures
            r.edgar_parser == edgar_parser,
            r.filing_type == FilingTypeOption::_1U,
            r.dateb@.len() == 0,
            r.owner == OwnerOption::INCLUDE,
            r.base_url@ == base_url_spec(),
            r.count@ == "10"@,
            r.search_text@.len() == 0,
            r.padded_cik,
    {
        EdgarFilingQueryBuilder {
            edgar_parser,
            filing_type: FilingTypeOption::default(),
            dateb: String::new(),
            owner: OwnerOption::default(),
            base_url: String::from_str("https://www.sec.gov/cgi-bin/browse-edgar?action=getcompany&"),
            count: String::from_str("10"),
            search_text: String::new(),
            padded_cik: true,
        }
    }

    /// Gives back `dateb` when it is eight digits forming a real `YYYYMMDD` date, and fails
    /// with `InvalidDateFormat(dateb)` otherwise.
    pub fn set_and_validate_dateb(dateb: String) -> (r: Result<String, EDGARParserError>)
        ensures
            valid_dateb(dateb@) ==> r == Ok::<String, EDGARParserError>(dateb),
            !valid_dateb(dateb@) ==> r == Err::<String, EDGARParserError>(
                EDGARParserError::InvalidDateFormat(dateb),
            ),
    {
        if dateb.as_str().unicode_len() != 8 || !all_digits(dateb.as_str()) {
            return Err(EDGARParserError::InvalidDateFormat(dateb));
        }
        if parses_as_date(dateb.as_str()) {
            Ok(dateb)
        } else {
            Err(EDGARParserError::InvalidDateFormat(dateb))
        }
    }

    /// The CIK as the URL writes it.
    fn cik_text(&self) -> (r: Option<String>)
        ensures
            r matches Some(t) ==> self.cik_spec() == Some(t@),
            r is None ==> self.cik_spec() is None,
    {
        match self.edgar_parser.cik_str {
            Some(c) => if self.padded_cik {
                Some(pad_cik(c))
            } else {
                Some(decimal_text(c))
            },
            None => None,
        }
    }

    /// The query text, before it is checked as a URL.
    ///
    /// Fails with `InvalidDateFormat(dateb)` when the cutoff date is not valid, then with
    /// `NotFound` when the company has no CIK.
    pub fn query_string(&self) -> (r: Result<String, EDGARParserError>)
        ensures
            if !valid_dateb(self.dateb@) {
                (r matches Err(EDGARParserError::InvalidDateFormat(d)) && d@ == self.dateb@)
            } else {
                match self.cik_spec() {
                    None => (r matches Err(EDGARParserError::NotFound(m)) && m@
                        == "CIK is not set"@),
                    Some(cik) => (r matches Ok(q) && q@ == self.query_text(cik)),
                }
            },
    {
        let filing_type_string = self.filing_type.as_str();
        let owner_string = self.owner.as_str();
        let dateb_string = Self::set_and_validate_dateb(self.dateb.clone())?;
        let cik = match self.cik_text() {
            Some(c) => c,
            None => {
                return Err(EDGARParserError::NotFound(String::from_str("CIK is not set")));
            },
        };
        let mut q = self.base_url.clone();
        q.append("CIK=");
        q.append(cik.as_str());
        q.append("&type=");
        q.append(filing_type_string);
        q.append("&dateb=");
        q.append(dateb_string.as_str());
        q.append("&owner=");
        q.append(owner_string);
        q.append("&count=");
        q.append(self.count.as_str());
        q.append("&search_text=");
        q.append(self.search_text.as_str());
        q.append("&output=atom");
        Ok(q)
    }

    /// The query URL, in the serialization that the URL parser gives it.
    ///
    /// Fails as `query_string` does, then with `UrlParseError` when the query text is not a
    /// well-formed URL.
    pub fn build(&self) -> (r: Result<String, EDGARParserError>)
        ensures
            if !valid_dateb(self.dateb@) {
                (r matches Err(EDGARParserError::InvalidDateFormat(d)) && d@ == self.dateb@)
            } else {
                match self.cik_spec() {
                    None => (r matches Err(EDGARParserError::NotFound(m)) && m@
                        == "CIK is not set"@),
                    Some(cik) => match serialized_url(self.query_text(cik)) {
                        Some(u) => (r matches Ok(t) && t@ == u),
                        None => r matches Err(EDGARParserError::UrlParseError(_)),
                    },
                }
            },
    {
        let q = self.query_string()?;
        match parse_url(q.as_str()) {
            Ok(u) => Ok(u),
            Err(e) => Err(EDGARParserError::UrlParseError(e)),
        }
    }
}

} // verus!
