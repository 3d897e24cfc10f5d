//! A company resolved from the ticker directory, and the documents fetched about it.
//!
//! The documents (company facts, submissions, XBRL frames) are kept as opaque JSON values:
//! this library checks that they parse and carries them, and does not read them.

use crate::error::EDGARParserError;
use crate::text::{decimal, decimal_text, pad_cik, padded_cik};
use crate::ticker::{lookup, CompanyData, TickerDirectory};
use vstd::prelude::*;
use vstd::string::*;

verus! {

/// serde_json's `Value`, carried as an opaque document.
#[verifier::external_type_specification]
#[verifier::external_body]
pub struct ExJsonValue(serde_json::Value);

/// Whether `serde_json::from_str` accepts a text as a JSON value.
pub uninterp spec fn json_accepts(s: Seq<char>) -> bool;

/// Relies on `serde_json::from_str` into a `serde_json::Value`: whether it succeeds depends
/// on the text alone.
#[verifier::external_body]
fn parse_json(s: &str) -> (r: Result<serde_json::Value, serde_json::Error>)
    ensures
        r is Ok <==> json_accepts(s@),
{
    serde_json::from_str(s)
}

/// Parses a fetched document as an opaque JSON value.
pub fn parse_document(body: &str) -> (r: Result<serde_json::Value, EDGARParserError>)
    ensures
        r is Ok <==> json_accepts(body@),
        r is Err ==> r->Err_0 is JSONParseError,
{
    match parse_json(body) {
        Ok(v) => Ok(v),
        Err(e) => Err(EDGARParserError::JSONParseError(e)),
    }
}

/// A company record with its CIK in ten-digit form, and the documents fetched for it.
#[derive(Debug, PartialEq)]
pub struct EdgarParser {
    /// The raw Central Index Key.
    pub cik_str: Option<u32>,
    /// The stock ticker symbol.
    pub ticker: Option<String>,
    /// The company's name.
    pub title: Option<String>,
    /// The submissions document, once fetched.
    pub submissions: Option<serde_json::Value>,
    /// The company facts document, once fetched.
    pub company_facts: Option<serde_json::Value>,
    /// The CIK as exactly ten digits, left-padded with zeros.
    pub leading_zero_cik: String,
}

/// The request path of the company facts document for a ten-digit CIK.
pub open spec fn company_facts_path_spec(cik: Seq<char>) -> Seq<char> {
    "/api/xbrl/companyfacts/CIK"@ + cik + ".json"@
}

/// The request path of the submissions document for a ten-digit CIK.
pub open spec fn submissions_path_spec(cik: Seq<char>) -> Seq<char> {
    "/submissions/CIK"@ + cik + ".json"@
}

/// The request path of an XBRL frame: one fact, in one unit, for the instant that ends the
/// given quarter of the given calendar year.
pub open spec fn xbrl_frames_path_spec(
    fact: Seq<char>,
    unit: Seq<char>,
    year: u16,
    quarter: u8,
) -> Seq<char> {
    "/api/xbrl/frames/us-gaap/"@ + fact + "/"@ + unit + "/CY"@ + decimal(year as nat) + "Q"@
        + decimal(quarter as nat) + "I.json"@
}

impl EdgarParser {
    /// The parser of a directory record: its fields, its CIK padded to ten digits, and no
    /// documents yet.
    pub open spec fn of_company(self, c: CompanyData) -> bool {
        &&& self.cik_str == Some(c.cik_str)
        &&& self.ticker matches Some(t) && t@ == c.ticker@
        &&& self.title matches Some(t) && t@ == c.title@
        &&& self.submissions is None
        &&& self.company_facts is None
        &&& self.leading_zero_cik@ == padded_cik(c.cik_str)
    }

    /// Builds the parser of a directory record.
    pub fn from_company(c: &CompanyData) -> (r: EdgarParser)
        ensures
            r.of_company(*c),
    {
        EdgarParser {
            cik_str: Some(c.cik_str),
            ticker: Some(c.ticker.clone()),
            title: Some(c.title.clone()),
            submissions: None,
            company_facts: None,
            leading_zero_cik: pad_cik(c.cik_str),
        }
    }

    /// Resolves `ticker` in the directory, ignoring ASCII case.
    ///
    /// Fails with `NotFound("Ticker <ticker> not found")` when no record matches.
    pub fn create_from_directory(directory: &TickerDirectory, ticker: &str) -> (r: Result<
        EdgarParser,
        EDGARParserError,
    >)
        ensures
            match lookup(directory.records@, ticker@) {
                Some(c) => (r matches Ok(p) && p.of_company(c)),
                None => (r matches Err(EDGARParserError::NotFound(m)) && m@ == "Ticker "@
                    + ticker@ + " not found"@),
            },
    {
        match directory.resolve(ticker) {
            Some(c) => Ok(EdgarParser::from_company(&c)),
            None => {
                let mut m = String::from_str("Ticker ");
                m.append(ticker);
                m.append(" not found");
                Err(EDGARParserError::NotFound(m))
            },
        }
    }

    /// The error given when a document is asked for before the CIK is known.
    fn cik_not_set() -> (r: EDGARParserError)
        ensures
            r matches EDGARParserError::NotFound(m) && m@
                == "Leading zero CIK is not set. Call create_from_ticker first."@,
    {
        EDGARParserError::NotFound(
            String::from_str("Leading zero CIK is not set. Call create_from_ticker first."),
        )
    }

    /// The request path of this company's facts document (on `data.sec.gov`).
    ///
    /// Fails with `NotFound` while the ten-digit CIK is empty.
    pub fn company_facts_path(&self) -> (r: Result<String, EDGARParserError>)
        ensures
            self.leading_zero_cik@.len() == 0 ==> (r matches Err(EDGARParserError::NotFound(m))
                && m@ == "Leading zero CIK is not set. Call create_from_ticker first."@),
            self.leading_zero_cik@.len() > 0 ==> (r matches Ok(p) && p@
                == company_facts_path_spec(self.leading_zero_cik@)),
    {
        if self.leading_zero_cik.as_str().is_empty() {
            return Err(Self::cik_not_set());
        }
        let mut p = String::from_str("/api/xbrl/companyfacts/CIK");
        p.append(self.leading_zero_cik.as_str());
        p.append(".json");
        Ok(p)
    }

    /// The request path of this company's submissions document (on `data.sec.gov`).
    ///
    /// Fails with `NotFound` while the ten-digit CIK is empty.
    pub fn submissions_path(&self) -> (r: Result<String, EDGARParserError>)
        ensures
            self.leading_zero_cik@.len() == 0 ==> (r matches Err(EDGARParserError::NotFound(m))
                && m@ == "Leading zero CIK is not set. Call create_from_ticker first."@),
            self.leading_zero_cik@.len() > 0 ==> (r matches Ok(p) && p@ == submissions_path_spec(
                self.leading_zero_cik@,
            )),
    {
        if self.leading_zero_cik.as_str().is_empty() {
            return Err(Self::cik_not_set());
        }
        let mut p = String::from_str("/submissions/CIK");
        p.append(self.leading_zero_cik.as_str());
        p.append(".json");
        Ok(p)
    }

    /// The request path of an XBRL frame (on `data.sec.gov`), for example
    /// `/api/xbrl/frames/us-gaap/Assets/USD/CY2020Q1I.json`.
    pub fn xbrl_frames_path(fact: &str, unit: &str, year: u16, quarter: u8) -> (r: String)
        ensures
            r@ == xbrl_frames_path_spec(fact@, unit@, year, quarter),
    {
        let mut p = String::from_str("/api/xbrl/frames/us-gaap/");
        p.append(fact);
        p.append("/");
        p.append(unit);
        p.append("/CY");
        let y = decimal_text(year as u32);
        p.append(y.as_str());
        p.append("Q");
        let q = decimal_text(quarter as u32);
        p.append(q.as_str());
        p.append("I.json");
        p
    }

    /// Keeps a fetched company facts document, once it parses as JSON; on failure the
    /// parser is left as it was.
    pub fn record_company_facts(&mut self, body: &str) -> (r: Result<(), EDGARParserError>)
        ensures
            r is Ok <==> json_accepts(body@),
            r is Ok ==> final(self).company_facts is Some,
            r is Err ==> r->Err_0 is JSONParseError && final(self).company_facts
                == old(self).company_facts,
            final(self).cik_str == old(self).cik_str,
            final(self).ticker == old(self).ticker,
            final(self).title == old(self).title,
            final(self).submissions == old(self).submissions,
            final(self).leading_zero_cik == old(self).leading_zero_cik,
    {
        let v = parse_document(body)?;
        self.company_facts = Some(v);
        Ok(())
    }

    /// Keeps a fetched submissions document, once it parses as JSON; on failure the parser
    /// is left as it was.
    pub fn record_submissions(&mut self, body: &str) -> (r: Result<(), EDGARParserError>)
        ensures
            r is Ok <==> json_accepts(body@),
            r is Ok ==> final(self).submissions is Some,
            r is Err ==> r->Err_0 is JSONParseError && final(self).submissions
                == old(self).submissions,
            final(self).cik_str == old(self).cik_str,
            final(self).ticker == old(self).ticker,
            final(self).title == old(self).title,
            final(self).company_facts == old(self).company_facts,
            final(self).leading_zero_cik == old(self).leading_zero_cik,
    {
        let v = parse_document(body)?;
        self.submissions = Some(v);
        Ok(())
    }
}

} // verus!
