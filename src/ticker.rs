//! The SEC ticker directory: company records, the two shapes in which the directory
//! document comes, and case-insensitive resolution of a ticker symbol.

use crate::text::{ascii_upper, eq_ignore_ascii_case};
use vstd::prelude::*;

verus! {

/// One company of the directory.
#[derive(Debug, Clone, PartialEq, Eq)]
pub struct CompanyData {
    /// The Central Index Key.
    pub cik_str: u32,
    /// The stock ticker symbol.
    pub ticker: String,
    /// The company's name.
    pub title: String,
}

/// The directory in its list shape: `{"tickers": [...]}`.
#[derive(Debug, Clone, PartialEq, Eq)]
pub struct CompanyDataList {
    pub tickers: Vec<CompanyData>,
}

/// The directory document in either of the shapes the service has used.
#[derive(Debug, Clone, PartialEq, Eq)]
pub enum DirectoryDocument {
    /// `{"tickers": [record, ...]}`.
    Listed(CompanyDataList),
    /// `{"0": record, "1": record, ...}`, as (key, record) pairs in document order.
    Indexed(Vec<(String, CompanyData)>),
}

/// The records of one directory snapshot, in document order.
#[derive(Debug, Clone, PartialEq, Eq)]
pub struct TickerDirectory {
    pub records: Vec<CompanyData>,
}

impl CompanyData {
    /// Whether the record's ticker equals `q`, ignoring ASCII case.
    pub open spec fn ticker_matches(self, q: Seq<char>) -> bool {
        ascii_upper(self.ticker@) == ascii_upper(q)
    }

    /// A copy of the record.
    pub fn duplicate(&self) -> (r: CompanyData)
        ensures
            r == *self,
    {
        CompanyData { cik_str: self.cik_str, ticker: self.ticker.clone(), title: self.title.clone() }
    }
}

/// The records a document lists, in document order, whatever its shape.
pub open spec fn document_records(doc: DirectoryDocument) -> Seq<CompanyData> {
    match doc {
        DirectoryDocument::Listed(list) => list.tickers@,
        DirectoryDocument::Indexed(entries) => entries@.map_values(|e: (String, CompanyData)| e.1),
    }
}

/// The position of the first record at or after `i` whose ticker matches `q`.
pub open spec fn first_match_from(records: Seq<CompanyData>, q: Seq<char>, i: int) -> Option<int>
    decreases records.len() - i,
{
    if i < 0 || i >= records.len() {
        None
    } else if records[i].ticker_matches(q) {
        Some(i)
    } else {
        first_match_from(records, q, i + 1)
    }
}

/// The first record whose ticker matches `q`, ignoring ASCII case.
pub open spec fn lookup(records: Seq<CompanyData>, q: Seq<char>) -> Option<CompanyData> {
    match first_match_from(records, q, 0) {
        Some(i) => Some(records[i]),
        None => None,
    }
}

/// The record found holds a matching ticker, and no earlier record does; when none is
/// found, no record matches.
pub proof fn lemma_first_match(records: Seq<CompanyData>, q: Seq<char>, k: int)
    requires
        0 <= k,
    ensures
        first_match_from(records, q, k) matches Some(i) ==> k <= i < records.len()
            && records[i].ticker_matches(q) && forall|j: int|
            k <= j < i ==> !(#[trigger] records[j]).ticker_matches(q),
        first_match_from(records, q, k) is None ==> forall|j: int|
            k <= j < records.len() ==> !(#[trigger] records[j]).ticker_matches(q),
    decreases records.len() - k,
{
    if k < records.len() && !records[k].ticker_matches(q) {
        lemma_first_match(records, q, k + 1);
    }
}

/// Resolution ignores case: two queries that agree once uppercased resolve to the same
/// record, or both to none.
pub proof fn lemma_lookup_ignores_case(records: Seq<CompanyData>, a: Seq<char>, b: Seq<char>)
    requires
        ascii_upper(a) == ascii_upper(b),
    ensures
        lookup(records, a) == lookup(records, b),
{
    assert forall|i: int| first_match_from(records, a, i) == first_match_from(records, b, i) by {
        lemma_same_matches(records, a, b, i);
    }
}

proof fn lemma_same_matches(records: Seq<CompanyData>, a: Seq<char>, b: Seq<char>, i: int)
    requires
        ascii_upper(a) == ascii_upper(b),
    ensures
        first_match_from(records, a, i) == first_match_from(records, b, i),
    decreases records.len() - i,
{
    if 0 <= i < records.len() {
        lemma_same_matches(records, a, b, i + 1);
    }
}

impl TickerDirectory {
    /// Gathers the records of a directory document, whichever its shape, in document order.
    pub fn from_document(doc: DirectoryDocument) -> (r: TickerDirectory)
        ensures
            r.records@ == document_records(doc),
    {
        match doc {
            DirectoryDocument::Listed(list) => TickerDirectory { records: list.tickers },
            DirectoryDocument::Indexed(entries) => {
                let mut records: Vec<CompanyData> = Vec::new();
                let mut i: usize = 0;
                while i < entries.len()
                    invariant
                        0 <= i <= entries@.len(),
                        records@ == entries@.subrange(0, i as int).map_values(
                            |e: (String, CompanyData)| e.1,
                        ),
                    decreases entries@.len() - i,
                {
                    records.push(entries[i].1.duplicate());
                    i += 1;
                    assert(records@ =~= entries@.subrange(0, i as int).map_values(
                        |e: (String, CompanyData)| e.1,
                    ));
                }
                assert(entries@.subrange(0, entries@.len() as int) =~= entries@);
                TickerDirectory { records }
            },
        }
    }

    /// The first record whose ticker equals `ticker`, ignoring ASCII case.
    pub fn resolve(&self, ticker: &str) -> (r: Option<CompanyData>)
        ensures
            r == lookup(self.records@, ticker@),
            r matches Some(c) ==> c.ticker_matches(ticker@),
            r is None ==> forall|j: int|
                0 <= j < self.records@.len() ==> !(#[trigger] self.records@[j]).ticker_matches(
                    ticker@,
                ),
    {
        proof {
            lemma_first_match(self.records@, ticker@, 0);
        }
        let mut i: usize = 0;
        while i < self.records.len()
            invariant
                0 <= i <= self.records@.len(),
                first_match_from(self.records@, ticker@, 0) == first_match_from(
                    self.records@,
                    ticker@,
                    i as int,
                ),
            decreases self.records@.len() - i,
        {
            if eq_ignore_ascii_case(self.records[i].ticker.as_str(), ticker) {
                return Some(self.records[i].duplicate());
            }
            i += 1;
        }
        None
    }
}

} // verus!
