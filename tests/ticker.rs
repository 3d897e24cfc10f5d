use edgar_parser::{
    CompanyData, CompanyDataList, DirectoryDocument, EDGARParserError, EdgarParser, TickerDirectory,
};

fn record(cik: u32, ticker: &str, title: &str) -> CompanyData {
    CompanyData { cik_str: cik, ticker: ticker.to_string(), title: title.to_string() }
}

fn listed() -> TickerDirectory {
    TickerDirectory::from_document(DirectoryDocument::Listed(CompanyDataList {
        tickers: vec![
            record(789019, "MSFT", "MICROSOFT CORP"),
            record(320193, "AAPL", "Apple Inc."),
            record(1045810, "NVDA", "NVIDIA CORP"),
        ],
    }))
}

#[test]
fn resolve_ignores_case() {
    let d = listed();
    let lower = d.resolve("aapl");
    let upper = d.resolve("AAPL");
    assert_eq!(lower, upper);
    assert_eq!(upper, Some(record(320193, "AAPL", "Apple Inc.")));
    assert_eq!(d.resolve("nVdA").unwrap().cik_str, 1045810);
}

#[test]
fn resolve_absent_is_none() {
    let d = listed();
    assert_eq!(d.resolve("GOOG"), None);
    assert_eq!(d.resolve(""), None);
    assert_eq!(d.resolve("AAP"), None);
    let empty = TickerDirectory::from_document(DirectoryDocument::Listed(CompanyDataList {
        tickers: vec![],
    }));
    assert_eq!(empty.resolve("AAPL"), None);
}

#[test]
fn resolve_takes_first_of_equal_tickers() {
    let d = TickerDirectory::from_document(DirectoryDocument::Listed(CompanyDataList {
        tickers: vec![record(1, "abc", "first"), record(2, "ABC", "second")],
    }));
    assert_eq!(d.resolve("Abc").unwrap().title, "first");
}

#[test]
fn both_document_shapes_give_the_same_records() {
    let indexed = TickerDirectory::from_document(DirectoryDocument::Indexed(vec![
        ("0".to_string(), record(789019, "MSFT", "MICROSOFT CORP")),
        ("1".to_string(), record(320193, "AAPL", "Apple Inc.")),
        ("2".to_string(), record(1045810, "NVDA", "NVIDIA CORP")),
    ]));
    assert_eq!(indexed, listed());
    assert_eq!(indexed.records.len(), 3);
}

#[test]
fn create_from_directory_finds_or_reports() {
    let d = listed();
    let p = EdgarParser::create_from_directory(&d, "msft").unwrap();
    assert_eq!(p.leading_zero_cik, "0000789019");
    assert_eq!(p.ticker.as_deref(), Some("MSFT"));
    match EdgarParser::create_from_directory(&d, "ZZZZ") {
        Err(EDGARParserError::NotFound(m)) => assert_eq!(m, "Ticker ZZZZ not found"),
        other => panic!("unexpected {:?}", other),
    }
}
