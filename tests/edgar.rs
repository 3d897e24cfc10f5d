use edgar_parser::{pad_cik, CompanyData, EDGARParserError, EdgarParser};

fn apple() -> CompanyData {
    CompanyData { cik_str: 320193, ticker: "AAPL".to_string(), title: "Apple Inc.".to_string() }
}

#[test]
fn test_pad_cik_function() {
    let result = pad_cik(123456);
    assert_eq!(result, "0000123456");
}

#[test]
fn test_deserialize_edgar_parser_with_padding() {
    let record =
        CompanyData { cik_str: 1045810, ticker: "AAPL".to_string(), title: "Apple Inc.".to_string() };
    let parsed = EdgarParser::from_company(&record);
    assert_eq!(parsed.leading_zero_cik, "0001045810");
}

#[test]
fn pad_cik_edges() {
    assert_eq!(pad_cik(0), "0000000000");
    assert_eq!(pad_cik(7), "0000000007");
    assert_eq!(pad_cik(1045810), "0001045810");
    assert_eq!(pad_cik(u32::MAX), "4294967295");
    for n in [1u32, 99, 100, 123456789, 999999999, 1000000000] {
        assert_eq!(pad_cik(n).len(), 10);
        assert_eq!(pad_cik(n).parse::<u32>().unwrap(), n);
    }
}

#[test]
fn from_company_keeps_fields_and_pads() {
    let p = EdgarParser::from_company(&apple());
    assert_eq!(p.cik_str, Some(320193));
    assert_eq!(p.ticker.as_deref(), Some("AAPL"));
    assert_eq!(p.title.as_deref(), Some("Apple Inc."));
    assert_eq!(p.leading_zero_cik, "0000320193");
    assert!(p.submissions.is_none());
    assert!(p.company_facts.is_none());
}

#[test]
fn document_paths() {
    let p = EdgarParser::from_company(&apple());
    assert_eq!(p.company_facts_path().unwrap(), "/api/xbrl/companyfacts/CIK0000320193.json");
    assert_eq!(p.submissions_path().unwrap(), "/submissions/CIK0000320193.json");
    assert_eq!(
        EdgarParser::xbrl_frames_path("Assets", "USD", 2020, 1),
        "/api/xbrl/frames/us-gaap/Assets/USD/CY2020Q1I.json"
    );
}

#[test]
fn document_paths_need_a_cik() {
    let mut p = EdgarParser::from_company(&apple());
    p.leading_zero_cik = String::new();
    match p.company_facts_path() {
        Err(EDGARParserError::NotFound(m)) => {
            assert_eq!(m, "Leading zero CIK is not set. Call create_from_ticker first.")
        }
        other => panic!("unexpected {:?}", other),
    }
    assert!(matches!(p.submissions_path(), Err(EDGARParserError::NotFound(_))));
}

#[test]
fn recording_documents() {
    let mut p = EdgarParser::from_company(&apple());
    assert!(p.record_company_facts("{\"cik\": 320193, \"facts\": {}}").is_ok());
    assert!(p.company_facts.is_some());
    assert!(p.submissions.is_none());
    let before = p.submissions.clone();
    assert!(matches!(p.record_submissions("{not json"), Err(EDGARParserError::JSONParseError(_))));
    assert_eq!(p.submissions, before);
    assert!(p.record_submissions("[1, 2, 3]").is_ok());
    assert!(p.submissions.is_some());
    assert_eq!(p.leading_zero_cik, "0000320193");
}
