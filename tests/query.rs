use edgar_parser::{
    CompanyData, EDGARParserError, EdgarFilingQueryBuilder, EdgarParser, FilingTypeOption,
    OwnerOption,
};

fn sample_parser() -> EdgarParser {
    EdgarParser::from_company(&CompanyData {
        cik_str: 320193,
        ticker: "AAPL".to_string(),
        title: "Apple Inc.".to_string(),
    })
}

#[test]
fn test_new_builder_defaults() {
    let builder = EdgarFilingQueryBuilder::new(sample_parser());
    let cik_raw_num = builder.edgar_parser.cik_str;

    assert_eq!(cik_raw_num, Some(320193));
    assert_eq!(builder.base_url, "https://www.sec.gov/cgi-bin/browse-edgar?action=getcompany&");
    assert_eq!(builder.count, "10");
    assert_eq!(builder.dateb, "");
    assert_eq!(builder.search_text, "");
    assert_eq!(builder.filing_type, FilingTypeOption::_1U);
    assert_eq!(builder.owner, OwnerOption::INCLUDE);
    assert!(builder.padded_cik);
}

#[test]
fn test_set_and_validate_dateb_valid() {
    let date = "20240101".to_string();
    let result = EdgarFilingQueryBuilder::set_and_validate_dateb(date.clone());
    assert!(result.is_ok());
    assert_eq!(result.unwrap(), date);
}

#[test]
fn test_set_and_validate_dateb_invalid_format() {
    let bad_date = "2024011".to_string();
    let err = EdgarFilingQueryBuilder::set_and_validate_dateb(bad_date.clone()).unwrap_err();
    assert!(matches!(err, EDGARParserError::InvalidDateFormat(d) if d == bad_date));
}

#[test]
fn test_set_and_validate_dateb_invalid_date() {
    let bad_date = "20241301".to_string();
    let err = EdgarFilingQueryBuilder::set_and_validate_dateb(bad_date.clone()).unwrap_err();
    assert!(matches!(err, EDGARParserError::InvalidDateFormat(d) if d == bad_date));
}

#[test]
fn dateb_leap_days() {
    assert!(EdgarFilingQueryBuilder::set_and_validate_dateb("20240229".to_string()).is_ok());
    assert!(EdgarFilingQueryBuilder::set_and_validate_dateb("20000229".to_string()).is_ok());
    for bad in ["20230229", "19000229", "20240230", "20240431", "20240100", "20240001"] {
        let err = EdgarFilingQueryBuilder::set_and_validate_dateb(bad.to_string()).unwrap_err();
        assert!(matches!(err, EDGARParserError::InvalidDateFormat(d) if d == bad));
    }
}

#[test]
fn dateb_shape() {
    for bad in ["", "202401011", "2024-01-", "2024010a", "+2024010", " 2024010", "２0240101"] {
        let err = EdgarFilingQueryBuilder::set_and_validate_dateb(bad.to_string()).unwrap_err();
        assert!(matches!(err, EDGARParserError::InvalidDateFormat(d) if d == bad));
    }
    assert!(EdgarFilingQueryBuilder::set_and_validate_dateb("00000101".to_string()).is_ok());
    assert!(EdgarFilingQueryBuilder::set_and_validate_dateb("99991231".to_string()).is_ok());
}

#[test]
fn test_build_url_success() {
    let mut builder = EdgarFilingQueryBuilder::new(sample_parser());
    builder.filing_type = FilingTypeOption::_10K;
    builder.owner = OwnerOption::INCLUDE;
    builder.dateb = "20231231".to_string();
    builder.count = "25".to_string();
    builder.search_text = "apple".to_string();

    let url = builder.build().unwrap();
    let url_str = url.as_str();

    assert!(url_str.contains("CIK=0000320193"));
    assert!(url_str.contains("type=10-K"));
    assert!(url_str.contains("dateb=20231231"));
    assert!(url_str.contains("owner=include"));
    assert!(url_str.contains("count=25"));
    assert!(url_str.contains("search_text=apple"));
    assert!(url_str.contains(
        "CIK=0000320193&type=10-K&dateb=20231231&owner=include&count=25&search_text=apple"
    ));
    assert_eq!(
        url,
        "https://www.sec.gov/cgi-bin/browse-edgar?action=getcompany&CIK=0000320193&type=10-K&dateb=20231231&owner=include&count=25&search_text=apple&output=atom"
    );
}

#[test]
fn test_build_url_invalid_date() {
    let mut builder = EdgarFilingQueryBuilder::new(sample_parser());
    builder.dateb = "20231301".to_string();

    let result = builder.build();
    assert!(matches!(result, Err(EDGARParserError::InvalidDateFormat(_))));
}

#[test]
fn build_with_raw_cik() {
    let mut builder = EdgarFilingQueryBuilder::new(sample_parser());
    builder.padded_cik = false;
    builder.dateb = "20231231".to_string();
    let q = builder.query_string().unwrap();
    assert_eq!(
        q,
        "https://www.sec.gov/cgi-bin/browse-edgar?action=getcompany&CIK=320193&type=1-U&dateb=20231231&owner=include&count=10&search_text=&output=atom"
    );
}

#[test]
fn build_without_cik() {
    let mut builder = EdgarFilingQueryBuilder::new(sample_parser());
    builder.dateb = "20231231".to_string();
    builder.edgar_parser.cik_str = None;
    match builder.build() {
        Err(EDGARParserError::NotFound(m)) => assert_eq!(m, "CIK is not set"),
        other => panic!("unexpected {:?}", other),
    }
}

#[test]
fn build_normalizes_through_the_url_parser() {
    let mut builder = EdgarFilingQueryBuilder::new(sample_parser());
    builder.dateb = "20231231".to_string();
    builder.search_text = "apple pie".to_string();
    builder.owner = OwnerOption::ONLY;
    let url = builder.build().unwrap();
    assert!(url.contains("owner=only"));
    assert!(url.ends_with("search_text=apple%20pie&output=atom"));
    assert!(builder.query_string().unwrap().contains("search_text=apple pie&"));
}

#[test]
fn build_rejects_malformed_url() {
    let mut builder = EdgarFilingQueryBuilder::new(sample_parser());
    builder.dateb = "20231231".to_string();
    builder.base_url = "not a url?".to_string();
    assert!(matches!(builder.build(), Err(EDGARParserError::UrlParseError(_))));
}

#[test]
fn builder_short_name() {
    let mut builder: edgar_parser::EdgarQueryBuilder = edgar_parser::EdgarQueryBuilder::new(sample_parser());
    builder.dateb = "20231231".to_string();
    builder.filing_type = FilingTypeOption::_8K;
    builder.owner = OwnerOption::EXCLUDE;
    assert!(builder.build().unwrap().contains("&type=8-K&dateb=20231231&owner=exclude&count=10&"));
}
