use edgar_parser::filing::{filing_from_str, to_string, validate_filing_type_string};
use edgar_parser::{EDGARParserError, FilingTypeOption, FILING_TYPE_COUNT};

#[test]
fn filing_test_from_str_valid() {
    let ft: FilingTypeOption = FilingTypeOption::from_str("10-K").unwrap();
    assert_eq!(ft, FilingTypeOption::_10K);
}

#[test]
fn filing_test_from_str_case_insensitive() {
    let ft: FilingTypeOption = FilingTypeOption::from_str("10-k").unwrap();
    assert_eq!(ft, FilingTypeOption::_10K);
}

#[test]
fn filing_test_from_str_invalid() {
    let result: Result<FilingTypeOption, EDGARParserError> = FilingTypeOption::from_str("INVALID");
    assert!(result.is_err());
}

#[test]
fn filing_test_display_trait() {
    let ft: FilingTypeOption = FilingTypeOption::_10K;
    assert_eq!(ft.to_string(), "10-K");
}

#[test]
fn test_filing_from_str() {
    let ft: FilingTypeOption = filing_from_str("S-1").unwrap();
    assert_eq!(ft, FilingTypeOption::S1);
}

#[test]
fn filing_test_to_string_wrapper() {
    let s: String = to_string(FilingTypeOption::S1);
    assert_eq!(s, "S-1");
}

#[test]
fn test_validate_filing_type_string_valid() {
    let s: String = validate_filing_type_string("S-1").unwrap();
    assert_eq!(s, "S-1");
}

#[test]
fn test_validate_filing_type_string_invalid() {
    let s: Result<String, EDGARParserError> = validate_filing_type_string("WRONG-FORM");
    assert!(s.is_err());
}

#[test]
fn filing_unknown_is_filing_type_not_found() {
    assert!(matches!(
        FilingTypeOption::from_str("10-KK"),
        Err(EDGARParserError::FilingTypeNotFound)
    ));
    assert!(matches!(
        FilingTypeOption::from_str(""),
        Err(EDGARParserError::FilingTypeNotFound)
    ));
}

#[test]
fn filing_lowercase_canonical_forms_parse_in_any_casing() {
    assert_eq!(FilingTypeOption::from_str("19b-4").unwrap(), FilingTypeOption::_19B4);
    assert_eq!(FilingTypeOption::from_str("19B-4").unwrap(), FilingTypeOption::_19B4);
    assert_eq!(FilingTypeOption::from_str("19B-4(e)").unwrap(), FilingTypeOption::_19B4E);
    assert_eq!(FilingTypeOption::_19B4E.to_string(), "19b-4(E)");
}

#[test]
fn filing_render_of_parse_is_canonical_casing() {
    let ft = FilingTypeOption::from_str("x-17a-5").unwrap();
    assert_eq!(ft, FilingTypeOption::X17A5);
    assert_eq!(ft.to_string(), "X-17A-5");
    assert_eq!(validate_filing_type_string("abs-ee").unwrap(), "ABS-EE");
}

#[test]
fn filing_every_form_round_trips() {
    for i in 0..FILING_TYPE_COUNT {
        let ft = FilingTypeOption::from_index(i);
        assert_eq!(FilingTypeOption::from_str(ft.as_str()).unwrap(), ft);
        assert_eq!(FilingTypeOption::from_str(&ft.as_str().to_lowercase()).unwrap(), ft);
    }
    assert_eq!(FILING_TYPE_COUNT, 143);
}

#[test]
fn filing_default_is_placeholder() {
    assert_eq!(FilingTypeOption::default(), FilingTypeOption::_1U);
    assert_eq!(FilingTypeOption::default().to_string(), "1-U");
}

#[test]
fn filing_from_normalized_takes_uppercase_only() {
    assert_eq!(FilingTypeOption::from_normalized("10-K").unwrap(), FilingTypeOption::_10K);
    assert!(FilingTypeOption::from_normalized("10-k").is_err());
}
