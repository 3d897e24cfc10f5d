use edgar_parser::owner::{owner_from_str, to_string, validate_owner_type_string};
use edgar_parser::{EDGARParserError, OwnerOption};

#[test]
fn owner_test_from_str_valid() {
    let ft: OwnerOption = OwnerOption::from_str("EXCLUDE").unwrap();
    assert_eq!(ft, OwnerOption::EXCLUDE);
}

#[test]
fn owner_test_from_str_case_insensitive() {
    let ft: OwnerOption = OwnerOption::from_str("exclude").unwrap();
    assert_eq!(ft, OwnerOption::EXCLUDE);
}

#[test]
fn owner_test_from_str_invalid() {
    let result: Result<OwnerOption, EDGARParserError> = OwnerOption::from_str("INVALID");
    assert!(result.is_err());
}

#[test]
fn owner_test_display_trait() {
    let ft: OwnerOption = OwnerOption::INCLUDE;
    assert_eq!(ft.to_string(), "include");
}

#[test]
fn test_owner_from_str() {
    let ft: OwnerOption = owner_from_str("EXCLUDE").unwrap();
    assert_eq!(ft, OwnerOption::EXCLUDE);
}

#[test]
fn owner_test_to_string_wrapper() {
    let s: String = to_string(OwnerOption::EXCLUDE);
    assert_eq!(s, "exclude");
}

#[test]
fn test_validate_owner_type_string_valid() {
    let s: String = validate_owner_type_string("EXCLUDE").unwrap();
    assert_eq!(s, "exclude");
}

#[test]
fn test_validate_owner_type_string_invalid() {
    let s: Result<String, EDGARParserError> = validate_owner_type_string("WRONG-OWNER");
    assert!(s.is_err());
}

#[test]
fn owner_every_casing_parses_and_round_trips() {
    for (s, v) in [
        ("include", OwnerOption::INCLUDE),
        ("Include", OwnerOption::INCLUDE),
        ("INCLUDE", OwnerOption::INCLUDE),
        ("eXcLuDe", OwnerOption::EXCLUDE),
        ("only", OwnerOption::ONLY),
        ("ONLY", OwnerOption::ONLY),
    ] {
        let parsed = OwnerOption::from_str(s).unwrap();
        assert_eq!(parsed, v);
        assert_eq!(parsed.to_string(), s.to_lowercase());
        assert_eq!(OwnerOption::from_str(parsed.as_str()).unwrap(), parsed);
    }
}

#[test]
fn owner_unknown_is_owner_type_not_found() {
    assert!(matches!(OwnerOption::from_str("includes"), Err(EDGARParserError::OwnerTypeNotFound)));
    assert!(matches!(OwnerOption::from_str(""), Err(EDGARParserError::OwnerTypeNotFound)));
}

#[test]
fn owner_default_is_include() {
    assert_eq!(OwnerOption::default(), OwnerOption::INCLUDE);
}
