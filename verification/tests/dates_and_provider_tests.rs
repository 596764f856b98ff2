use mal_provider::dates::{convert_date_to_year, convert_string_to_date, Date};
use mal_provider::models::ProviderError;
use mal_provider::numtext::decimal_string_i128;
use mal_provider::provider::{default_language, supported_languages, NonMediaMalService};

#[test]
fn year_from_leading_digits() {
    assert_eq!(convert_date_to_year("2021-03-05"), Some(2021));
    assert_eq!(convert_date_to_year("1999"), Some(1999));
    assert_eq!(convert_date_to_year("0001-01-01"), Some(1));
}

#[test]
fn year_absent_when_not_four_digits() {
    assert_eq!(convert_date_to_year(""), None);
    assert_eq!(convert_date_to_year("199"), None);
    assert_eq!(convert_date_to_year("19x9-01-01"), None);
    assert_eq!(convert_date_to_year("soon"), None);
}

#[test]
fn date_parses_strict_iso_shape() {
    assert_eq!(
        convert_string_to_date("2021-03-05"),
        Some(Date {
            year: 2021,
            month: 3,
            day: 5
        })
    );
    assert_eq!(
        convert_string_to_date("2020-02-29"),
        Some(Date {
            year: 2020,
            month: 2,
            day: 29
        })
    );
}

#[test]
fn date_rejects_calendar_and_shape_errors() {
    assert_eq!(convert_string_to_date("2021-02-29"), None);
    assert_eq!(convert_string_to_date("2021-13-01"), None);
    assert_eq!(convert_string_to_date("2021-00-10"), None);
    assert_eq!(convert_string_to_date("2021-04-31"), None);
    assert_eq!(convert_string_to_date("2021-3-5"), None);
    assert_eq!(convert_string_to_date("2021/03/05"), None);
    assert_eq!(convert_string_to_date(""), None);
}

#[test]
fn century_leap_rule() {
    assert_eq!(convert_string_to_date("1900-02-29"), None);
    assert_eq!(
        convert_string_to_date("2000-02-29"),
        Some(Date {
            year: 2000,
            month: 2,
            day: 29
        })
    );
}

#[test]
fn identifiers_are_stringified_decimals() {
    assert_eq!(decimal_string_i128(0), "0");
    assert_eq!(decimal_string_i128(98765), "98765");
    assert_eq!(decimal_string_i128(-42), "-42");
    assert_eq!(
        decimal_string_i128(i128::MAX),
        "170141183460469231731687303715884105727"
    );
    assert_eq!(
        decimal_string_i128(i128::MIN),
        "-170141183460469231731687303715884105728"
    );
}

#[test]
fn non_media_provider_is_unsupported() {
    let p = NonMediaMalService::new();
    assert!(matches!(
        p.metadata_search("steel", Some(1), false),
        Err(ProviderError::Unsupported)
    ));
    assert!(matches!(
        p.metadata_details("42"),
        Err(ProviderError::Unsupported)
    ));
}

#[test]
fn locales_are_static() {
    assert_eq!(supported_languages(), vec!["us".to_string()]);
    assert_eq!(default_language(), "us");
}
