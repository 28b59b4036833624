use phone_client::locator::{ApiLocator, locators_from_str};
use phone_client::api::trim_trailing_slashes;

#[test]
fn test_api_locator() {
    let locator = ApiLocator::from_str("xyz=abc=123").unwrap();
    assert_eq!(locator.0, "xyz");
    assert_eq!(locator.1, "abc=123");
}

#[test]
fn locator_without_separator_is_rejected() {
    let err = ApiLocator::from_str("xyz").unwrap_err();
    assert_eq!(
        err,
        "invalid locator: 'xyz'. It must be of 'https://url:port=secret' convention"
    );
}

#[test]
fn locator_list_parses_each_piece() {
    let locators = locators_from_str("xyz=abc=123 base=456");
    assert_eq!(locators.len(), 2);
    assert_eq!(locators[0].0, "xyz");
    assert_eq!(locators[0].1, "abc=123");
    assert_eq!(locators[1].0, "base");
    assert_eq!(locators[1].1, "456");
}

#[test]
fn locator_list_skips_invalid_pieces() {
    let locators = locators_from_str("plain xyz=abc plain2");
    assert_eq!(locators.len(), 1);
    assert_eq!(locators[0].0, "xyz");
    assert_eq!(locators[0].1, "abc");
}

#[test]
fn locator_list_of_empty_string_is_empty() {
    assert_eq!(locators_from_str("").len(), 0);
}

#[test]
fn trim_removes_trailing_slashes_only() {
    assert_eq!(trim_trailing_slashes("http://h:5000/"), "http://h:5000");
    assert_eq!(trim_trailing_slashes("http://h:5000///"), "http://h:5000");
    assert_eq!(trim_trailing_slashes("http://h:5000"), "http://h:5000");
    assert_eq!(trim_trailing_slashes(""), "");
    assert_eq!(trim_trailing_slashes("///"), "");
}
