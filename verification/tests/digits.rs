use gaia::digits::{parse_usize, usize_to_string};
use gaia::page_input::{Page, PageNumberError};
use gaia::urls::{market_url, profile_url};

#[test]
fn numerals_are_read_exactly() {
    assert_eq!(parse_usize("0"), Some(0));
    assert_eq!(parse_usize("25"), Some(25));
    assert_eq!(parse_usize("007"), Some(7));
    assert_eq!(parse_usize(""), None);
    assert_eq!(parse_usize("1a"), None);
    assert_eq!(parse_usize("-3"), None);
    assert_eq!(parse_usize(" 3"), None);
    // Far beyond what any machine word holds.
    assert_eq!(parse_usize("99999999999999999999999999999999"), None);
}

#[test]
fn numerals_are_written_exactly() {
    assert_eq!(usize_to_string(0).as_str(), "0");
    assert_eq!(usize_to_string(9).as_str(), "9");
    assert_eq!(usize_to_string(10).as_str(), "10");
    assert_eq!(usize_to_string(305).as_str(), "305");
}

#[test]
fn writing_then_reading_returns_the_number() {
    for n in [0usize, 1, 9, 10, 99, 12345] {
        assert_eq!(parse_usize(usize_to_string(n).as_str()), Some(n));
    }
}

#[test]
fn page_number_accepts_a_value_in_range() {
    let page = Page { page_number: "7".to_string() };
    assert_eq!(page.page_number(0, 25), Ok(7));
}

#[test]
fn page_number_refuses_a_value_out_of_range() {
    let page = Page { page_number: "25".to_string() };
    assert_eq!(page.page_number(0, 25), Err(PageNumberError::OutOfRange { min: 0, max: 25 }));
}

#[test]
fn page_number_refuses_garbage() {
    let page = Page { page_number: "7th".to_string() };
    assert_eq!(page.page_number(0, 25), Err(PageNumberError::ParseError));
}

#[test]
fn urls_are_built_from_their_parts() {
    assert_eq!(market_url("mirage_prime_set").as_str(), "https://warframe.market/items/mirage_prime_set");
    assert_eq!(profile_url("somebody").as_str(), "https://warframe.market/profile/somebody");
}
