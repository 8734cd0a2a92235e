use std::str::FromStr;

use url::Url;
use word_board::add_segments;

#[test]
fn test_add_single_segment() {
    let url = Url::from_str("https://example.com").unwrap();

    let new_url = add_segments(url, &["foobar"]);

    assert_eq!(new_url.as_str(), "https://example.com/foobar");
}

#[test]
fn test_multple_segments() {
    let url = Url::from_str("https://example.com").unwrap();

    let new_url = add_segments(url, &["foo", "bar"]);

    assert_eq!(new_url.as_str(), "https://example.com/foo/bar");
}

#[test]
fn segments_are_percent_encoded() {
    let url = Url::from_str("https://example.com/api").unwrap();

    let new_url = add_segments(url, &["a b", "c/d"]);

    assert_eq!(new_url.as_str(), "https://example.com/api/a%20b/c%2Fd");
}

#[test]
fn url_that_cannot_be_a_base_is_unchanged() {
    let url = Url::from_str("mailto:me@example.com").unwrap();

    let new_url = add_segments(url, &["foo"]);

    assert_eq!(new_url.as_str(), "mailto:me@example.com");
}
