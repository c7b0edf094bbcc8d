use safe_nlt::scrape::grep_connection_info;
use safe_nlt::scrape::split_lines;
use safe_nlt::Error;

#[test]
fn scrape_returns_bracketed_capture() {
    let content = "INFO 2020-04-01 Vault connection info: 127.0.0.1:1234\n";
    let r = grep_connection_info(content);
    assert_eq!(r.unwrap(), "[127.0.0.1:1234]");
}

#[test]
fn scrape_without_matching_line_is_not_found() {
    let content = "INFO started\nINFO listening\n";
    let r = grep_connection_info(content);
    assert!(matches!(r, Err(Error::NotFound)));
}

#[test]
fn scrape_empty_text_is_not_found() {
    let r = grep_connection_info("");
    assert!(matches!(r, Err(Error::NotFound)));
}

#[test]
fn scrape_takes_first_matching_line() {
    let content = "x Vault connection info: first:1\ny Vault connection info: second:2\n";
    let r = grep_connection_info(content);
    assert_eq!(r.unwrap(), "[first:1]");
}

#[test]
fn scrape_takes_last_occurrence_within_a_line() {
    let content = "xVault connection info: aVault connection info: b\n";
    let r = grep_connection_info(content);
    assert_eq!(r.unwrap(), "[b]");
}

#[test]
fn scrape_needs_a_character_before_the_marker() {
    let content = "Vault connection info: 127.0.0.1:1234\n";
    let r = grep_connection_info(content);
    assert!(matches!(r, Err(Error::NotFound)));
}

#[test]
fn scrape_needs_a_character_after_the_marker() {
    let content = "x Vault connection info: \n";
    let r = grep_connection_info(content);
    assert!(matches!(r, Err(Error::NotFound)));
}

#[test]
fn scrape_strips_carriage_returns() {
    let content = "junk Vault connection info: 10.0.0.1:99\r\nrest\r\n";
    let r = grep_connection_info(content);
    assert_eq!(r.unwrap(), "[10.0.0.1:99]");
}

#[test]
fn scrape_works_without_trailing_newline() {
    let content = "a\nb Vault connection info: 192.168.0.7:4000";
    let r = grep_connection_info(content);
    assert_eq!(r.unwrap(), "[192.168.0.7:4000]");
}

#[test]
fn split_lines_matches_line_semantics() {
    let lines = split_lines("a\nb\r\nc");
    assert_eq!(lines, vec!["a".to_string(), "b".to_string(), "c".to_string()]);
    let lines = split_lines("a\n");
    assert_eq!(lines, vec!["a".to_string()]);
    let empty = split_lines("");
    assert!(empty.is_empty());
}

#[test]
fn split_lines_keeps_a_bare_trailing_carriage_return() {
    let lines = split_lines("a\r");
    assert_eq!(lines, vec!["a\r".to_string()]);
}

#[test]
fn scrape_keeps_a_bare_trailing_carriage_return() {
    let content = "x Vault connection info: 1.2.3.4:5\r";
    let r = grep_connection_info(content);
    assert_eq!(r.unwrap(), "[1.2.3.4:5\r]");
}
