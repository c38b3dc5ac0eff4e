use openesoui_mm::scrape::{extract, normalize};

#[test]
fn normalize_writes_a_whole_document() {
    assert_eq!(
        normalize("<p>hi"),
        Some("<html><head></head><body><p>hi</p></body></html>".to_string())
    );
    assert_eq!(normalize(""), Some("<html><head></head><body></body></html>".to_string()));
}

#[test]
fn extract_returns_the_first_group_of_the_first_match() {
    assert_eq!(extract("a=1 a=2", "a=([0-9])"), Some("1".to_string()));
    assert_eq!(extract("Version: 2.1</div>", "Version: (.*)</div>"), Some("2.1".to_string()));
    assert_eq!(extract("x[]y", "x\\[(.*)\\]y"), Some("".to_string()));
}

#[test]
fn extract_finds_nothing_without_a_match() {
    assert_eq!(extract("", "a=([0-9])"), None);
    assert_eq!(extract("a=b", "a=([0-9])"), None);
}

#[test]
fn extract_finds_nothing_with_a_broken_pattern() {
    assert_eq!(extract("anything", "(unclosed"), None);
}

#[test]
fn extract_finds_nothing_where_the_group_is_missing_or_idle() {
    assert_eq!(extract("abc", "abc"), None);
    assert_eq!(extract("b", "(a)?b"), None);
}

#[test]
fn extract_tolerates_markup_and_lines_around_the_match() {
    let text = "<div>\n<b>x</b>\n<div id=\"version\">Version: <i>3</i> beta</div>\n</div>";
    assert_eq!(
        extract(text, "<div id=\"version\">Version: (.*)</div>"),
        Some("<i>3</i> beta".to_string())
    );
}

#[test]
fn extract_can_span_lines_and_stop_at_the_first_end() {
    let text = "<b>one\ntwo</b><b>three</b>";
    assert_eq!(extract(text, "(?s)<b>(.*?)</b>"), Some("one\ntwo".to_string()));
    assert_eq!(extract(text, "<b>(.*?)</b>"), Some("three".to_string()));
    assert_eq!(extract(text, "(?s)<b>(.*)</b>"), Some("one\ntwo</b><b>three".to_string()));
}
