//! Best-effort extraction of fields from markup.
//!
//! A page is first brought into the form in which an HTML parser writes it
//! back, then searched with regular expressions. Both steps are done by
//! outside crates; this module gives their results names, so that the
//! contracts built on them can say exactly which value ends up where.

use vstd::prelude::*;
use vstd::string::*;
use regex::Regex;
use scraper::Html;
use crate::text::view_of;

verus! {

/// The longest page that is parsed, in characters. The parser keeps text
/// in buffers whose capacity is a power of two that must fit 32 bits, so
/// no buffer may pass 2^31 bytes. No piece of a page takes more than four
/// bytes for each of its characters, in the page or in the parsed text, so
/// every buffer of a page of this length stays below that.
pub const MAX_PAGE_LENGTH: usize = 0x1FFF_FFFF;

/// The text that `scraper` writes for the document it parses from `page`.
pub uninterp spec fn html_document(page: Seq<char>) -> Seq<char>;

/// The document that a page shows: none where the page is too long to be
/// parsed.
pub open spec fn document_of(page: Seq<char>) -> Option<Seq<char>> {
    if page.len() <= MAX_PAGE_LENGTH {
        Some(html_document(page))
    } else {
        None
    }
}

/// What the first capture group of `pattern` holds in the leftmost match of
/// `pattern` in `text`, as the `regex` crate finds it. It is `None` where
/// `pattern` is no regular expression, where it has no match in `text`, and
/// where the group took no part in the match.
pub uninterp spec fn regex_first_group(pattern: Seq<char>, text: Seq<char>) -> Option<Seq<char>>;

/// Calls `scraper::Html::parse_document` on `page` and `Html::html` on the
/// result. The parser copies the page into a buffer and gathers each run
/// of text in another; a buffer that grows rounds its capacity up to a
/// power of two and panics where that passes 32 bits, which is above 2^31
/// bytes. A page of `MAX_PAGE_LENGTH` characters at most keeps every
/// buffer below 2^31 bytes, so longer pages are left out. On the others
/// the parser does not fail, nor does the writer on a buffer in memory;
/// the contract only gives the text a name.
#[verifier::external_body]
fn serialize_document(page: &str) -> (document: String)
    requires
        page@.len() <= MAX_PAGE_LENGTH,
    ensures
        document@ == html_document(page@),
{
    Html::parse_document(page).html()
}

/// Calls `regex::Regex::new` on `pattern`, `Regex::captures` on `text` and
/// `Captures::get(1)` on the match. A pattern that does not compile counts
/// as one without a match; the contract only gives the outcome a name.
#[verifier::external_body]
fn capture_first_group(pattern: &str, text: &str) -> (found: Option<String>)
    ensures
        view_of(found) == regex_first_group(pattern@, text@),
{
    let re = match Regex::new(pattern) {
        Ok(re) => re,
        Err(_) => return None,
    };
    match re.captures(text) {
        Some(captures) => match captures.get(1) {
            Some(group) => Some(group.as_str().to_string()),
            None => None,
        },
        None => None,
    }
}

/// Parses `page` as an HTML document and writes it back. A page of more
/// than `MAX_PAGE_LENGTH` characters is not parsed and shows nothing.
pub fn normalize(page: &str) -> (document: Option<String>)
    ensures
        view_of(document) == document_of(page@),
{
    if page.unicode_len() <= MAX_PAGE_LENGTH {
        Some(serialize_document(page))
    } else {
        None
    }
}

/// Applies `pattern` once to `body_text` and returns what its first capture
/// group matched, or `None` where there is no match.
pub fn extract(body_text: &str, pattern: &str) -> (found: Option<String>)
    ensures
        view_of(found) == regex_first_group(pattern@, body_text@),
{
    capture_first_group(pattern, body_text)
}

} // verus!
