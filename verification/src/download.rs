//! Naming the file that a downloaded archive is stored in, and placing it
//! below the directory for temporary files.

use vstd::prelude::*;
use vstd::string::*;
use crate::decimal::{append_decimal, decimal};
use crate::path::{
    is_below, join, join_path, leads_to, lemma_resolve_plain, pieces, resolve, resolve_name,
};
use crate::text::{
    chars_of, has_prefix, slice_view_of, span_has_prefix, split, split_spans, strip, strip_span,
    view_of, CharClass, Span,
};

verus! {

/// The parameter of a `Content-Disposition` header that carries the name.
pub const FILENAME_KEY: &'static str = "filename=";

/// What a fallback name begins with.
pub const FALLBACK_STEM: &'static str = "file";

/// What a fallback name ends with.
pub const FALLBACK_EXTENSION: &'static str = ".zip";

/// The file name that one part of the header gives: the part, without
/// white space around it, must begin with the key; the name is what
/// follows, without quotes around it.
pub open spec fn filename_in(part: Seq<char>) -> Option<Seq<char>> {
    let trimmed = strip(part, CharClass::Whitespace);
    if has_prefix(trimmed, FILENAME_KEY@) {
        Some(strip(trimmed.skip(FILENAME_KEY@.len() as int), CharClass::Quote))
    } else {
        None
    }
}

/// The file name of the first part that gives one.
pub open spec fn first_filename(parts: Seq<Seq<char>>) -> Option<Seq<char>>
    decreases parts.len(),
{
    if parts.len() == 0 {
        None
    } else {
        match filename_in(parts.first()) {
            Some(name) => Some(name),
            None => first_filename(parts.drop_first()),
        }
    }
}

/// The file name that a `Content-Disposition` header gives, if any: its
/// parts are separated by semicolons, and the first part with a name counts.
pub open spec fn header_filename(header: Seq<char>) -> Option<Seq<char>> {
    first_filename(split(header, CharClass::Semicolon))
}

/// The name used where the response names no file.
pub open spec fn fallback_filename(addon_id: u16) -> Seq<char> {
    FALLBACK_STEM@ + decimal(addon_id as nat) + FALLBACK_EXTENSION@
}

/// The name under which the archive of addon `addon_id` is stored, given
/// the `Content-Disposition` header of the response, if it had one.
pub open spec fn resolved_filename(header: Option<Seq<char>>, addon_id: u16) -> Seq<char> {
    match header {
        Some(text) => match header_filename(text) {
            Some(name) => name,
            None => fallback_filename(addon_id),
        },
        None => fallback_filename(addon_id),
    }
}

/// Where the file named `file_name` lies below `directory`: the name is
/// resolved as a path that must not leave the directory. A name that does,
/// and one that names nothing, has no place.
pub open spec fn temporary_location(directory: Seq<char>, file_name: Seq<char>) -> Option<
    Seq<char>,
> {
    match resolve(file_name) {
        Some(components) => if components.len() > 0 {
            Some(join(directory, components))
        } else {
            None
        },
        None => None,
    }
}

/// A temporary file lies below the directory for temporary files, whatever
/// name the response gave it.
pub proof fn lemma_temporary_location_is_below(directory: Seq<char>, file_name: Seq<char>)
    ensures
        temporary_location(directory, file_name) matches Some(path) ==> is_below(path, directory),
{
    if let Some(path) = temporary_location(directory, file_name) {
        lemma_resolve_plain(file_name);
        assert(leads_to(directory, resolve(file_name)->0, path));
    }
}

/// Without a header the archive of addon `addon_id` is stored as `file`,
/// the id in decimal notation, `.zip`; and so it is with a header that
/// names no file.
pub proof fn lemma_fallback_without_name(header: Option<Seq<char>>, addon_id: u16)
    requires
        header matches Some(text) ==> header_filename(text) is None,
    ensures
        resolved_filename(header, addon_id) == FALLBACK_STEM@ + decimal(addon_id as nat)
            + FALLBACK_EXTENSION@,
{
}

/// A header that names a file decides the name, whatever the addon.
pub proof fn lemma_header_name_wins(text: Seq<char>, addon_id: u16)
    requires
        header_filename(text) is Some,
    ensures
        resolved_filename(Some(text), addon_id) == header_filename(text)->0,
{
}

/// Reads the file name out of a `Content-Disposition` header.
pub fn get_filename(content_disposition: &str) -> (name: Option<String>)
    ensures
        view_of(name) == header_filename(content_disposition@),
{
    let chars = chars_of(content_disposition);
    let key = chars_of(FILENAME_KEY);
    let parts = split_spans(&chars, CharClass::Semicolon);
    let ghost pieces = split(chars@, CharClass::Semicolon);
    let mut k: usize = 0;
    proof {
        assert(pieces.skip(0) =~= pieces);
    }
    while k < parts.len()
        invariant
            k <= parts.len(),
            chars@ == content_disposition@,
            key@ == FILENAME_KEY@,
            pieces == split(chars@, CharClass::Semicolon),
            parts.len() == pieces.len(),
            forall|i: int|
                0 <= i < parts.len() ==> (#[trigger] parts[i]).fits(chars@.len()) && parts[i].of(
                    chars@,
                ) == pieces[i],
            first_filename(pieces.skip(k as int)) == first_filename(pieces),
        decreases parts.len() - k,
    {
        let trimmed = strip_span(&chars, parts[k], CharClass::Whitespace);
        proof {
            assert(pieces.skip(k as int).drop_first() =~= pieces.skip(k + 1));
        }
        if span_has_prefix(&chars, trimmed, &key) {
            let rest = Span { start: trimmed.start + key.len(), end: trimmed.end };
            proof {
                assert(rest.of(chars@) =~= trimmed.of(chars@).skip(key@.len() as int));
            }
            let bare = strip_span(&chars, rest, CharClass::Quote);
            let text = content_disposition.substring_char(bare.start, bare.end);
            return Some(String::from_str(text));
        }
        k = k + 1;
    }
    None
}

/// Builds the name used where the response names no file.
pub fn fallback_name(addon_id: u16) -> (name: String)
    ensures
        name@ == fallback_filename(addon_id),
{
    let mut name = String::from_str(FALLBACK_STEM);
    append_decimal(&mut name, addon_id);
    name.append(FALLBACK_EXTENSION);
    name
}

/// Picks the name under which the archive of addon `addon_id` is stored:
/// the one that the `Content-Disposition` header gives, or else the
/// fallback name.
pub fn resolve_filename(content_disposition: Option<&str>, addon_id: u16) -> (name: String)
    ensures
        name@ == resolved_filename(slice_view_of(content_disposition), addon_id),
{
    match content_disposition {
        Some(text) => match get_filename(text) {
            Some(name) => name,
            None => fallback_name(addon_id),
        },
        None => fallback_name(addon_id),
    }
}

/// Places the file named `file_name` below `directory`, or finds that the
/// name has no place there.
pub fn temporary_path(directory: &str, file_name: &str) -> (path: Option<String>)
    ensures
        view_of(path) == temporary_location(directory@, file_name@),
{
    let chars = chars_of(file_name);
    match resolve_name(&chars) {
        Some(spans) => {
            if spans.len() > 0 {
                proof {
                    let components = pieces(spans@, file_name@);
                    assert(components =~= resolve(file_name@)->0);
                    assert(components.take(spans.len() as int) =~= components);
                }
                Some(join_path(directory, file_name, &spans, spans.len()))
            } else {
                None
            }
        },
        None => None,
    }
}

} // verus!
