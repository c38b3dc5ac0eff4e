//! Character-level helpers shared by the parsers of this crate.
//!
//! Strings are modelled by their sequence of characters. The executable
//! functions work on a `Vec<char>` copy of the input and describe pieces of
//! it by `Span`s, so that nothing is copied until a result is returned.

use vstd::prelude::*;
use vstd::string::*;

verus! {

/// A set of characters that a parser treats alike.
#[derive(Clone, Copy, Debug, PartialEq, Eq)]
pub enum CharClass {
    /// Unicode white space, as `char::is_whitespace` has it.
    Whitespace,
    /// The double quote.
    Quote,
    /// The comma.
    Comma,
    /// The semicolon.
    Semicolon,
    /// The slash and the backslash.
    PathSeparator,
}

/// Whether `c` has the Unicode property `White_Space`.
pub open spec fn is_whitespace(c: char) -> bool {
    let u = c as u32;
    ||| 0x09 <= u <= 0x0D
    ||| u == 0x20
    ||| u == 0x85
    ||| u == 0xA0
    ||| u == 0x1680
    ||| 0x2000 <= u <= 0x200A
    ||| u == 0x2028
    ||| u == 0x2029
    ||| u == 0x202F
    ||| u == 0x205F
    ||| u == 0x3000
}

impl CharClass {
    /// Membership of `c` in the class.
    pub open spec fn has(self, c: char) -> bool {
        match self {
            CharClass::Whitespace => is_whitespace(c),
            CharClass::Quote => c == '"',
            CharClass::Comma => c == ',',
            CharClass::Semicolon => c == ';',
            CharClass::PathSeparator => c == '/' || c == '\\',
        }
    }

    /// Tests membership of `c` in the class.
    pub fn contains(self, c: char) -> (r: bool)
        ensures
            r == self.has(c),
    {
        match self {
            CharClass::Whitespace => {
                let u: u32 = c as u32;
                (0x09 <= u && u <= 0x0D) || u == 0x20 || u == 0x85 || u == 0xA0 || u == 0x1680
                    || (0x2000 <= u && u <= 0x200A) || u == 0x2028 || u == 0x2029 || u == 0x202F
                    || u == 0x205F || u == 0x3000
            },
            CharClass::Quote => c == '"',
            CharClass::Comma => c == ',',
            CharClass::Semicolon => c == ';',
            CharClass::PathSeparator => c == '/' || c == '\\',
        }
    }
}

/// The pieces of `s` between the characters of `sep`, in order. There is one
/// piece more than there are separators in `s`; a piece may be empty.
pub open spec fn split(s: Seq<char>, sep: CharClass) -> Seq<Seq<char>>
    decreases s.len(),
{
    if s.len() == 0 {
        seq![Seq::<char>::empty()]
    } else {
        let before = split(s.drop_last(), sep);
        if sep.has(s.last()) {
            before.push(Seq::<char>::empty())
        } else {
            before.drop_last().push(before.last().push(s.last()))
        }
    }
}

/// `s` without its longest prefix made of characters of `class`.
pub open spec fn strip_start(s: Seq<char>, class: CharClass) -> Seq<char>
    decreases s.len(),
{
    if s.len() > 0 && class.has(s.first()) {
        strip_start(s.drop_first(), class)
    } else {
        s
    }
}

/// `s` without its longest suffix made of characters of `class`.
pub open spec fn strip_end(s: Seq<char>, class: CharClass) -> Seq<char>
    decreases s.len(),
{
    if s.len() > 0 && class.has(s.last()) {
        strip_end(s.drop_last(), class)
    } else {
        s
    }
}

/// `s` with the characters of `class` removed from both ends.
pub open spec fn strip(s: Seq<char>, class: CharClass) -> Seq<char> {
    strip_end(strip_start(s, class), class)
}

/// Whether neither end of `s` is a character of `class`.
pub open spec fn is_bare(s: Seq<char>, class: CharClass) -> bool {
    s.len() > 0 ==> !class.has(s.first()) && !class.has(s.last())
}

/// Whether `s` begins with `prefix`.
pub open spec fn has_prefix(s: Seq<char>, prefix: Seq<char>) -> bool {
    prefix.len() <= s.len() && s.take(prefix.len() as int) == prefix
}

/// The characters of an optional string.
pub open spec fn view_of(value: Option<String>) -> Option<Seq<char>> {
    match value {
        Some(s) => Some(s@),
        None => None,
    }
}

/// The characters of an optional string slice.
pub open spec fn slice_view_of(value: Option<&str>) -> Option<Seq<char>> {
    match value {
        Some(s) => Some(s@),
        None => None,
    }
}

/// A range of positions in a sequence of characters.
#[derive(Clone, Copy, Debug, PartialEq, Eq)]
pub struct Span {
    pub start: usize,
    pub end: usize,
}

impl Span {
    /// Whether the span lies within a sequence of `len` characters.
    pub open spec fn fits(self, len: nat) -> bool {
        self.start <= self.end <= len
    }

    /// The characters of `s` that the span covers.
    pub open spec fn of(self, s: Seq<char>) -> Seq<char> {
        s.subrange(self.start as int, self.end as int)
    }
}

/// Every split has at least one piece.
pub proof fn lemma_split_nonempty(s: Seq<char>, sep: CharClass)
    ensures
        split(s, sep).len() >= 1,
    decreases s.len(),
{
    if s.len() > 0 {
        lemma_split_nonempty(s.drop_last(), sep);
    }
}

/// No piece of a split holds a separator.
pub proof fn lemma_split_pieces_clean(s: Seq<char>, sep: CharClass)
    ensures
        forall|i: int, j: int|
            0 <= i < split(s, sep).len() && 0 <= j < split(s, sep)[i].len() ==> !sep.has(
                #[trigger] split(s, sep)[i][j],
            ),
    decreases s.len(),
{
    if s.len() > 0 {
        lemma_split_pieces_clean(s.drop_last(), sep);
        lemma_split_nonempty(s.drop_last(), sep);
    }
}

/// A sequence without separators is its own single piece.
pub proof fn lemma_split_without_separator(s: Seq<char>, sep: CharClass)
    requires
        forall|i: int| 0 <= i < s.len() ==> !sep.has(#[trigger] s[i]),
    ensures
        split(s, sep) == seq![s],
    decreases s.len(),
{
    if s.len() > 0 {
        let before = split(s.drop_last(), sep);
        lemma_split_without_separator(s.drop_last(), sep);
        assert(before.last().push(s.last()) =~= s);
    } else {
        assert(s =~= Seq::<char>::empty());
    }
}

/// A sequence of separators alone has empty pieces only.
pub proof fn lemma_split_of_separators(s: Seq<char>, sep: CharClass)
    requires
        forall|i: int| 0 <= i < s.len() ==> sep.has(#[trigger] s[i]),
    ensures
        forall|i: int| 0 <= i < split(s, sep).len() ==> (#[trigger] split(s, sep)[i]).len() == 0,
    decreases s.len(),
{
    if s.len() > 0 {
        lemma_split_of_separators(s.drop_last(), sep);
        assert(split(s, sep) == split(s.drop_last(), sep).push(Seq::<char>::empty()));
    }
}

/// The first piece of a split ends at the first separator.
pub proof fn lemma_first_piece(s: Seq<char>, sep: CharClass, k: int)
    requires
        0 <= k < s.len(),
        sep.has(s[k]),
        forall|i: int| 0 <= i < k ==> !sep.has(#[trigger] s[i]),
    ensures
        split(s, sep).len() >= 2,
        split(s, sep).first() == s.take(k),
    decreases s.len(),
{
    let before = s.drop_last();
    if k == s.len() - 1 {
        lemma_split_without_separator(before, sep);
    } else {
        lemma_first_piece(before, sep, k);
    }
}

/// What is left of a sequence after its front was stripped does not begin
/// with a character of the class.
pub proof fn lemma_strip_start_is_bare(s: Seq<char>, class: CharClass)
    ensures
        strip_start(s, class).len() > 0 ==> !class.has(strip_start(s, class).first()),
    decreases s.len(),
{
    if s.len() > 0 && class.has(s.first()) {
        lemma_strip_start_is_bare(s.drop_first(), class);
    }
}

/// What is left of a sequence after its end was stripped is its beginning,
/// and does not end with a character of the class.
pub proof fn lemma_strip_end_is_bare(s: Seq<char>, class: CharClass)
    ensures
        strip_end(s, class).len() <= s.len(),
        strip_end(s, class) == s.take(strip_end(s, class).len() as int),
        strip_end(s, class).len() > 0 ==> !class.has(strip_end(s, class).last()),
    decreases s.len(),
{
    if s.len() > 0 && class.has(s.last()) {
        lemma_strip_end_is_bare(s.drop_last(), class);
    }
}

/// A stripped sequence neither begins nor ends with a character of the
/// class.
pub proof fn lemma_strip_is_bare(s: Seq<char>, class: CharClass)
    ensures
        is_bare(strip(s, class), class),
{
    lemma_strip_start_is_bare(s, class);
    lemma_strip_end_is_bare(strip_start(s, class), class);
}

/// Stripping changes nothing where neither end is a character of the
/// class.
pub proof fn lemma_strip_of_bare(s: Seq<char>, class: CharClass)
    requires
        is_bare(s, class),
    ensures
        strip(s, class) == s,
{
}

/// The characters of `s`, in order.
pub fn chars_of(s: &str) -> (chars: Vec<char>)
    ensures
        chars@ == s@,
{
    let mut chars: Vec<char> = Vec::new();
    for c in it: s.chars()
        invariant
            it.seq() == s@,
            chars@ == s@.take(it.index() as int),
    {
        chars.push(c);
    }
    chars
}

/// Splits `chars` at the characters of `sep` and returns the pieces as spans.
pub fn split_spans(chars: &Vec<char>, sep: CharClass) -> (spans: Vec<Span>)
    ensures
        spans.len() == split(chars@, sep).len(),
        forall|i: int|
            0 <= i < spans.len() ==> (#[trigger] spans[i]).fits(chars@.len())
                && spans[i].of(chars@) == split(chars@, sep)[i],
{
    let mut spans: Vec<Span> = Vec::new();
    let mut start: usize = 0;
    let mut i: usize = 0;
    while i < chars.len()
        invariant
            start <= i <= chars.len(),
            split(chars@.take(i as int), sep).len() == spans.len() + 1,
            split(chars@.take(i as int), sep).last() == chars@.subrange(start as int, i as int),
            forall|k: int|
                0 <= k < spans.len() ==> (#[trigger] spans[k]).fits(chars@.len())
                    && spans[k].of(chars@) == split(chars@.take(i as int), sep)[k],
        decreases chars.len() - i,
    {
        proof {
            assert(chars@.take(i + 1).drop_last() =~= chars@.take(i as int));
        }
        if sep.contains(chars[i]) {
            spans.push(Span { start, end: i });
            start = i + 1;
        }
        i = i + 1;
    }
    proof {
        assert(chars@.take(i as int) =~= chars@);
    }
    spans.push(Span { start, end: i });
    spans
}

/// Narrows `span` until neither of its ends is a character of `class`.
pub fn strip_span(chars: &Vec<char>, span: Span, class: CharClass) -> (r: Span)
    requires
        span.fits(chars@.len()),
    ensures
        r.fits(chars@.len()),
        span.start <= r.start,
        r.end <= span.end,
        r.of(chars@) == strip(span.of(chars@), class),
{
    let mut start: usize = span.start;
    let mut end: usize = span.end;
    while start < end && class.contains(chars[start])
        invariant
            span.start <= start <= end,
            end == span.end,
            end <= chars.len(),
            strip_start(chars@.subrange(start as int, end as int), class) == strip_start(
                span.of(chars@),
                class,
            ),
        decreases end - start,
    {
        proof {
            assert(chars@.subrange(start as int, end as int).drop_first() =~= chars@.subrange(
                start + 1,
                end as int,
            ));
        }
        start = start + 1;
    }
    while start < end && class.contains(chars[end - 1])
        invariant
            span.start <= start <= end <= span.end,
            end <= chars.len(),
            strip_end(chars@.subrange(start as int, end as int), class) == strip(
                span.of(chars@),
                class,
            ),
        decreases end - start,
    {
        proof {
            assert(chars@.subrange(start as int, end as int).drop_last() =~= chars@.subrange(
                start as int,
                end - 1,
            ));
        }
        end = end - 1;
    }
    Span { start, end }
}

/// Tests whether the characters under `span` begin with `prefix`.
pub fn span_has_prefix(chars: &Vec<char>, span: Span, prefix: &Vec<char>) -> (r: bool)
    requires
        span.fits(chars@.len()),
    ensures
        r == has_prefix(span.of(chars@), prefix@),
{
    if prefix.len() > span.end - span.start {
        return false;
    }
    let mut k: usize = 0;
    while k < prefix.len()
        invariant
            k <= prefix.len() <= span.end - span.start,
            span.fits(chars@.len()),
            span.of(chars@).take(k as int) == prefix@.take(k as int),
        decreases prefix.len() - k,
    {
        if chars[span.start + k] != prefix[k] {
            return false;
        }
        k = k + 1;
    }
    proof {
        assert(prefix@.take(k as int) =~= prefix@);
    }
    true
}

/// `s` without the white space at its ends.
pub fn trim(s: &str) -> (trimmed: String)
    ensures
        trimmed@ == strip(s@, CharClass::Whitespace),
{
    let chars = chars_of(s);
    let whole = Span { start: 0, end: chars.len() };
    proof {
        assert(whole.of(chars@) =~= s@);
    }
    let kept = strip_span(&chars, whole, CharClass::Whitespace);
    String::from_str(s.substring_char(kept.start, kept.end))
}

} // verus!
