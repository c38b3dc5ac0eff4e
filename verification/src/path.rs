//! Paths of archive entries: resolving a name against a root that it must
//! not leave.
//!
//! An entry's name is cut at slashes and backslashes. Empty components and
//! `.` are dropped, `..` takes back the component before it. A name whose
//! `..` has nothing to take back leaves the root and resolves to nothing,
//! and so does an absolute name: one that begins with a separator and
//! holds more than separators. A name of separators alone has no component
//! and resolves to the root itself. Every other character, a colon or a
//! NUL too, is part of a component's name.

use vstd::prelude::*;
use vstd::string::*;
use crate::text::{
    chars_of, has_prefix, lemma_first_piece, lemma_split_of_separators,
    lemma_split_pieces_clean, lemma_split_without_separator, split, split_spans, CharClass, Span,
};

verus! {

/// The component that stands for the directory itself.
pub open spec fn dot() -> Seq<char> {
    seq!['.']
}

/// The component that stands for the directory above.
pub open spec fn dot_dot() -> Seq<char> {
    seq!['.', '.']
}

/// Whether `component` names a file or directory: it is not empty, is
/// neither `.` nor `..`, and holds no separator.
pub open spec fn is_plain(component: Seq<char>) -> bool {
    &&& component.len() > 0
    &&& component != dot()
    &&& component != dot_dot()
    &&& forall|i: int|
        0 <= i < component.len() ==> !CharClass::PathSeparator.has(#[trigger] component[i])
}

/// The components below the root after `part` is taken in, or `None` if
/// `part` leads above the root.
pub open spec fn descend(stack: Seq<Seq<char>>, part: Seq<char>) -> Option<Seq<Seq<char>>> {
    if part.len() == 0 || part == dot() {
        Some(stack)
    } else if part == dot_dot() {
        if stack.len() == 0 {
            None
        } else {
            Some(stack.drop_last())
        }
    } else {
        Some(stack.push(part))
    }
}

/// The components below the root that `parts` lead to when taken in order,
/// or `None` if they lead above the root at any point.
pub open spec fn resolve_parts(parts: Seq<Seq<char>>) -> Option<Seq<Seq<char>>>
    decreases parts.len(),
{
    if parts.len() == 0 {
        Some(Seq::empty())
    } else {
        match resolve_parts(parts.drop_last()) {
            Some(stack) => descend(stack, parts.last()),
            None => None,
        }
    }
}

/// Whether `name` holds nothing but separators.
pub open spec fn only_separators(name: Seq<char>) -> bool {
    forall|i: int| 0 <= i < name.len() ==> CharClass::PathSeparator.has(#[trigger] name[i])
}

/// Whether `name` is absolute: it begins with a separator and names
/// something after it.
pub open spec fn is_absolute(name: Seq<char>) -> bool {
    name.len() > 0 && CharClass::PathSeparator.has(name.first()) && !only_separators(name)
}

/// The components below the root that the entry name `name` leads to, or
/// `None` if the name is absolute or leads above the root.
pub open spec fn resolve(name: Seq<char>) -> Option<Seq<Seq<char>>> {
    if is_absolute(name) {
        None
    } else {
        resolve_parts(split(name, CharClass::PathSeparator))
    }
}

/// `base` with one more component: a slash goes between them unless `base`
/// is empty or ends with one.
pub open spec fn push_component(base: Seq<char>, component: Seq<char>) -> Seq<char> {
    if base.len() == 0 || base.last() == '/' {
        base + component
    } else {
        base + seq!['/'] + component
    }
}

/// `base` with `components` added one after the other.
pub open spec fn join(base: Seq<char>, components: Seq<Seq<char>>) -> Seq<char>
    decreases components.len(),
{
    if components.len() == 0 {
        base
    } else {
        push_component(join(base, components.drop_last()), components.last())
    }
}

/// Whether `path` is `root` with the plain components `components` added.
pub open spec fn leads_to(root: Seq<char>, components: Seq<Seq<char>>, path: Seq<char>) -> bool {
    &&& forall|i: int| 0 <= i < components.len() ==> is_plain(#[trigger] components[i])
    &&& path == join(root, components)
}

/// Whether `path` is `root` or lies below it: it is `root` with plain
/// components added, so no step in it leads up.
pub open spec fn is_within(path: Seq<char>, root: Seq<char>) -> bool {
    exists|components: Seq<Seq<char>>| #[trigger] leads_to(root, components, path)
}

/// Whether `path` lies below `root`: it is `root` with at least one plain
/// component added.
pub open spec fn is_below(path: Seq<char>, root: Seq<char>) -> bool {
    exists|components: Seq<Seq<char>>|
        components.len() > 0 && #[trigger] leads_to(root, components, path)
}

/// Whether `spans` mark exactly `components` in `s`.
pub open spec fn marks(spans: Seq<Span>, s: Seq<char>, components: Seq<Seq<char>>) -> bool {
    &&& spans.len() == components.len()
    &&& forall|i: int|
        0 <= i < spans.len() ==> (#[trigger] spans[i]).fits(s.len()) && spans[i].of(s)
            == components[i]
}

/// The pieces that `spans` mark in `s`.
pub open spec fn pieces(spans: Seq<Span>, s: Seq<char>) -> Seq<Seq<char>> {
    Seq::new(spans.len(), |i: int| spans[i].of(s))
}

/// Resolving keeps plain components only.
pub proof fn lemma_resolve_parts_plain(parts: Seq<Seq<char>>)
    requires
        forall|i: int, j: int|
            0 <= i < parts.len() && 0 <= j < parts[i].len() ==> !CharClass::PathSeparator.has(
                #[trigger] parts[i][j],
            ),
    ensures
        resolve_parts(parts) matches Some(stack) ==> forall|i: int|
            0 <= i < stack.len() ==> is_plain(#[trigger] stack[i]),
    decreases parts.len(),
{
    if parts.len() > 0 {
        lemma_resolve_parts_plain(parts.drop_last());
    }
}

/// Every component that a name resolves to is plain: the name of a file or
/// a directory, never a step up or a path of its own.
pub proof fn lemma_resolve_plain(name: Seq<char>)
    ensures
        resolve(name) matches Some(stack) ==> forall|i: int|
            0 <= i < stack.len() ==> is_plain(#[trigger] stack[i]),
{
    lemma_split_pieces_clean(name, CharClass::PathSeparator);
    lemma_resolve_parts_plain(split(name, CharClass::PathSeparator));
}

/// A name that begins with a step up leaves the root, whatever follows.
pub proof fn lemma_leading_step_up_escapes(name: Seq<char>)
    requires
        has_prefix(name, dot_dot()),
        name.len() == 2 || CharClass::PathSeparator.has(name[2]),
    ensures
        resolve(name) is None,
{
    let parts = split(name, CharClass::PathSeparator);
    if name.len() == 2 {
        lemma_split_without_separator(name, CharClass::PathSeparator);
    } else {
        lemma_first_piece(name, CharClass::PathSeparator, 2);
    }
    assert(parts.take(1).last() == dot_dot());
    assert(resolve_parts(parts.take(1).drop_last()) == Some(Seq::<Seq<char>>::empty()));
    lemma_resolve_parts_none(parts, 1);
}

/// An absolute name leaves the root.
pub proof fn lemma_absolute_name_escapes(name: Seq<char>)
    requires
        is_absolute(name),
    ensures
        resolve(name) is None,
{
}

/// Pieces that are all empty lead nowhere: they resolve to the root.
pub proof fn lemma_empty_parts_resolve_to_root(parts: Seq<Seq<char>>)
    requires
        forall|i: int| 0 <= i < parts.len() ==> (#[trigger] parts[i]).len() == 0,
    ensures
        resolve_parts(parts) == Some(Seq::<Seq<char>>::empty()),
    decreases parts.len(),
{
    if parts.len() > 0 {
        lemma_empty_parts_resolve_to_root(parts.drop_last());
    }
}

/// A name of separators alone, the empty name too, has no component: it
/// resolves to the root itself.
pub proof fn lemma_separators_resolve_to_root(name: Seq<char>)
    requires
        only_separators(name),
    ensures
        resolve(name) == Some(Seq::<Seq<char>>::empty()),
{
    lemma_split_of_separators(name, CharClass::PathSeparator);
    lemma_empty_parts_resolve_to_root(split(name, CharClass::PathSeparator));
}

/// A path that was joined onto `root` begins with `root`.
pub proof fn lemma_join_begins_with_root(root: Seq<char>, components: Seq<Seq<char>>)
    ensures
        root.len() <= join(root, components).len(),
        join(root, components).take(root.len() as int) == root,
    decreases components.len(),
{
    if components.len() > 0 {
        lemma_join_begins_with_root(root, components.drop_last());
    }
}

/// Resolves an entry name. The spans mark the components in `chars`.
pub fn resolve_name(chars: &Vec<char>) -> (r: Option<Vec<Span>>)
    ensures
        match r {
            Some(spans) => resolve(chars@) matches Some(stack) && marks(spans@, chars@, stack),
            None => resolve(chars@) is None,
        },
{
    if chars.len() > 0 && CharClass::PathSeparator.contains(chars[0]) {
        let mut i: usize = 1;
        while i < chars.len()
            invariant
                1 <= i <= chars.len(),
                forall|j: int| 0 <= j < i ==> CharClass::PathSeparator.has(#[trigger] chars@[j]),
            decreases chars.len() - i,
        {
            if !CharClass::PathSeparator.contains(chars[i]) {
                return None;
            }
            i = i + 1;
        }
    }
    let parts = split_spans(chars, CharClass::PathSeparator);
    let ghost all = split(chars@, CharClass::PathSeparator);
    let mut stack: Vec<Span> = Vec::new();
    let mut k: usize = 0;
    while k < parts.len()
        invariant
            k <= parts.len(),
            all == split(chars@, CharClass::PathSeparator),
            parts.len() == all.len(),
            forall|i: int|
                0 <= i < parts.len() ==> (#[trigger] parts[i]).fits(chars@.len()) && parts[i].of(
                    chars@,
                ) == all[i],
            resolve_parts(all.take(k as int)) matches Some(found) && marks(
                stack@,
                chars@,
                found,
            ),
        decreases parts.len() - k,
    {
        let part = parts[k];
        let ghost text = part.of(chars@);
        proof {
            assert(all.take(k + 1).drop_last() =~= all.take(k as int));
        }
        let len: usize = part.end - part.start;
        let one_dot = len == 1 && chars[part.start] == '.';
        let two_dots = len == 2 && chars[part.start] == '.' && chars[part.start + 1] == '.';
        proof {
            assert(text == dot() ==> text[0] == '.');
            assert(one_dot <==> text =~= dot());
            assert(two_dots <==> text =~= dot_dot());
        }
        if len == 0 || one_dot {
        } else if two_dots {
            if stack.len() == 0 {
                proof {
                    lemma_resolve_parts_none(all, k + 1);
                }
                return None;
            }
            stack.pop();
        } else {
            stack.push(part);
        }
        k = k + 1;
    }
    proof {
        assert(all.take(k as int) =~= all);
    }
    Some(stack)
}

/// Once a prefix of the parts leads above the root, so do all the parts.
pub proof fn lemma_resolve_parts_none(parts: Seq<Seq<char>>, k: int)
    requires
        0 <= k <= parts.len(),
        resolve_parts(parts.take(k)) is None,
    ensures
        resolve_parts(parts) is None,
    decreases parts.len(),
{
    if k == parts.len() {
        assert(parts.take(k) =~= parts);
    } else {
        assert(parts.drop_last().take(k) =~= parts.take(k));
        lemma_resolve_parts_none(parts.drop_last(), k);
    }
}

/// Joins the first `count` components that `spans` mark in `name` onto
/// `root`.
pub fn join_path(root: &str, name: &str, spans: &Vec<Span>, count: usize) -> (path: String)
    requires
        count <= spans.len(),
        forall|i: int| 0 <= i < spans.len() ==> (#[trigger] spans[i]).fits(name@.len()),
    ensures
        path@ == join(root@, pieces(spans@, name@).take(count as int)),
{
    let root_chars = chars_of(root);
    let name_chars = chars_of(name);
    let mut path = String::from_str(root);
    let mut open: bool = root_chars.len() == 0 || root_chars[root_chars.len() - 1] == '/';
    let ghost all = pieces(spans@, name@);
    let mut k: usize = 0;
    while k < count
        invariant
            k <= count <= spans.len(),
            name_chars@ == name@,
            all == pieces(spans@, name@),
            forall|i: int| 0 <= i < spans.len() ==> (#[trigger] spans[i]).fits(name@.len()),
            path@ == join(root@, all.take(k as int)),
            open == (path@.len() == 0 || path@.last() == '/'),
        decreases count - k,
    {
        let span = spans[k];
        let piece = name.substring_char(span.start, span.end);
        proof {
            assert(all.take(k + 1).drop_last() =~= all.take(k as int));
        }
        if !open {
            proof {
                reveal_strlit("/");
            }
            path.append("/");
        }
        path.append(piece);
        if span.end > span.start {
            open = name_chars[span.end - 1] == '/';
        } else {
            open = true;
        }
        k = k + 1;
    }
    path
}

} // verus!
