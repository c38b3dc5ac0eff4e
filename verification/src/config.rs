//! What a run works on: the target directory and the addons to fetch.

use vstd::prelude::*;
use crate::decimal::{parse_u16, parse_u16_span};
use crate::text::{chars_of, split, split_spans, strip, strip_span, CharClass};

verus! {

/// The settings of a run.
#[derive(Clone, Debug, PartialEq, Eq)]
pub struct Config {
    /// The directory that archives are extracted into.
    pub target_directory: String,
    /// The addons to fetch, in the order in which they are processed.
    pub addon_ids: Vec<u16>,
}

/// The mathematical value of a `Config`.
pub struct ConfigView {
    pub target_directory: Seq<char>,
    pub addon_ids: Seq<u16>,
}

impl View for Config {
    type V = ConfigView;

    open spec fn view(&self) -> ConfigView {
        ConfigView { target_directory: self.target_directory@, addon_ids: self.addon_ids@ }
    }
}

/// A list of ids in which the piece at `position` is no id.
#[derive(Clone, Debug, PartialEq, Eq)]
pub struct InvalidDownloadId {
    /// The number of commas before the offending piece.
    pub position: usize,
}

/// The addons that a fresh configuration names as examples.
pub open spec fn example_ids() -> Seq<u16> {
    seq![4063u16, 3501u16]
}

/// The id that one piece of a list denotes: a `u16` in decimal notation,
/// with white space allowed around it.
pub open spec fn id_of(piece: Seq<char>) -> Option<u16> {
    parse_u16(strip(piece, CharClass::Whitespace))
}

/// Whether `parameter` lists exactly `ids`: it has as many pieces between
/// its commas as there are ids, and each piece denotes its id.
pub open spec fn lists(parameter: Seq<char>, ids: Seq<u16>) -> bool {
    &&& ids.len() == split(parameter, CharClass::Comma).len()
    &&& forall|i: int|
        0 <= i < ids.len() ==> id_of(#[trigger] split(parameter, CharClass::Comma)[i]) == Some(
            ids[i],
        )
}

/// Whether the piece at `position` is the first of `parameter` that
/// denotes no id.
pub open spec fn first_invalid(parameter: Seq<char>, position: int) -> bool {
    &&& 0 <= position < split(parameter, CharClass::Comma).len()
    &&& id_of(split(parameter, CharClass::Comma)[position]) is None
    &&& forall|i: int|
        0 <= i < position ==> id_of(#[trigger] split(parameter, CharClass::Comma)[i]) is Some
}

/// A parameter lists at most one sequence of ids, and none if one of its
/// pieces is invalid.
pub proof fn lemma_lists_is_unique(parameter: Seq<char>, first: Seq<u16>, second: Seq<u16>)
    requires
        lists(parameter, first),
    ensures
        lists(parameter, second) ==> first == second,
        forall|position: int| !first_invalid(parameter, position),
{
    let pieces = split(parameter, CharClass::Comma);
    if lists(parameter, second) {
        assert forall|i: int| 0 <= i < first.len() implies first[i] == second[i] by {
            assert(id_of(pieces[i]) == Some(first[i]));
            assert(id_of(pieces[i]) == Some(second[i]));
        }
        assert(first =~= second);
    }
    assert forall|position: int| !first_invalid(parameter, position) by {
        if first_invalid(parameter, position) {
            assert(id_of(pieces[position]) == Some(first[position]));
        }
    }
}

/// Reads a list of addon ids separated by commas. Every piece must be an
/// id; the first one that is not is reported.
pub fn parse_download_ids(parameter: &str) -> (r: Result<Vec<u16>, InvalidDownloadId>)
    ensures
        match r {
            Ok(ids) => lists(parameter@, ids@),
            Err(error) => first_invalid(parameter@, error.position as int),
        },
{
    let chars = chars_of(parameter);
    let parts = split_spans(&chars, CharClass::Comma);
    let ghost pieces = split(chars@, CharClass::Comma);
    let mut ids: Vec<u16> = Vec::new();
    let mut k: usize = 0;
    while k < parts.len()
        invariant
            k <= parts.len(),
            chars@ == parameter@,
            pieces == split(chars@, CharClass::Comma),
            parts.len() == pieces.len(),
            forall|i: int|
                0 <= i < parts.len() ==> (#[trigger] parts[i]).fits(chars@.len()) && parts[i].of(
                    chars@,
                ) == pieces[i],
            ids@.len() == k,
            forall|i: int| 0 <= i < k ==> id_of(#[trigger] pieces[i]) == Some(ids@[i]),
        decreases parts.len() - k,
    {
        let trimmed = strip_span(&chars, parts[k], CharClass::Whitespace);
        match parse_u16_span(&chars, trimmed) {
            Some(id) => {
                ids.push(id);
            },
            None => {
                return Err(InvalidDownloadId { position: k });
            },
        }
        k = k + 1;
    }
    Ok(ids)
}

impl Config {
    /// The settings of a first run: the given target directory and the two
    /// example addons.
    pub fn with_examples(target_directory: String) -> (config: Config)
        ensures
            config@ == (ConfigView {
                target_directory: target_directory@,
                addon_ids: example_ids(),
            }),
    {
        let mut addon_ids: Vec<u16> = Vec::new();
        addon_ids.push(4063);
        addon_ids.push(3501);
        proof {
            assert(addon_ids@ =~= example_ids());
        }
        Config { target_directory, addon_ids }
    }

    /// Applies the overrides of a command line: `target` replaces the
    /// target directory, and the ids listed in `download` replace the
    /// configured ones. A list that does not parse is an error.
    pub fn with_overrides(self, target: Option<String>, download: Option<&str>) -> (r: Result<
        Config,
        InvalidDownloadId,
    >)
        ensures
            match r {
                Ok(config) => {
                    &&& config@.target_directory == match target {
                        Some(directory) => directory@,
                        None => self@.target_directory,
                    }
                    &&& match download {
                        Some(list) => lists(list@, config@.addon_ids),
                        None => config@.addon_ids == self@.addon_ids,
                    }
                },
                Err(error) => download matches Some(list) && first_invalid(
                    list@,
                    error.position as int,
                ),
            },
    {
        let addon_ids = match download {
            Some(list) => match parse_download_ids(list) {
                Ok(ids) => ids,
                Err(error) => {
                    return Err(error);
                },
            },
            None => self.addon_ids,
        };
        let target_directory = match target {
            Some(directory) => directory,
            None => self.target_directory,
        };
        Ok(Config { target_directory, addon_ids })
    }
}

} // verus!
