//! Extraction of an addon archive: from the bytes of a ZIP container to the
//! list of directories and files to create under a target root.
//!
//! Nothing is written here. `extract_zip` reads the whole container and
//! returns the actions in container order, or the first failure; a caller
//! that carries the actions out only after it has them all never writes a
//! part of an archive that holds an entry leaving the root.

use vstd::prelude::*;
use vstd::string::*;
use std::io::Read;
use crate::path::{
    is_below, is_plain, is_within, join, join_path, leads_to, lemma_resolve_plain, pieces,
    resolve, resolve_name,
};
use crate::text::chars_of;

verus! {

/// `zip::ZipArchive`: an open container. Nothing is known of its inside;
/// `archive_entries` names what it holds.
#[verifier::external_type_specification]
#[verifier::external_body]
#[verifier::reject_recursive_types(R)]
pub struct ExZipArchive<R>(zip::ZipArchive<R>);

/// `std::io::Cursor`: the reader through which the container is read from
/// memory. It is only carried along.
#[verifier::external_type_specification]
#[verifier::external_body]
#[verifier::reject_recursive_types(T)]
pub struct ExCursor<T>(std::io::Cursor<T>);

/// `zip::result::ZipError`: why the `zip` crate could not read something.
/// It is only told apart from success.
#[verifier::external_type_specification]
#[verifier::external_body]
pub struct ExZipError(zip::result::ZipError);

/// One entry of an archive, as read from the container.
#[derive(Clone, Debug, PartialEq, Eq)]
pub struct ArchiveEntry {
    /// The entry's name in the container: a relative path.
    pub name: String,
    /// Whether the entry stands for a directory.
    pub is_dir: bool,
    /// The POSIX mode, where the container records one.
    pub mode: Option<u32>,
    /// The entry's bytes, unpacked.
    pub content: Vec<u8>,
}

/// The mathematical value of an `ArchiveEntry`.
pub struct EntryView {
    pub name: Seq<char>,
    pub is_dir: bool,
    pub mode: Option<u32>,
    pub content: Seq<u8>,
}

impl View for ArchiveEntry {
    type V = EntryView;

    open spec fn view(&self) -> EntryView {
        EntryView {
            name: self.name@,
            is_dir: self.is_dir,
            mode: self.mode,
            content: self.content@,
        }
    }
}

/// One step of an extraction.
#[derive(Clone, Debug, PartialEq, Eq)]
pub enum FsAction {
    /// Create the directory `path` and its missing ancestors, then give it
    /// `mode` where there is one.
    CreateDir { path: String, mode: Option<u32> },
    /// Create the directory `parent` and its missing ancestors, write
    /// `content` to the file `path`, then give it `mode` where there is one.
    WriteFile { path: String, parent: String, content: Vec<u8>, mode: Option<u32> },
}

/// The mathematical value of an `FsAction`.
pub enum FsActionView {
    CreateDir { path: Seq<char>, mode: Option<u32> },
    WriteFile { path: Seq<char>, parent: Seq<char>, content: Seq<u8>, mode: Option<u32> },
}

impl View for FsAction {
    type V = FsActionView;

    open spec fn view(&self) -> FsActionView {
        match self {
            FsAction::CreateDir { path, mode } => FsActionView::CreateDir {
                path: path@,
                mode: *mode,
            },
            FsAction::WriteFile { path, parent, content, mode } => FsActionView::WriteFile {
                path: path@,
                parent: parent@,
                content: content@,
                mode: *mode,
            },
        }
    }
}

/// Why an archive was not extracted.
#[derive(Clone, Debug, PartialEq, Eq)]
pub enum ExtractError {
    /// The bytes are no ZIP container.
    CorruptArchive,
    /// The entry at `index` cannot be read from the container.
    UnreadableEntry { index: usize },
    /// The entry at `index`, named `name`, would be written outside the
    /// target root.
    PathEscape { index: usize, name: String },
}

/// The mathematical value of an `ExtractError`.
pub enum ExtractErrorView {
    CorruptArchive,
    UnreadableEntry { index: int },
    PathEscape { index: int, name: Seq<char> },
}

impl View for ExtractError {
    type V = ExtractErrorView;

    open spec fn view(&self) -> ExtractErrorView {
        match self {
            ExtractError::CorruptArchive => ExtractErrorView::CorruptArchive,
            ExtractError::UnreadableEntry { index } => ExtractErrorView::UnreadableEntry {
                index: *index as int,
            },
            ExtractError::PathEscape { index, name } => ExtractErrorView::PathEscape {
                index: *index as int,
                name: name@,
            },
        }
    }
}

/// The entries of the ZIP container that `bytes` hold, in container order
/// and as the `zip` crate reads them, or `None` where it finds no
/// container. An entry that it cannot read is `None`.
pub uninterp spec fn zip_directory(bytes: Seq<u8>) -> Option<Seq<Option<EntryView>>>;

/// The entries of an open archive, in container order. An entry that
/// cannot be read is `None`.
pub uninterp spec fn archive_entries(
    archive: zip::ZipArchive<std::io::Cursor<&[u8]>>,
) -> Seq<Option<EntryView>>;

/// Calls `zip::ZipArchive::new` on a cursor over `bytes`. The contract
/// names the outcome: an archive whose entries are those of the container,
/// or an error where the bytes hold none.
#[verifier::external_body]
fn open_archive<'a>(bytes: &'a [u8]) -> (r: Result<
    zip::ZipArchive<std::io::Cursor<&'a [u8]>>,
    zip::result::ZipError,
>)
    ensures
        match r {
            Ok(archive) => zip_directory(bytes@) == Some(archive_entries(archive)),
            Err(_) => zip_directory(bytes@) is None,
        },
{
    zip::ZipArchive::new(std::io::Cursor::new(bytes))
}

/// Calls `zip::ZipArchive::len`: the number of entries.
#[verifier::external_body]
fn entry_count(archive: &zip::ZipArchive<std::io::Cursor<&[u8]>>) -> (count: usize)
    ensures
        count == archive_entries(*archive).len(),
{
    archive.len()
}

/// Calls `zip::ZipArchive::by_index` and reads the entry found: its name,
/// whether it is a directory, its mode, and all its bytes. The archive
/// holds the same entries afterwards. An index past the last entry, a name
/// that cannot be decoded and bytes that cannot be unpacked give an error.
#[verifier::external_body]
fn read_entry(archive: &mut zip::ZipArchive<std::io::Cursor<&[u8]>>, index: usize) -> (r:
    Result<ArchiveEntry, zip::result::ZipError>)
    ensures
        archive_entries(*final(archive)) == archive_entries(*old(archive)),
        match r {
            Ok(entry) => index < archive_entries(*old(archive)).len() && archive_entries(
                *old(archive),
            )[index as int] == Some(entry@),
            Err(_) => index < archive_entries(*old(archive)).len() ==> archive_entries(
                *old(archive),
            )[index as int] is None,
        },
{
    let mut file = archive.by_index(index)?;
    let name = file.name()?.into_owned();
    let is_dir = file.is_dir();
    let mode = file.unix_mode();
    let mut content = Vec::new();
    file.read_to_end(&mut content)?;
    Ok(ArchiveEntry { name, is_dir, mode, content })
}

/// The action that puts `entry` at `components` below `root`.
pub open spec fn action_for(
    entry: EntryView,
    root: Seq<char>,
    components: Seq<Seq<char>>,
) -> FsActionView {
    if entry.is_dir {
        FsActionView::CreateDir { path: join(root, components), mode: entry.mode }
    } else {
        FsActionView::WriteFile {
            path: join(root, components),
            parent: join(root, components.drop_last()),
            content: entry.content,
            mode: entry.mode,
        }
    }
}

/// The plan after the entry at `index` is taken in: an unreadable entry
/// and one that leaves the root fail the extraction, one that resolves to
/// the root itself is passed over, any other adds its action.
pub open spec fn take_in(
    actions: Seq<FsActionView>,
    index: int,
    entry: Option<EntryView>,
    root: Seq<char>,
) -> Result<Seq<FsActionView>, ExtractErrorView> {
    match entry {
        None => Err(ExtractErrorView::UnreadableEntry { index }),
        Some(entry) => match resolve(entry.name) {
            None => Err(ExtractErrorView::PathEscape { index, name: entry.name }),
            Some(components) => if components.len() == 0 {
                Ok(actions)
            } else {
                Ok(actions.push(action_for(entry, root, components)))
            },
        },
    }
}

/// What extracting `entries` under `root` comes to: the actions for all of
/// them in order, or the failure of the first entry that fails.
pub open spec fn extraction(entries: Seq<Option<EntryView>>, root: Seq<char>) -> Result<
    Seq<FsActionView>,
    ExtractErrorView,
>
    decreases entries.len(),
{
    if entries.len() == 0 {
        Ok(Seq::empty())
    } else {
        match extraction(entries.drop_last(), root) {
            Ok(actions) => take_in(actions, entries.len() - 1, entries.last(), root),
            Err(error) => Err(error),
        }
    }
}

/// What extracting the container in `bytes` under `root` comes to, given
/// what the container holds.
pub open spec fn extraction_of(
    directory: Option<Seq<Option<EntryView>>>,
    root: Seq<char>,
) -> Result<Seq<FsActionView>, ExtractErrorView> {
    match directory {
        Some(entries) => extraction(entries, root),
        None => Err(ExtractErrorView::CorruptArchive),
    }
}

/// The values of a list of actions.
pub open spec fn action_views(actions: Seq<FsAction>) -> Seq<FsActionView> {
    Seq::new(actions.len(), |i: int| actions[i]@)
}

/// The values of a list of entries, all of them readable.
pub open spec fn readable(entries: Seq<ArchiveEntry>) -> Seq<Option<EntryView>> {
    Seq::new(entries.len(), |i: int| Some(entries[i]@))
}

/// The value of the outcome of an extraction.
pub open spec fn outcome_view(outcome: Result<Vec<FsAction>, ExtractError>) -> Result<
    Seq<FsActionView>,
    ExtractErrorView,
> {
    match outcome {
        Ok(actions) => Ok(action_views(actions@)),
        Err(error) => Err(error@),
    }
}

/// Takes one entry into the plan.
fn plan_entry(actions: &mut Vec<FsAction>, index: usize, entry: ArchiveEntry, root: &str) -> (r:
    Result<(), ExtractError>)
    ensures
        match take_in(action_views(old(actions)@), index as int, Some(entry@), root@) {
            Ok(next) => r is Ok && action_views(final(actions)@) == next,
            Err(error) => r matches Err(e) && e@ == error,
        },
{
    let chars = chars_of(entry.name.as_str());
    match resolve_name(&chars) {
        None => Err(ExtractError::PathEscape { index, name: entry.name }),
        Some(spans) => {
            if spans.len() > 0 {
                let ghost components = pieces(spans@, entry.name@);
                proof {
                    assert(components =~= resolve(entry.name@)->0);
                    assert(components.take(spans.len() as int) =~= components);
                }
                let path = join_path(root, entry.name.as_str(), &spans, spans.len());
                let action = if entry.is_dir {
                    FsAction::CreateDir { path, mode: entry.mode }
                } else {
                    let parent = join_path(root, entry.name.as_str(), &spans, spans.len() - 1);
                    FsAction::WriteFile { path, parent, content: entry.content, mode: entry.mode }
                };
                actions.push(action);
            }
            Ok(())
        },
    }
}

/// Plans the extraction of `entries` under `target_root`: the actions for
/// the entries in order, or the first entry that would leave the root.
pub fn plan_extraction(entries: Vec<ArchiveEntry>, target_root: &str) -> (outcome: Result<
    Vec<FsAction>,
    ExtractError,
>)
    ensures
        outcome_view(outcome) == extraction(readable(entries@), target_root@),
{
    let mut actions: Vec<FsAction> = Vec::new();
    let ghost all = readable(entries@);
    proof {
        assert(action_views(actions@) =~= Seq::<FsActionView>::empty());
    }
    let count: usize = entries.len();
    let mut index: usize = 0;
    for entry in it: entries
        invariant
            index == it.index(),
            count == entries@.len(),
            it.seq() == entries@,
            all == readable(entries@),
            extraction(all.take(index as int), target_root@) == Ok::<
                Seq<FsActionView>,
                ExtractErrorView,
            >(action_views(actions@)),
    {
        proof {
            assert(all.take(index + 1).drop_last() =~= all.take(index as int));
        }
        match plan_entry(&mut actions, index, entry, target_root) {
            Ok(()) => {},
            Err(error) => {
                proof {
                    lemma_extraction_fails(all, index + 1, target_root@);
                }
                return Err(error);
            },
        }
        index = index + 1;
    }
    proof {
        assert(all.take(index as int) =~= all);
    }
    Ok(actions)
}

/// A failure among the first entries is the failure of the whole.
pub proof fn lemma_extraction_fails(entries: Seq<Option<EntryView>>, k: int, root: Seq<char>)
    requires
        0 <= k <= entries.len(),
        extraction(entries.take(k), root) is Err,
    ensures
        extraction(entries, root) == extraction(entries.take(k), root),
    decreases entries.len(),
{
    if k == entries.len() {
        assert(entries.take(k) =~= entries);
    } else {
        assert(entries.drop_last().take(k) =~= entries.take(k));
        lemma_extraction_fails(entries.drop_last(), k, root);
    }
}

/// Whether the entry can be extracted: it is readable, and its name stays
/// within the root.
pub open spec fn is_sound(entry: Option<EntryView>) -> bool {
    entry matches Some(found) && resolve(found.name) is Some
}

/// The path that an action creates.
pub open spec fn action_path(action: FsActionView) -> Seq<char> {
    match action {
        FsActionView::CreateDir { path, .. } => path,
        FsActionView::WriteFile { path, .. } => path,
    }
}

/// Whether an action keeps to `root`: what it creates lies below `root`,
/// and the directory that it makes for a file is `root` or lies below it.
pub open spec fn keeps_to(action: FsActionView, root: Seq<char>) -> bool {
    match action {
        FsActionView::CreateDir { path, .. } => is_below(path, root),
        FsActionView::WriteFile { path, parent, .. } => is_below(path, root) && is_within(
            parent,
            root,
        ),
    }
}

/// An extraction succeeds if and only if every entry is sound: one entry
/// that cannot be read or that leaves the root fails the whole archive.
pub proof fn lemma_extraction_succeeds_iff_sound(entries: Seq<Option<EntryView>>, root: Seq<char>)
    ensures
        extraction(entries, root) is Ok <==> forall|i: int|
            0 <= i < entries.len() ==> is_sound(#[trigger] entries[i]),
    decreases entries.len(),
{
    if entries.len() > 0 {
        let before = entries.drop_last();
        lemma_extraction_succeeds_iff_sound(before, root);
        if extraction(entries, root) is Ok {
            assert forall|i: int| 0 <= i < entries.len() implies is_sound(
                #[trigger] entries[i],
            ) by {
                if i < before.len() {
                    assert(entries[i] == before[i]);
                }
            }
        }
        if forall|i: int| 0 <= i < entries.len() ==> is_sound(#[trigger] entries[i]) {
            assert(forall|i: int| 0 <= i < before.len() ==> before[i] == entries[i]);
        }
    }
}

/// The failure of an extraction is that of the first entry that is not
/// sound: the entries before it do not matter, nor do those after it.
pub proof fn lemma_first_unsound_entry_decides(
    entries: Seq<Option<EntryView>>,
    root: Seq<char>,
    k: int,
)
    requires
        0 <= k < entries.len(),
        !is_sound(entries[k]),
        forall|i: int| 0 <= i < k ==> is_sound(#[trigger] entries[i]),
    ensures
        extraction(entries, root) == (match entries[k] {
            Some(entry) => Err::<Seq<FsActionView>, ExtractErrorView>(
                ExtractErrorView::PathEscape { index: k, name: entry.name },
            ),
            None => Err(ExtractErrorView::UnreadableEntry { index: k }),
        }),
{
    let upto = entries.take(k + 1);
    assert(upto.drop_last() =~= entries.take(k));
    assert(forall|i: int| 0 <= i < k ==> entries.take(k)[i] == entries[i]);
    lemma_extraction_succeeds_iff_sound(entries.take(k), root);
    lemma_extraction_fails(entries, k + 1, root);
}

/// Every action of an extraction keeps to the root: no entry name, however
/// it is written, has anything created outside.
pub proof fn lemma_extraction_keeps_to_root(entries: Seq<Option<EntryView>>, root: Seq<char>)
    ensures
        extraction(entries, root) matches Ok(actions) ==> forall|i: int|
            0 <= i < actions.len() ==> keeps_to(#[trigger] actions[i], root),
    decreases entries.len(),
{
    if entries.len() > 0 {
        lemma_extraction_keeps_to_root(entries.drop_last(), root);
        if let Ok(actions) = extraction(entries, root) {
            let before = extraction(entries.drop_last(), root)->Ok_0;
            let entry = entries.last()->0;
            let components = resolve(entry.name)->0;
            lemma_resolve_plain(entry.name);
            if components.len() > 0 {
                assert(leads_to(root, components, join(root, components)));
                assert(leads_to(
                    root,
                    components.drop_last(),
                    join(root, components.drop_last()),
                ));
                assert(actions == before.push(action_for(entry, root, components)));
            }
        }
    }
}

/// An extraction has at most one action for each entry.
pub proof fn lemma_extraction_length(entries: Seq<Option<EntryView>>, root: Seq<char>)
    ensures
        extraction(entries, root) matches Ok(actions) ==> actions.len() <= entries.len(),
    decreases entries.len(),
{
    if entries.len() > 0 {
        lemma_extraction_length(entries.drop_last(), root);
    }
}

/// Reads the ZIP container in `bytes` and plans its extraction under
/// `target_dir`: the actions for its entries in container order, or the
/// first failure.
#[verifier::loop_isolation(false)]
pub fn extract_zip(bytes: &[u8], target_dir: &str) -> (outcome: Result<
    Vec<FsAction>,
    ExtractError,
>)
    ensures
        outcome_view(outcome) == extraction_of(zip_directory(bytes@), target_dir@),
{
    let mut archive = match open_archive(bytes) {
        Ok(archive) => archive,
        Err(_) => {
            return Err(ExtractError::CorruptArchive);
        },
    };
    let ghost all = archive_entries(archive);
    let count = entry_count(&archive);
    let mut actions: Vec<FsAction> = Vec::new();
    proof {
        assert(action_views(actions@) =~= Seq::<FsActionView>::empty());
    }
    let mut index: usize = 0;
    while index < count
        invariant
            index <= count == all.len(),
            all == archive_entries(archive),
            extraction(all.take(index as int), target_dir@) == Ok::<
                Seq<FsActionView>,
                ExtractErrorView,
            >(action_views(actions@)),
        decreases count - index,
    {
        proof {
            assert(all.take(index + 1).drop_last() =~= all.take(index as int));
        }
        let entry = match read_entry(&mut archive, index) {
            Ok(entry) => entry,
            Err(_) => {
                proof {
                    lemma_extraction_fails(all, index + 1, target_dir@);
                }
                return Err(ExtractError::UnreadableEntry { index });
            },
        };
        match plan_entry(&mut actions, index, entry, target_dir) {
            Ok(()) => {},
            Err(error) => {
                proof {
                    lemma_extraction_fails(all, index + 1, target_dir@);
                }
                return Err(error);
            },
        }
        index = index + 1;
    }
    proof {
        assert(all.take(index as int) =~= all);
    }
    Ok(actions)
}

} // verus!
