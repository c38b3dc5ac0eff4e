//! One addon: its identity and what the hosting site tells about it.
//!
//! An `Addon` starts with its id alone. The info page and the download page
//! each fill some of its fields, by patterns that either find a value or
//! leave the field as it was; neither page can fail. The response to the
//! request for the archive is then turned into a plan of what to write.

use vstd::prelude::*;
use vstd::string::*;
use crate::archive::{
    action_views, extract_zip, extraction_of, zip_directory, EntryView, FsAction, FsActionView,
};
use crate::decimal::{append_decimal, decimal};
use crate::download::{resolve_filename, resolved_filename};
use crate::pipeline::{Failure, FailureView};
use crate::scrape::{
    document_of, extract, html_document, normalize, regex_first_group, MAX_PAGE_LENGTH,
};
use crate::text::{
    is_bare, lemma_strip_is_bare, lemma_strip_of_bare, slice_view_of, strip, trim, view_of,
    CharClass,
};

verus! {

/// Address of an addon's info page, up to the id.
pub const INFO_URL_PREFIX: &'static str = "https://www.esoui.com/downloads/info";

/// Address of an addon's download page, up to the id.
pub const DOWNLOAD_URL_PREFIX: &'static str = "https://www.esoui.com/downloads/download";

/// Finds the game version on an info page: the content of the
/// abbreviation in the element `patch`, up to its closing tags.
pub const GAME_VERSION_PATTERN: &'static str =
    "(?s)<div id=\"patch\"><abbr title=\"[^\"]*\">(.+?)</abbr></div>";

/// Finds the addon's version on an info page: what follows the label in
/// the element `version`, up to its closing tag.
pub const ADDON_VERSION_PATTERN: &'static str = "(?s)<div id=\"version\">Version: (.*?)</div>";

/// Finds the time of the last update on an info page: what follows the
/// label in the element `safe`, up to its closing tag.
pub const UPDATED_PATTERN: &'static str = "(?s)<div id=\"safe\">Updated: (.*?)</div>";

/// Finds the addon's name on an info page: the title up to its first
/// colon with a blank before it.
pub const NAME_PATTERN: &'static str = "<title>([^<]+?) :[^<]+</title>";

/// Finds the link to the archive on a download page: the address of the
/// link that follows the question about problems.
pub const DOWNLOAD_PATTERN: &'static str =
    "Problems with the download\\? <a href=\"([^\"]*)\">Click here</a>";

/// An addon of the hosting site. All text fields are empty until a page
/// has filled them.
#[derive(Clone, Debug, PartialEq, Eq)]
pub struct Addon {
    pub id: u16,
    pub name: String,
    pub dl_url: String,
    pub addon_version: String,
    pub game_version: String,
    pub updated: String,
}

/// The mathematical value of an `Addon`.
pub struct AddonView {
    pub id: u16,
    pub name: Seq<char>,
    pub dl_url: Seq<char>,
    pub addon_version: Seq<char>,
    pub game_version: Seq<char>,
    pub updated: Seq<char>,
}

impl View for Addon {
    type V = AddonView;

    open spec fn view(&self) -> AddonView {
        AddonView {
            id: self.id,
            name: self.name@,
            dl_url: self.dl_url@,
            addon_version: self.addon_version@,
            game_version: self.game_version@,
            updated: self.updated@,
        }
    }
}

/// A field of an addon that a page is searched for. The first four are
/// found on the info page, the last on the download page.
#[derive(Clone, Copy, Debug, PartialEq, Eq)]
pub enum ExtractionField {
    GameVersion,
    AddonVersion,
    Updated,
    Name,
    DownloadLink,
}

impl ExtractionField {
    /// The pattern whose first capture group is the field's value.
    pub open spec fn pattern_text(self) -> Seq<char> {
        match self {
            ExtractionField::GameVersion => GAME_VERSION_PATTERN@,
            ExtractionField::AddonVersion => ADDON_VERSION_PATTERN@,
            ExtractionField::Updated => UPDATED_PATTERN@,
            ExtractionField::Name => NAME_PATTERN@,
            ExtractionField::DownloadLink => DOWNLOAD_PATTERN@,
        }
    }

    /// The value of the field that `document` shows, if any.
    pub open spec fn found_in(self, document: Seq<char>) -> Option<Seq<char>> {
        regex_first_group(self.pattern_text(), document)
    }

    /// The pattern whose first capture group is the field's value.
    pub fn pattern(self) -> (text: &'static str)
        ensures
            text@ == self.pattern_text(),
    {
        match self {
            ExtractionField::GameVersion => GAME_VERSION_PATTERN,
            ExtractionField::AddonVersion => ADDON_VERSION_PATTERN,
            ExtractionField::Updated => UPDATED_PATTERN,
            ExtractionField::Name => NAME_PATTERN,
            ExtractionField::DownloadLink => DOWNLOAD_PATTERN,
        }
    }

    /// Searches `document` for the field.
    pub fn find(self, document: &str) -> (found: Option<String>)
        ensures
            view_of(found) == self.found_in(document@),
    {
        extract(document, self.pattern())
    }
}

/// Whether an HTTP status code reports success.
pub open spec fn is_success(status: u16) -> bool {
    200 <= status < 300
}

/// The addon with `text` in `field`.
pub open spec fn with_field(
    addon: AddonView,
    field: ExtractionField,
    text: Seq<char>,
) -> AddonView {
    match field {
        ExtractionField::GameVersion => AddonView { game_version: text, ..addon },
        ExtractionField::AddonVersion => AddonView { addon_version: text, ..addon },
        ExtractionField::Updated => AddonView { updated: text, ..addon },
        ExtractionField::Name => AddonView { name: text, ..addon },
        ExtractionField::DownloadLink => AddonView { dl_url: text, ..addon },
    }
}

/// What `field` holds in `addon`.
pub open spec fn field_of(addon: AddonView, field: ExtractionField) -> Seq<char> {
    match field {
        ExtractionField::GameVersion => addon.game_version,
        ExtractionField::AddonVersion => addon.addon_version,
        ExtractionField::Updated => addon.updated,
        ExtractionField::Name => addon.name,
        ExtractionField::DownloadLink => addon.dl_url,
    }
}

/// The addon after a search for `field`: a value that was found is stored
/// without the white space around it, and without a value the addon is as
/// before.
pub open spec fn stored(
    addon: AddonView,
    field: ExtractionField,
    found: Option<Seq<char>>,
) -> AddonView {
    match found {
        None => addon,
        Some(value) => with_field(addon, field, strip(value, CharClass::Whitespace)),
    }
}

/// The addon after `document` was searched for `field`.
pub open spec fn searched(
    addon: AddonView,
    field: ExtractionField,
    document: Seq<char>,
) -> AddonView {
    stored(addon, field, field.found_in(document))
}

/// The addon after an info page with the given status and body: without a
/// success status, or with a page too long to be parsed, it is as before,
/// else the page was searched for the game version, the addon's version,
/// the time of the last update and the name.
pub open spec fn after_info_page(addon: AddonView, status: u16, page: Seq<char>) -> AddonView {
    match document_of(page) {
        Some(document) if is_success(status) => searched(
            searched(
                searched(
                    searched(addon, ExtractionField::GameVersion, document),
                    ExtractionField::AddonVersion,
                    document,
                ),
                ExtractionField::Updated,
                document,
            ),
            ExtractionField::Name,
            document,
        ),
        _ => addon,
    }
}

/// The addon after a download page with the given status and body: without
/// a success status, or with a page too long to be parsed, it is as
/// before, else the page was searched for the link to the archive.
pub open spec fn after_download_page(addon: AddonView, status: u16, page: Seq<char>) -> AddonView {
    match document_of(page) {
        Some(document) if is_success(status) => searched(
            addon,
            ExtractionField::DownloadLink,
            document,
        ),
        _ => addon,
    }
}

/// A downloaded archive that is ready to be extracted.
#[derive(Clone, Debug, PartialEq, Eq)]
pub struct Installation {
    /// The name of the temporary file that holds the archive.
    pub file_name: String,
    /// What to create in the target directory, in order.
    pub actions: Vec<FsAction>,
}

/// The mathematical value of an `Installation`.
pub struct InstallationView {
    pub file_name: Seq<char>,
    pub actions: Seq<FsActionView>,
}

impl View for Installation {
    type V = InstallationView;

    open spec fn view(&self) -> InstallationView {
        InstallationView { file_name: self.file_name@, actions: action_views(self.actions@) }
    }
}

/// What the response to the request for the archive comes to, given what
/// the container in its body holds: nothing for an addon without a
/// download address, a failure for a status that is no success or an
/// archive that cannot be extracted, else the file to keep the archive in
/// and the actions that extract it under `dest`.
pub open spec fn installation(
    addon: AddonView,
    dest: Seq<char>,
    status: u16,
    content_disposition: Option<Seq<char>>,
    directory: Option<Seq<Option<EntryView>>>,
) -> Result<Option<InstallationView>, FailureView> {
    if addon.dl_url.len() == 0 {
        Ok(None)
    } else if !is_success(status) {
        Err(FailureView::NonSuccessStatus { status })
    } else {
        match extraction_of(directory, dest) {
            Ok(actions) => Ok(
                Some(
                    InstallationView {
                        file_name: resolved_filename(content_disposition, addon.id),
                        actions,
                    },
                ),
            ),
            Err(error) => Err(FailureView::Extraction { error }),
        }
    }
}

/// The value of the outcome of `Addon::download_and_extract`.
pub open spec fn installation_view(outcome: Result<Option<Installation>, Failure>) -> Result<
    Option<InstallationView>,
    FailureView,
> {
    match outcome {
        Ok(Some(found)) => Ok(Some(found@)),
        Ok(None) => Ok(None),
        Err(failure) => Err(failure@),
    }
}

/// An info page with all four markers fills all four fields, each with
/// what its pattern captured, without the white space around it, and
/// nothing else changes.
pub proof fn lemma_complete_page_fills_all_fields(addon: AddonView, status: u16, page: Seq<char>)
    requires
        is_success(status),
        page.len() <= MAX_PAGE_LENGTH,
        ExtractionField::GameVersion.found_in(html_document(page)) is Some,
        ExtractionField::AddonVersion.found_in(html_document(page)) is Some,
        ExtractionField::Updated.found_in(html_document(page)) is Some,
        ExtractionField::Name.found_in(html_document(page)) is Some,
    ensures
        after_info_page(addon, status, page) == (AddonView {
            id: addon.id,
            name: strip(
                ExtractionField::Name.found_in(html_document(page))->0,
                CharClass::Whitespace,
            ),
            dl_url: addon.dl_url,
            addon_version: strip(
                ExtractionField::AddonVersion.found_in(html_document(page))->0,
                CharClass::Whitespace,
            ),
            game_version: strip(
                ExtractionField::GameVersion.found_in(html_document(page))->0,
                CharClass::Whitespace,
            ),
            updated: strip(
                ExtractionField::Updated.found_in(html_document(page))->0,
                CharClass::Whitespace,
            ),
        }),
{
}

/// What an info page does to each of its four fields, whichever of them
/// it shows: a field whose marker is found holds what was captured,
/// without the white space around it, and so the capture itself where
/// that has none; a field whose marker is missing is as before, which on a
/// fresh addon is empty.
pub proof fn lemma_info_page_fills_what_it_shows(
    addon: AddonView,
    status: u16,
    page: Seq<char>,
    field: ExtractionField,
)
    requires
        is_success(status),
        page.len() <= MAX_PAGE_LENGTH,
        field != ExtractionField::DownloadLink,
    ensures
        field_of(after_info_page(addon, status, page), field) == (match field.found_in(
            html_document(page),
        ) {
            Some(value) => strip(value, CharClass::Whitespace),
            None => field_of(addon, field),
        }),
        field.found_in(html_document(page)) is Some && is_bare(
            field.found_in(html_document(page))->0,
            CharClass::Whitespace,
        ) ==> field_of(after_info_page(addon, status, page), field) == field.found_in(
            html_document(page),
        )->0,
{
    if let Some(value) = field.found_in(html_document(page)) {
        if is_bare(value, CharClass::Whitespace) {
            lemma_strip_of_bare(value, CharClass::Whitespace);
        }
    }
}

/// What a download page does to the download address: a link that is
/// found is stored without the white space around it, and without one the
/// address is as before.
pub proof fn lemma_download_page_fills_what_it_shows(
    addon: AddonView,
    status: u16,
    page: Seq<char>,
)
    requires
        is_success(status),
        page.len() <= MAX_PAGE_LENGTH,
    ensures
        after_download_page(addon, status, page).dl_url == (
        match ExtractionField::DownloadLink.found_in(html_document(page)) {
            Some(value) => strip(value, CharClass::Whitespace),
            None => addon.dl_url,
        }),
{
}

/// A value that was found is stored without white space around it: the
/// field neither begins nor ends with white space, whatever was captured.
pub proof fn lemma_stored_value_is_trimmed(
    addon: AddonView,
    field: ExtractionField,
    value: Seq<char>,
)
    ensures
        field_of(stored(addon, field, Some(value)), field) == strip(value, CharClass::Whitespace),
        is_bare(field_of(stored(addon, field, Some(value)), field), CharClass::Whitespace),
{
    lemma_strip_is_bare(value, CharClass::Whitespace);
}

/// A marker that a page lacks leaves its field as it was; on a fresh addon
/// that is the empty string.
pub proof fn lemma_missing_marker_keeps_field(addon: AddonView, status: u16, page: Seq<char>)
    ensures
        ExtractionField::GameVersion.found_in(html_document(page)) is None ==> after_info_page(
            addon,
            status,
            page,
        ).game_version == addon.game_version,
        ExtractionField::AddonVersion.found_in(html_document(page)) is None ==> after_info_page(
            addon,
            status,
            page,
        ).addon_version == addon.addon_version,
        ExtractionField::Updated.found_in(html_document(page)) is None ==> after_info_page(
            addon,
            status,
            page,
        ).updated == addon.updated,
        ExtractionField::Name.found_in(html_document(page)) is None ==> after_info_page(
            addon,
            status,
            page,
        ).name == addon.name,
        ExtractionField::DownloadLink.found_in(html_document(page)) is None
            ==> after_download_page(addon, status, page).dl_url == addon.dl_url,
{
}

/// A page that comes without a success status changes nothing, and
/// neither does one that is too long to be parsed.
pub proof fn lemma_unsuccessful_page_changes_nothing(
    addon: AddonView,
    status: u16,
    page: Seq<char>,
)
    requires
        !is_success(status) || page.len() > MAX_PAGE_LENGTH,
    ensures
        after_info_page(addon, status, page) == addon,
        after_download_page(addon, status, page) == addon,
{
}

/// A page changes only its own fields: the info page leaves the id and the
/// download address alone, the download page everything but the address.
pub proof fn lemma_pages_keep_the_rest(addon: AddonView, status: u16, page: Seq<char>)
    ensures
        after_info_page(addon, status, page).id == addon.id,
        after_info_page(addon, status, page).dl_url == addon.dl_url,
        after_download_page(addon, status, page) == (AddonView {
            dl_url: after_download_page(addon, status, page).dl_url,
            ..addon
        }),
{
}

/// Searches for different fields do not disturb each other: their order
/// does not matter.
pub proof fn lemma_searches_commute(
    addon: AddonView,
    first: ExtractionField,
    first_found: Option<Seq<char>>,
    second: ExtractionField,
    second_found: Option<Seq<char>>,
)
    requires
        first != second,
    ensures
        stored(stored(addon, first, first_found), second, second_found) == stored(
            stored(addon, second, second_found),
            first,
            first_found,
        ),
{
}

/// The two pages fill different fields: it does not matter which of them
/// is taken in first.
pub proof fn lemma_pages_commute(
    addon: AddonView,
    info_status: u16,
    info_page: Seq<char>,
    download_status: u16,
    download_page: Seq<char>,
)
    ensures
        after_download_page(
            after_info_page(addon, info_status, info_page),
            download_status,
            download_page,
        ) == after_info_page(
            after_download_page(addon, download_status, download_page),
            info_status,
            info_page,
        ),
{
}

/// For an addon without a download address there is nothing to do,
/// whatever the response holds.
pub proof fn lemma_no_address_nothing_to_do(
    addon: AddonView,
    dest: Seq<char>,
    status: u16,
    content_disposition: Option<Seq<char>>,
    directory: Option<Seq<Option<EntryView>>>,
)
    requires
        addon.dl_url.len() == 0,
    ensures
        installation(addon, dest, status, content_disposition, directory) == Ok::<
            Option<InstallationView>,
            FailureView,
        >(None),
{
}

/// Tests whether an HTTP status code reports success.
pub fn status_is_success(status: u16) -> (r: bool)
    ensures
        r == is_success(status),
{
    200 <= status && status < 300
}

impl Addon {
    /// An addon of which only the id is known.
    pub fn new(addon_id: u16) -> (addon: Addon)
        ensures
            addon@ == (AddonView {
                id: addon_id,
                name: Seq::empty(),
                dl_url: Seq::empty(),
                addon_version: Seq::empty(),
                game_version: Seq::empty(),
                updated: Seq::empty(),
            }),
    {
        Addon {
            id: addon_id,
            name: String::new(),
            dl_url: String::new(),
            addon_version: String::new(),
            game_version: String::new(),
            updated: String::new(),
        }
    }

    /// The address of the addon's info page.
    pub fn info_url(&self) -> (url: String)
        ensures
            url@ == INFO_URL_PREFIX@ + decimal(self.id as nat),
    {
        let mut url = String::from_str(INFO_URL_PREFIX);
        append_decimal(&mut url, self.id);
        url
    }

    /// The address of the addon's download page.
    pub fn download_page_url(&self) -> (url: String)
        ensures
            url@ == DOWNLOAD_URL_PREFIX@ + decimal(self.id as nat),
    {
        let mut url = String::from_str(DOWNLOAD_URL_PREFIX);
        append_decimal(&mut url, self.id);
        url
    }

    /// Stores what a search for `field` found, without the white space
    /// around it. Without a value the addon stays as it is.
    pub fn store(&mut self, field: ExtractionField, found: Option<String>)
        ensures
            final(self)@ == stored(old(self)@, field, view_of(found)),
    {
        if let Some(found) = found {
            let value = trim(found.as_str());
            match field {
                ExtractionField::GameVersion => {
                    self.game_version = value;
                },
                ExtractionField::AddonVersion => {
                    self.addon_version = value;
                },
                ExtractionField::Updated => {
                    self.updated = value;
                },
                ExtractionField::Name => {
                    self.name = value;
                },
                ExtractionField::DownloadLink => {
                    self.dl_url = value;
                },
            }
        }
    }

    /// Searches `document` for `field` and stores what is found.
    pub fn search(&mut self, field: ExtractionField, document: &str)
        ensures
            final(self)@ == searched(old(self)@, field, document@),
    {
        let found = field.find(document);
        self.store(field, found);
    }

    /// Takes in the response to the request for the info page. Without a
    /// success status nothing changes; otherwise each of the four fields
    /// that the page shows is stored.
    pub fn parse_infopage(&mut self, status: u16, page_html: &str)
        ensures
            final(self)@ == after_info_page(old(self)@, status, page_html@),
    {
        if !status_is_success(status) {
            return ;
        }
        if let Some(document) = normalize(page_html) {
            self.search(ExtractionField::GameVersion, document.as_str());
            self.search(ExtractionField::AddonVersion, document.as_str());
            self.search(ExtractionField::Updated, document.as_str());
            self.search(ExtractionField::Name, document.as_str());
        }
    }

    /// Takes in the response to the request for the download page. Without
    /// a success status nothing changes; otherwise the link to the archive
    /// is stored, if the page shows one.
    pub fn parse_downloadpage(&mut self, status: u16, page_html: &str)
        ensures
            final(self)@ == after_download_page(old(self)@, status, page_html@),
    {
        if !status_is_success(status) {
            return ;
        }
        if let Some(document) = normalize(page_html) {
            self.search(ExtractionField::DownloadLink, document.as_str());
        }
    }

    /// Takes in the response to the request for the archive: its status,
    /// its `Content-Disposition` header if it has one, and its body. The
    /// result names the file to keep the archive in and lists what to
    /// create under `dest`. For an addon without a download address there
    /// is nothing to do, whatever the response.
    pub fn download_and_extract(
        &self,
        dest: &str,
        status: u16,
        content_disposition: Option<&str>,
        archive: &[u8],
    ) -> (outcome: Result<Option<Installation>, Failure>)
        ensures
            installation_view(outcome) == installation(
                self@,
                dest@,
                status,
                slice_view_of(content_disposition),
                zip_directory(archive@),
            ),
    {
        if self.dl_url.as_str().is_empty() {
            return Ok(None);
        }
        if !status_is_success(status) {
            return Err(Failure::NonSuccessStatus { status });
        }
        let file_name = resolve_filename(content_disposition, self.id);
        match extract_zip(archive, dest) {
            Ok(actions) => Ok(Some(Installation { file_name, actions })),
            Err(error) => Err(Failure::Extraction { error }),
        }
    }
}

} // verus!
