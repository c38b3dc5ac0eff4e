//! The run for one addon, as a state machine.
//!
//! The machine decides; a driver acts. The driver carries out each
//! `Request` (a fetch, a write) and reports what came of it as an `Event`,
//! which `Pipeline::advance` answers with the next request, until that is
//! `Request::Finish`. A failure ends the run for this addon only: the
//! driver goes on with the next one.
//!
//! The downloaded archive is kept in a temporary file named by the
//! machine. From the request to store it on, every way to the end names
//! that file for removal.
//!
//! A `Batch` hands out the runs of a whole configuration, one addon after
//! the other in the configured order.

use vstd::prelude::*;
use vstd::string::*;
use crate::addon::{
    after_download_page, after_info_page, installation, is_success, status_is_success, Addon,
    AddonView, DOWNLOAD_URL_PREFIX, INFO_URL_PREFIX,
};
use crate::config::{Config, ConfigView};
use crate::archive::{
    action_views, extract_zip, extraction_of, keeps_to, lemma_extraction_keeps_to_root,
    zip_directory, ExtractError, ExtractErrorView, FsAction, FsActionView,
};
use crate::decimal::decimal;
use crate::download::{resolve_filename, resolved_filename};
use crate::text::view_of;

verus! {

/// Why the run for an addon failed.
#[derive(Clone, Debug, PartialEq, Eq)]
pub enum Failure {
    /// The archive could not be fetched.
    Network,
    /// The request for the archive was answered with `status`, which is no
    /// success.
    NonSuccessStatus { status: u16 },
    /// The archive could not be extracted.
    Extraction { error: ExtractError },
    /// A file or directory at `path` could not be written.
    Filesystem { path: String },
    /// The driver reported something that the machine had not asked for.
    UnexpectedEvent,
}

/// The mathematical value of a `Failure`.
pub enum FailureView {
    Network,
    NonSuccessStatus { status: u16 },
    Extraction { error: ExtractErrorView },
    Filesystem { path: Seq<char> },
    UnexpectedEvent,
}

impl View for Failure {
    type V = FailureView;

    open spec fn view(&self) -> FailureView {
        match self {
            Failure::Network => FailureView::Network,
            Failure::NonSuccessStatus { status } => FailureView::NonSuccessStatus {
                status: *status,
            },
            Failure::Extraction { error } => FailureView::Extraction { error: error@ },
            Failure::Filesystem { path } => FailureView::Filesystem { path: path@ },
            Failure::UnexpectedEvent => FailureView::UnexpectedEvent,
        }
    }
}

/// How the run for an addon ended.
#[derive(Clone, Debug, PartialEq, Eq)]
pub enum Outcome {
    /// The archive was extracted into the target directory.
    Installed,
    /// The addon offers no download.
    NothingToDo,
    /// The run failed.
    Failed { failure: Failure },
}

/// The mathematical value of an `Outcome`.
pub enum OutcomeView {
    Installed,
    NothingToDo,
    Failed { failure: FailureView },
}

impl View for Outcome {
    type V = OutcomeView;

    open spec fn view(&self) -> OutcomeView {
        match self {
            Outcome::Installed => OutcomeView::Installed,
            Outcome::NothingToDo => OutcomeView::NothingToDo,
            Outcome::Failed { failure } => OutcomeView::Failed { failure: failure@ },
        }
    }
}

/// What the machine asks of its driver.
#[derive(Clone, Debug, PartialEq, Eq)]
pub enum Request {
    /// Get the page at `url`; report `Event::Page`, or
    /// `Event::NetworkFailed`.
    FetchPage { url: String },
    /// Ask for the archive at `url`; report `Event::Response` once the
    /// status and headers are there, or `Event::NetworkFailed`.
    Download { url: String },
    /// Write the body of the response to the file `file_name`, placed in
    /// the directory for temporary files by `download::temporary_path`,
    /// flush and close it; report `Event::Stored` with the bytes of that
    /// file, `Event::NetworkFailed`, or `Event::FilesystemFailed`, which is
    /// also the report where the name has no place in that directory.
    Store { file_name: String },
    /// Carry out `actions` in order; report `Event::Installed`, or
    /// `Event::FilesystemFailed` at the first that fails.
    Install { actions: Vec<FsAction> },
    /// The run is over. Remove the temporary file `remove`, if one is
    /// named and has a place in the directory for temporary files, and
    /// report the outcome.
    Finish { outcome: Outcome, remove: Option<String> },
}

/// The mathematical value of a `Request`.
pub enum RequestView {
    FetchPage { url: Seq<char> },
    Download { url: Seq<char> },
    Store { file_name: Seq<char> },
    Install { actions: Seq<FsActionView> },
    Finish { outcome: OutcomeView, remove: Option<Seq<char>> },
}

impl View for Request {
    type V = RequestView;

    open spec fn view(&self) -> RequestView {
        match self {
            Request::FetchPage { url } => RequestView::FetchPage { url: url@ },
            Request::Download { url } => RequestView::Download { url: url@ },
            Request::Store { file_name } => RequestView::Store { file_name: file_name@ },
            Request::Install { actions } => RequestView::Install {
                actions: action_views(actions@),
            },
            Request::Finish { outcome, remove } => RequestView::Finish {
                outcome: outcome@,
                remove: view_of(*remove),
            },
        }
    }
}

/// What the driver reports.
#[derive(Clone, Debug, PartialEq, Eq)]
pub enum Event {
    /// A page was fetched.
    Page { status: u16, body: String },
    /// The request for the archive was answered.
    Response { status: u16, content_disposition: Option<String> },
    /// The archive is in its temporary file, which holds `archive`.
    Stored { archive: Vec<u8> },
    /// All actions were carried out.
    Installed,
    /// A connection failed.
    NetworkFailed,
    /// Writing `path` failed.
    FilesystemFailed { path: String },
}

/// The mathematical value of an `Event`.
pub enum EventView {
    Page { status: u16, body: Seq<char> },
    Response { status: u16, content_disposition: Option<Seq<char>> },
    Stored { archive: Seq<u8> },
    Installed,
    NetworkFailed,
    FilesystemFailed { path: Seq<char> },
}

impl View for Event {
    type V = EventView;

    open spec fn view(&self) -> EventView {
        match self {
            Event::Page { status, body } => EventView::Page { status: *status, body: body@ },
            Event::Response { status, content_disposition } => EventView::Response {
                status: *status,
                content_disposition: view_of(*content_disposition),
            },
            Event::Stored { archive } => EventView::Stored { archive: archive@ },
            Event::Installed => EventView::Installed,
            Event::NetworkFailed => EventView::NetworkFailed,
            Event::FilesystemFailed { path } => EventView::FilesystemFailed { path: path@ },
        }
    }
}

/// Where a run stands: what the machine waits for.
#[derive(Clone, Debug, PartialEq, Eq)]
pub enum Stage {
    /// The info page.
    AwaitInfoPage,
    /// The download page.
    AwaitDownloadPage,
    /// The response to the request for the archive.
    AwaitResponse,
    /// The archive in its temporary file `file_name`.
    AwaitStored { file_name: String },
    /// The end of the extraction; the archive is in `file_name`.
    AwaitInstalled { file_name: String },
    /// Nothing: the run is over.
    Finished,
}

/// The mathematical value of a `Stage`.
pub enum StageView {
    AwaitInfoPage,
    AwaitDownloadPage,
    AwaitResponse,
    AwaitStored { file_name: Seq<char> },
    AwaitInstalled { file_name: Seq<char> },
    Finished,
}

impl View for Stage {
    type V = StageView;

    open spec fn view(&self) -> StageView {
        match self {
            Stage::AwaitInfoPage => StageView::AwaitInfoPage,
            Stage::AwaitDownloadPage => StageView::AwaitDownloadPage,
            Stage::AwaitResponse => StageView::AwaitResponse,
            Stage::AwaitStored { file_name } => StageView::AwaitStored { file_name: file_name@ },
            Stage::AwaitInstalled { file_name } => StageView::AwaitInstalled {
                file_name: file_name@,
            },
            Stage::Finished => StageView::Finished,
        }
    }
}

/// The run for one addon.
#[derive(Clone, Debug, PartialEq, Eq)]
pub struct Pipeline {
    /// What is known of the addon so far.
    pub addon: Addon,
    /// The directory that the archive is extracted into.
    pub target: String,
    /// What the machine waits for.
    pub stage: Stage,
}

/// The mathematical value of a `Pipeline`.
pub struct PipelineView {
    pub addon: AddonView,
    pub target: Seq<char>,
    pub stage: StageView,
}

impl View for Pipeline {
    type V = PipelineView;

    open spec fn view(&self) -> PipelineView {
        PipelineView { addon: self.addon@, target: self.target@, stage: self.stage@ }
    }
}

/// The temporary file that exists at a stage, if any.
pub open spec fn temporary_file(stage: StageView) -> Option<Seq<char>> {
    match stage {
        StageView::AwaitStored { file_name } => Some(file_name),
        StageView::AwaitInstalled { file_name } => Some(file_name),
        _ => None,
    }
}

/// The end of a run: the temporary file of the stage that is left is named
/// for removal.
pub open spec fn finish(run: PipelineView, outcome: OutcomeView) -> (PipelineView, RequestView) {
    (
        PipelineView { addon: run.addon, target: run.target, stage: StageView::Finished },
        RequestView::Finish { outcome, remove: temporary_file(run.stage) },
    )
}

/// The end of a run on a failure.
pub open spec fn fail(run: PipelineView, failure: FailureView) -> (PipelineView, RequestView) {
    finish(run, OutcomeView::Failed { failure })
}

/// The step after the info page: the download page is asked for.
pub open spec fn to_download_page(run: PipelineView, addon: AddonView) -> (
    PipelineView,
    RequestView,
) {
    (
        PipelineView { addon, target: run.target, stage: StageView::AwaitDownloadPage },
        RequestView::FetchPage { url: DOWNLOAD_URL_PREFIX@ + decimal(addon.id as nat) },
    )
}

/// The step after the download page: the archive is asked for, unless the
/// addon has no download address, which ends the run.
pub open spec fn to_archive(run: PipelineView, addon: AddonView) -> (PipelineView, RequestView) {
    if addon.dl_url.len() == 0 {
        (
            PipelineView { addon, target: run.target, stage: StageView::Finished },
            RequestView::Finish { outcome: OutcomeView::NothingToDo, remove: None },
        )
    } else {
        (
            PipelineView { addon, target: run.target, stage: StageView::AwaitResponse },
            RequestView::Download { url: addon.dl_url },
        )
    }
}

/// The run and the first request for addon `addon_id`.
pub open spec fn begin(addon_id: u16, target: Seq<char>) -> (PipelineView, RequestView) {
    (
        PipelineView {
            addon: AddonView {
                id: addon_id,
                name: Seq::empty(),
                dl_url: Seq::empty(),
                addon_version: Seq::empty(),
                game_version: Seq::empty(),
                updated: Seq::empty(),
            },
            target,
            stage: StageView::AwaitInfoPage,
        },
        RequestView::FetchPage { url: INFO_URL_PREFIX@ + decimal(addon_id as nat) },
    )
}

/// The run after `event`, and the next request.
///
/// A page that cannot be fetched, or comes without a success status,
/// leaves the addon as it was and the run goes on. A failure to fetch or
/// extract the archive ends the run, and so does an event that was not
/// asked for.
pub open spec fn step(run: PipelineView, event: EventView) -> (PipelineView, RequestView) {
    match run.stage {
        StageView::AwaitInfoPage => match event {
            EventView::Page { status, body } => to_download_page(
                run,
                after_info_page(run.addon, status, body),
            ),
            EventView::NetworkFailed => to_download_page(run, run.addon),
            _ => fail(run, FailureView::UnexpectedEvent),
        },
        StageView::AwaitDownloadPage => match event {
            EventView::Page { status, body } => to_archive(
                run,
                after_download_page(run.addon, status, body),
            ),
            EventView::NetworkFailed => to_archive(run, run.addon),
            _ => fail(run, FailureView::UnexpectedEvent),
        },
        StageView::AwaitResponse => match event {
            EventView::Response { status, content_disposition } => if is_success(status) {
                let file_name = resolved_filename(content_disposition, run.addon.id);
                (
                    PipelineView {
                        addon: run.addon,
                        target: run.target,
                        stage: StageView::AwaitStored { file_name },
                    },
                    RequestView::Store { file_name },
                )
            } else {
                fail(run, FailureView::NonSuccessStatus { status })
            },
            EventView::NetworkFailed => fail(run, FailureView::Network),
            _ => fail(run, FailureView::UnexpectedEvent),
        },
        StageView::AwaitStored { file_name } => match event {
            EventView::Stored { archive } => match extraction_of(
                zip_directory(archive),
                run.target,
            ) {
                Ok(actions) => (
                    PipelineView {
                        addon: run.addon,
                        target: run.target,
                        stage: StageView::AwaitInstalled { file_name },
                    },
                    RequestView::Install { actions },
                ),
                Err(error) => fail(run, FailureView::Extraction { error }),
            },
            EventView::NetworkFailed => fail(run, FailureView::Network),
            EventView::FilesystemFailed { path } => fail(run, FailureView::Filesystem { path }),
            _ => fail(run, FailureView::UnexpectedEvent),
        },
        StageView::AwaitInstalled { file_name } => match event {
            EventView::Installed => finish(run, OutcomeView::Installed),
            EventView::FilesystemFailed { path } => fail(run, FailureView::Filesystem { path }),
            _ => fail(run, FailureView::UnexpectedEvent),
        },
        StageView::Finished => fail(run, FailureView::UnexpectedEvent),
    }
}

/// The archive is asked for only at an address: for an addon whose
/// download address is empty after the download page, the run ends with
/// nothing to do and no request is made.
pub proof fn lemma_no_address_no_download(run: PipelineView, event: EventView)
    ensures
        step(run, event).1 matches RequestView::Download { url } ==> url.len() > 0 && url == step(
            run,
            event,
        ).0.addon.dl_url,
        run.stage is AwaitDownloadPage && (event is Page || event is NetworkFailed) && step(
            run,
            event,
        ).0.addon.dl_url.len() == 0 ==> step(run, event).1 == (RequestView::Finish {
            outcome: OutcomeView::NothingToDo,
            remove: None,
        }),
{
}

/// A page never ends the run: whether it was fetched or not, and whatever
/// its status, the next page or the archive is asked for, or there is
/// nothing to do.
pub proof fn lemma_pages_never_fail(run: PipelineView, event: EventView)
    requires
        run.stage is AwaitInfoPage || run.stage is AwaitDownloadPage,
        event is Page || event is NetworkFailed,
    ensures
        !(step(run, event).1 matches RequestView::Finish { outcome, .. } && outcome is Failed),
        event is NetworkFailed ==> step(run, event).0.addon == run.addon,
{
}

/// The temporary file is kept until the run ends, and the end names it for
/// removal: a request that does not finish the run leaves the file of the
/// stage in place, and one that does names exactly that file.
pub proof fn lemma_temporary_file_is_removed(run: PipelineView, event: EventView)
    ensures
        match step(run, event).1 {
            RequestView::Finish { remove, .. } => remove == temporary_file(run.stage) && step(
                run,
                event,
            ).0.stage is Finished,
            RequestView::Store { file_name } => temporary_file(run.stage) is None
                && temporary_file(step(run, event).0.stage) == Some(file_name),
            _ => temporary_file(step(run, event).0.stage) == temporary_file(run.stage),
        },
{
}

/// The machine comes to what `Addon::download_and_extract` comes to: from
/// the response to the request for the archive and the archive as stored,
/// it asks for the same file and the same actions, or fails alike.
pub proof fn lemma_run_agrees_with_installation(
    run: PipelineView,
    status: u16,
    content_disposition: Option<Seq<char>>,
    archive: Seq<u8>,
)
    requires
        run.stage is AwaitResponse,
        run.addon.dl_url.len() > 0,
    ensures
        ({
            let first = step(run, EventView::Response { status, content_disposition });
            let second = step(first.0, EventView::Stored { archive });
            match installation(
                run.addon,
                run.target,
                status,
                content_disposition,
                zip_directory(archive),
            ) {
                Ok(Some(found)) => {
                    &&& first.1 == RequestView::Store { file_name: found.file_name }
                    &&& second.1 == RequestView::Install { actions: found.actions }
                },
                Ok(None) => false,
                Err(failure) => if is_success(status) {
                    &&& first.1 is Store
                    &&& second.1 == RequestView::Finish {
                        outcome: OutcomeView::Failed { failure },
                        remove: Some(first.1->Store_file_name),
                    }
                } else {
                    first.1 == RequestView::Finish {
                        outcome: OutcomeView::Failed { failure },
                        remove: None,
                    }
                },
            }
        }),
{
}

/// An upper bound on the events that a run at `stage` still takes in
/// before it is over.
pub open spec fn events_left(stage: StageView) -> nat {
    match stage {
        StageView::AwaitInfoPage => 5,
        StageView::AwaitDownloadPage => 4,
        StageView::AwaitResponse => 3,
        StageView::AwaitStored { .. } => 2,
        StageView::AwaitInstalled { .. } => 1,
        StageView::Finished => 0,
    }
}

/// Every event brings a run nearer to its end: a run is over after five
/// events at most, whatever they are.
pub proof fn lemma_step_makes_progress(run: PipelineView, event: EventView)
    requires
        !(run.stage is Finished),
    ensures
        events_left(step(run, event).0.stage) < events_left(run.stage),
        events_left(step(run, event).0.stage) == 0 <==> step(run, event).1 is Finish,
{
}

/// Whatever is reported to a run that is over, the run stays over.
pub proof fn lemma_finished_stays_finished(run: PipelineView, event: EventView)
    requires
        run.stage is Finished,
    ensures
        step(run, event).0 == run,
        step(run, event).1 is Finish,
{
}

/// The addon's id and the target directory never change.
pub proof fn lemma_step_keeps_identity(run: PipelineView, event: EventView)
    ensures
        step(run, event).0.addon.id == run.addon.id,
        step(run, event).0.target == run.target,
{
}

/// Every action that the machine asks for keeps to the target directory.
pub proof fn lemma_install_keeps_to_target(run: PipelineView, event: EventView)
    ensures
        step(run, event).1 matches RequestView::Install { actions } ==> forall|i: int|
            0 <= i < actions.len() ==> keeps_to(#[trigger] actions[i], run.target),
{
    if let RequestView::Install { actions } = step(run, event).1 {
        let directory = zip_directory(event->Stored_archive);
        lemma_extraction_keeps_to_root(directory->0, run.target);
    }
}

impl Pipeline {
    /// Begins the run for addon `addon_id` with the request for its info
    /// page.
    pub fn new(addon_id: u16, target: String) -> (r: (Pipeline, Request))
        ensures
            (r.0@, r.1@) == begin(addon_id, target@),
    {
        let addon = Addon::new(addon_id);
        let url = addon.info_url();
        (Pipeline { addon, target, stage: Stage::AwaitInfoPage }, Request::FetchPage { url })
    }

    /// Ends the run.
    fn finish(self, outcome: Outcome) -> (r: (Pipeline, Request))
        ensures
            (r.0@, r.1@) == finish(self@, outcome@),
    {
        let remove = match self.stage {
            Stage::AwaitStored { file_name } => Some(file_name),
            Stage::AwaitInstalled { file_name } => Some(file_name),
            _ => None,
        };
        (
            Pipeline { addon: self.addon, target: self.target, stage: Stage::Finished },
            Request::Finish { outcome, remove },
        )
    }

    /// Ends the run on a failure.
    fn fail(self, failure: Failure) -> (r: (Pipeline, Request))
        ensures
            (r.0@, r.1@) == fail(self@, failure@),
    {
        self.finish(Outcome::Failed { failure })
    }

    /// Goes on to the download page.
    fn to_download_page(self) -> (r: (Pipeline, Request))
        ensures
            (r.0@, r.1@) == to_download_page(self@, self@.addon),
    {
        let url = self.addon.download_page_url();
        (
            Pipeline { addon: self.addon, target: self.target, stage: Stage::AwaitDownloadPage },
            Request::FetchPage { url },
        )
    }

    /// Goes on to the archive, if the addon has one.
    fn to_archive(self) -> (r: (Pipeline, Request))
        ensures
            (r.0@, r.1@) == to_archive(self@, self@.addon),
    {
        if self.addon.dl_url.as_str().is_empty() {
            (
                Pipeline { addon: self.addon, target: self.target, stage: Stage::Finished },
                Request::Finish { outcome: Outcome::NothingToDo, remove: None },
            )
        } else {
            let url = self.addon.dl_url.clone();
            (
                Pipeline { addon: self.addon, target: self.target, stage: Stage::AwaitResponse },
                Request::Download { url },
            )
        }
    }

    /// Goes on to the extraction; the archive is in its temporary file.
    fn to_install(self, actions: Vec<FsAction>) -> (r: (Pipeline, Request))
        requires
            self@.stage is AwaitStored,
        ensures
            r.0@ == (PipelineView {
                addon: self@.addon,
                target: self@.target,
                stage: StageView::AwaitInstalled { file_name: self@.stage->AwaitStored_file_name },
            }),
            r.1@ == (RequestView::Install { actions: action_views(actions@) }),
    {
        match self.stage {
            Stage::AwaitStored { file_name } => (
                Pipeline {
                    addon: self.addon,
                    target: self.target,
                    stage: Stage::AwaitInstalled { file_name },
                },
                Request::Install { actions },
            ),
            _ => (self, Request::Install { actions }),
        }
    }

    /// Takes in what the driver reports and says what to do next.
    pub fn advance(self, event: Event) -> (r: (Pipeline, Request))
        ensures
            (r.0@, r.1@) == step(self@, event@),
    {
        let mut run = self;
        match run.stage {
            Stage::AwaitInfoPage => match event {
                Event::Page { status, body } => {
                    run.addon.parse_infopage(status, body.as_str());
                    run.to_download_page()
                },
                Event::NetworkFailed => run.to_download_page(),
                _ => run.fail(Failure::UnexpectedEvent),
            },
            Stage::AwaitDownloadPage => match event {
                Event::Page { status, body } => {
                    run.addon.parse_downloadpage(status, body.as_str());
                    run.to_archive()
                },
                Event::NetworkFailed => run.to_archive(),
                _ => run.fail(Failure::UnexpectedEvent),
            },
            Stage::AwaitResponse => match event {
                Event::Response { status, content_disposition } => {
                    if status_is_success(status) {
                        let file_name = match &content_disposition {
                            Some(text) => resolve_filename(Some(text.as_str()), run.addon.id),
                            None => resolve_filename(None, run.addon.id),
                        };
                        let stored = file_name.clone();
                        (
                            Pipeline {
                                addon: run.addon,
                                target: run.target,
                                stage: Stage::AwaitStored { file_name: stored },
                            },
                            Request::Store { file_name },
                        )
                    } else {
                        run.fail(Failure::NonSuccessStatus { status })
                    }
                },
                Event::NetworkFailed => run.fail(Failure::Network),
                _ => run.fail(Failure::UnexpectedEvent),
            },
            Stage::AwaitStored { .. } => match event {
                Event::Stored { archive } => {
                    match extract_zip(archive.as_slice(), run.target.as_str()) {
                        Ok(actions) => run.to_install(actions),
                        Err(error) => run.fail(Failure::Extraction { error }),
                    }
                },
                Event::NetworkFailed => run.fail(Failure::Network),
                Event::FilesystemFailed { path } => run.fail(Failure::Filesystem { path }),
                _ => run.fail(Failure::UnexpectedEvent),
            },
            Stage::AwaitInstalled { .. } => match event {
                Event::Installed => run.finish(Outcome::Installed),
                Event::FilesystemFailed { path } => run.fail(Failure::Filesystem { path }),
                _ => run.fail(Failure::UnexpectedEvent),
            },
            Stage::Finished => run.fail(Failure::UnexpectedEvent),
        }
    }
}

/// The runs of a configuration: its addons take their turns in the
/// configured order, and how one run ends has no bearing on the next.
#[derive(Clone, Debug, PartialEq, Eq)]
pub struct Batch {
    /// The target directory and the addons.
    pub config: Config,
    /// How many runs were begun.
    pub begun: usize,
}

/// The mathematical value of a `Batch`.
pub struct BatchView {
    pub config: ConfigView,
    pub begun: nat,
}

impl View for Batch {
    type V = BatchView;

    open spec fn view(&self) -> BatchView {
        BatchView { config: self.config@, begun: self.begun as nat }
    }
}

impl Batch {
    /// A batch of which no run was begun.
    pub fn new(config: Config) -> (batch: Batch)
        ensures
            batch@ == (BatchView { config: config@, begun: 0 }),
    {
        Batch { config, begun: 0 }
    }

    /// Begins the run of the next addon, if one is left.
    pub fn next_run(&mut self) -> (r: Option<(Pipeline, Request)>)
        ensures
            final(self)@.config == old(self)@.config,
            match r {
                Some((run, request)) => {
                    &&& old(self)@.begun < old(self)@.config.addon_ids.len()
                    &&& final(self)@.begun == old(self)@.begun + 1
                    &&& (run@, request@) == begin(
                        old(self)@.config.addon_ids[old(self)@.begun as int],
                        old(self)@.config.target_directory,
                    )
                },
                None => {
                    &&& old(self)@.begun >= old(self)@.config.addon_ids.len()
                    &&& final(self)@.begun == old(self)@.begun
                },
            },
    {
        if self.begun < self.config.addon_ids.len() {
            let addon_id = self.config.addon_ids[self.begun];
            self.begun = self.begun + 1;
            Some(Pipeline::new(addon_id, self.config.target_directory.clone()))
        } else {
            None
        }
    }
}

} // verus!
