use crate::cmd::syntax::{carries_ignore, classify_spec, strip_ignore, target_spec, Lexico};
use crate::configs::providers::{
    resolve_spec, select_spec, wikipedia_spec, Provider, ProviderResolution, Providers,
    ResolutionView,
};
use crate::error::ErrorKind;
use crate::text::{
    chars_of, has_suffix, parse_u64, string_of, string_view, text_view, to_u64, trim, trimmed,
};
use crate::utils::url::in_domain;
use crate::utils::download_misc::{is_document, DownloadMisc};
use crate::utils::file::{joined_path, FileMisc};
use crate::utils::validation::{is_success, Validate};
use vstd::prelude::*;

verus! {

/// Whether the crate `is_url` takes a text for a URL.
pub uninterp spec fn is_url_text(text: Seq<char>) -> bool;

/// Asks `is_url::is_url` whether `text` holds a URL. The answer depends on
/// the text alone, and is what `is_url_text` names.
#[verifier::external_body]
pub(crate) fn looks_like_url(text: &str) -> (b: bool)
    ensures
        b == is_url_text(text@),
{
    ::is_url::is_url(text)
}

/// How a download ended.
#[derive(Clone, Debug, PartialEq, Eq)]
pub enum DownloadOutcome {
    /// The file was stored under this name.
    Success(String),
    /// The URL names no document: nothing was fetched.
    Skipped,
    /// The download failed.
    Failed(ErrorKind),
}

pub enum OutcomeView {
    Success(Seq<char>),
    Skipped,
    Failed(ErrorKind),
}

impl View for DownloadOutcome {
    type V = OutcomeView;

    open spec fn view(&self) -> OutcomeView {
        match *self {
            DownloadOutcome::Success(name) => OutcomeView::Success(name@),
            DownloadOutcome::Skipped => OutcomeView::Skipped,
            DownloadOutcome::Failed(kind) => OutcomeView::Failed(kind),
        }
    }
}

/// Where a download stands: what it waits for.
#[derive(Clone, Debug, PartialEq, Eq)]
pub enum Stage {
    /// For the content type of a URL that no provider vouches for.
    Gate,
    /// For the status of the probe that shows the URL to be reachable.
    Probe,
    /// For what the provider has to look up: the mirror's page, or the
    /// `Content-Disposition` header of any other site.
    Lookup,
    /// For the body to be fetched and stored.
    Fetch(ProviderResolution),
    /// For nothing: the download has ended.
    Done(DownloadOutcome),
}

pub enum StageView {
    Gate,
    Probe,
    Lookup,
    Fetch(ResolutionView),
    Done(OutcomeView),
}

impl View for Stage {
    type V = StageView;

    open spec fn view(&self) -> StageView {
        match *self {
            Stage::Gate => StageView::Gate,
            Stage::Probe => StageView::Probe,
            Stage::Lookup => StageView::Lookup,
            Stage::Fetch(r) => StageView::Fetch(r@),
            Stage::Done(o) => StageView::Done(o@),
        }
    }
}

/// What the outside world answered.
#[derive(Clone, Debug, PartialEq, Eq)]
pub enum Event {
    /// The content type that a probe of the URL reported, if any.
    ContentType(Option<String>),
    /// The HTTP status that a probe of the URL came back with.
    Status(u16),
    /// What the provider's lookup brought, if anything.
    Lookup(Option<String>),
    /// The body was fetched and stored.
    Stored,
    /// The work failed.
    Failed(ErrorKind),
}

pub enum EventView {
    ContentType(Option<Seq<char>>),
    Status(u16),
    Lookup(Option<Seq<char>>),
    Stored,
    Failed(ErrorKind),
}

impl View for Event {
    type V = EventView;

    open spec fn view(&self) -> EventView {
        match *self {
            Event::ContentType(t) => EventView::ContentType(string_view(t)),
            Event::Status(s) => EventView::Status(s),
            Event::Lookup(t) => EventView::Lookup(string_view(t)),
            Event::Stored => EventView::Stored,
            Event::Failed(kind) => EventView::Failed(kind),
        }
    }
}

/// What is to be done next for a download.
#[derive(Clone, Copy, Debug, PartialEq, Eq, Structural)]
pub enum Command {
    /// Probe the URL and report its content type.
    ProbeDocument,
    /// Probe the URL and report its HTTP status.
    ProbeStatus,
    /// The mirror's lookup: fetch the page behind the URL and report its
    /// text.
    FetchPage,
    /// The lookup of any other site: probe the URL and report its
    /// `Content-Disposition` header, if it has one.
    ProbeHeaders,
    /// Fetch the body and store it.
    Fetch,
    /// Nothing: report the outcome.
    Finish,
}

/// One download: its URL, the directory it goes to, and where it stands.
#[derive(Clone, Debug, PartialEq, Eq)]
pub struct Job {
    pub url: String,
    pub path: String,
    pub stage: Stage,
}

pub struct JobView {
    pub url: Seq<char>,
    pub path: Seq<char>,
    pub stage: StageView,
}

impl View for Job {
    type V = JobView;

    open spec fn view(&self) -> JobView {
        JobView { url: self.url@, path: self.path@, stage: self.stage@ }
    }
}

/// The view of an optional job.
pub open spec fn job_view(job: Option<Job>) -> Option<JobView> {
    match job {
        Some(j) => Some(j@),
        None => None,
    }
}

/// A download at its start. A URL of the encyclopedia or of the mirror is
/// worth fetching as it is; any other has to show first that it names a
/// document.
pub open spec fn start_spec(url: Seq<char>, path: Seq<char>) -> JobView {
    JobView {
        url,
        path,
        stage: if select_spec(url) == Provider::Generic {
            StageView::Gate
        } else {
            StageView::Probe
        },
    }
}

/// The download that one line asks for, if it asks for one. The line as it
/// stands, white space at its ends aside, has to be taken for a URL: one that
/// is not is passed over, whatever else it holds. Of a line that is, the
/// text that goes on is downloaded, if any goes on.
pub open spec fn download_file_spec(
    line: Seq<char>,
    path: Seq<char>,
    no_ignore: bool,
    no_comments: bool,
) -> Option<JobView> {
    if !is_url_text(trim(line)) {
        None
    } else {
        match target_spec(line, no_ignore, no_comments) {
            Some(target) => Some(start_spec(target, path)),
            None => None,
        }
    }
}

/// The stage that follows `stage` on `event`, for a download of `url`. A
/// download that has ended stays as it is. A failure of the outside work ends
/// it: as a `Validation` failure where the probe for the status failed, since
/// the URL then cannot be reached, and as the failure it is anywhere else. An
/// answer that the stage did not ask for changes nothing.
pub open spec fn next_stage(url: Seq<char>, stage: StageView, event: EventView) -> StageView {
    match stage {
        StageView::Done(outcome) => stage,
        _ => match event {
            EventView::Failed(kind) => StageView::Done(
                OutcomeView::Failed(
                    if stage is Probe {
                        ErrorKind::Validation
                    } else {
                        kind
                    },
                ),
            ),
            EventView::ContentType(t) => if stage is Gate {
                if is_document(t) {
                    StageView::Probe
                } else {
                    StageView::Done(OutcomeView::Skipped)
                }
            } else {
                stage
            },
            EventView::Status(status) => if stage is Probe {
                if !is_success(status) {
                    StageView::Done(OutcomeView::Failed(ErrorKind::Validation))
                } else if select_spec(url) == Provider::Wiki {
                    StageView::Fetch(wikipedia_spec(url))
                } else {
                    StageView::Lookup
                }
            } else {
                stage
            },
            EventView::Lookup(answer) => if stage is Lookup {
                match resolve_spec(url, answer) {
                    Some(r) => StageView::Fetch(r),
                    None => StageView::Done(OutcomeView::Failed(ErrorKind::Resolution)),
                }
            } else {
                stage
            },
            EventView::Stored => match stage {
                StageView::Fetch(r) => StageView::Done(OutcomeView::Success(r.filename)),
                _ => stage,
            },
        },
    }
}

/// The download that follows `job` on `event`.
pub open spec fn advance_spec(job: JobView, event: EventView) -> JobView {
    JobView { url: job.url, path: job.path, stage: next_stage(job.url, job.stage, event) }
}

/// What a download of `url` asks for at a stage. What the lookup is depends
/// on the provider of the URL.
pub open spec fn command_spec(url: Seq<char>, stage: StageView) -> Command {
    match stage {
        StageView::Gate => Command::ProbeDocument,
        StageView::Probe => Command::ProbeStatus,
        StageView::Lookup => if select_spec(url) == Provider::Mirror {
            Command::FetchPage
        } else {
            Command::ProbeHeaders
        },
        StageView::Fetch(_) => Command::Fetch,
        StageView::Done(_) => Command::Finish,
    }
}

/// The download as it stands after a run of events.
pub open spec fn run_spec(job: JobView, events: Seq<EventView>) -> JobView
    decreases events.len(),
{
    if events.len() == 0 {
        job
    } else {
        run_spec(advance_spec(job, events[0]), events.skip(1))
    }
}

impl Job {
    /// What is to be done next for this download.
    pub fn command(&self) -> (c: Command)
        ensures
            c == command_spec(self@.url, self@.stage),
    {
        match &self.stage {
            Stage::Gate => Command::ProbeDocument,
            Stage::Probe => Command::ProbeStatus,
            Stage::Lookup => match Providers::select(self.url.as_str()) {
                Provider::Mirror => Command::FetchPage,
                _ => Command::ProbeHeaders,
            },
            Stage::Fetch(_) => Command::Fetch,
            Stage::Done(_) => Command::Finish,
        }
    }

    /// The download that follows this one on `event`.
    pub fn advance(self, event: Event) -> (next: Job)
        ensures
            next@ == advance_spec(self@, event@),
    {
        let Job { url, path, stage } = self;
        let stage = match stage {
            Stage::Done(outcome) => Stage::Done(outcome),
            Stage::Gate => match event {
                Event::Failed(kind) => Stage::Done(DownloadOutcome::Failed(kind)),
                Event::ContentType(t) => {
                    let document = match &t {
                        Some(s) => DownloadMisc::is_pdf_file(Some(s.as_str())),
                        None => DownloadMisc::is_pdf_file(None),
                    };
                    if document {
                        Stage::Probe
                    } else {
                        Stage::Done(DownloadOutcome::Skipped)
                    }
                },
                _ => Stage::Gate,
            },
            Stage::Probe => match event {
                Event::Failed(_) => Stage::Done(DownloadOutcome::Failed(ErrorKind::Validation)),
                Event::Status(status) => match Validate::check_url_status(status) {
                    Err(kind) => Stage::Done(DownloadOutcome::Failed(kind)),
                    Ok(_) => match Providers::select(url.as_str()) {
                        Provider::Wiki => Stage::Fetch(Providers::wikipedia(url.as_str())),
                        _ => Stage::Lookup,
                    },
                },
                _ => Stage::Probe,
            },
            Stage::Lookup => match event {
                Event::Failed(kind) => Stage::Done(DownloadOutcome::Failed(kind)),
                Event::Lookup(answer) => {
                    let resolved = match &answer {
                        Some(s) => Providers::resolve(url.as_str(), Some(s.as_str())),
                        None => Providers::resolve(url.as_str(), None),
                    };
                    match resolved {
                        Ok(r) => Stage::Fetch(r),
                        Err(kind) => Stage::Done(DownloadOutcome::Failed(kind)),
                    }
                },
                _ => Stage::Lookup,
            },
            Stage::Fetch(r) => match event {
                Event::Failed(kind) => Stage::Done(DownloadOutcome::Failed(kind)),
                Event::Stored => Stage::Done(DownloadOutcome::Success(r.filename)),
                _ => Stage::Fetch(r),
            },
        };
        Job { url, path, stage }
    }

    /// Where the body is to be stored, once the download knows its file name.
    pub fn output_path(&self) -> (out: Option<String>)
        ensures
            match self@.stage {
                StageView::Fetch(r) => string_view(out) == Some(joined_path(self@.path, r.filename)),
                _ => out is None,
            },
    {
        match &self.stage {
            Stage::Fetch(r) => Some(
                FileMisc::get_output_path(self.path.as_str(), r.filename.as_str()),
            ),
            _ => None,
        }
    }

    /// Whether the file about to be stored lacks the extension `.pdf` that a
    /// document is expected to have. This is for the caller to report: the
    /// download goes on all the same.
    pub fn unexpected_extension(&self) -> (b: bool)
        ensures
            b == match self@.stage {
                StageView::Fetch(r) => !has_suffix(r.filename, ".pdf"@),
                _ => false,
            },
    {
        match &self.stage {
            Stage::Fetch(r) => Validate::validate_file_type(r.filename.as_str(), ".pdf").is_err(),
            _ => false,
        }
    }
}

/// The download engine.
pub struct Download;

impl Download {
    /// Sets up the download of `url` into the directory `path`.
    pub fn make_download(url: &str, path: &str) -> (job: Job)
        ensures
            job@ == start_spec(url@, path@),
    {
        let stage = match Providers::select(url) {
            Provider::Generic => Stage::Gate,
            _ => Stage::Probe,
        };
        Job { url: url.to_owned(), path: path.to_owned(), stage }
    }

    /// Sets up the download that `line` asks for, into the directory `path`,
    /// where the line as it stands was taken for a URL (`recognised`) and has
    /// a text that goes on; makes none otherwise.
    pub fn accept(
        line: &str,
        path: &str,
        no_ignore: bool,
        no_comments: bool,
        recognised: bool,
    ) -> (job: Option<Job>)
        ensures
            job_view(job) == if recognised {
                match target_spec(line@, no_ignore, no_comments) {
                    Some(target) => Some(start_spec(target, path@)),
                    None => None,
                }
            } else {
                None
            },
    {
        if !recognised {
            return None;
        }
        match Lexico::target(line, no_ignore, no_comments) {
            Some(target) => Some(Download::make_download(target.as_str(), path)),
            None => None,
        }
    }

    /// Sets up the download that one line asks for, into the directory
    /// `path`, if it asks for one: the line as it stands is taken for a URL,
    /// and has a text that goes on.
    pub fn download_file(url: &str, path: &str, no_ignore: bool, no_comments: bool) -> (job:
        Option<Job>)
        ensures
            job_view(job) == download_file_spec(url@, path@, no_ignore, no_comments),
    {
        let line = string_of(&trimmed(&chars_of(url)));
        let recognised = looks_like_url(line.as_str());
        Download::accept(url, path, no_ignore, no_comments, recognised)
    }
}

/// The number of bytes that are read and stored at a time: 8 KiB.
pub const CHUNK_SIZE: usize = 8192;

/// The size that a progress indicator is made for: what the `Content-Length`
/// header writes, or 0 where the header is missing or writes no number.
pub open spec fn total_size_spec(header: Option<Seq<char>>) -> u64 {
    match header {
        Some(h) => match parse_u64(h) {
            Some(n) => n,
            None => 0,
        },
        None => 0,
    }
}

/// The storing of one body as it streams in, piece by piece, with the
/// progress that is shown for it. It holds counts only, never the body.
#[derive(Clone, Debug, PartialEq, Eq)]
pub struct Transfer {
    total: u64,
    written: u64,
    reported: u64,
    finished: bool,
}

/// What a `Transfer` holds.
pub struct TransferView {
    /// The size that the progress indicator was made for.
    pub total: u64,
    /// How many bytes were handed on for storing.
    pub written: nat,
    /// How many bytes the progress indicator was advanced by.
    pub reported: nat,
    /// Whether the progress indicator was told that the transfer is done.
    pub finished: bool,
}

impl View for Transfer {
    type V = TransferView;

    closed spec fn view(&self) -> TransferView {
        TransferView {
            total: self.total,
            written: self.written as nat,
            reported: self.reported as nat,
            finished: self.finished,
        }
    }
}

/// How many bytes a transfer asks the body for at a time: `CHUNK_SIZE`, and
/// less only where the count of bytes would leave `u64`.
pub open spec fn room(t: TransferView) -> nat {
    if u64::MAX - t.written < CHUNK_SIZE {
        (u64::MAX - t.written) as nat
    } else {
        CHUNK_SIZE as nat
    }
}

/// A transfer after a read that brought `read` bytes, and how many bytes are
/// to be stored for it. A read that brought bytes has them all stored and the
/// progress advanced by as many. A read that brought none ends the transfer.
/// A transfer that has ended stays as it is.
pub open spec fn record_spec(t: TransferView, read: nat) -> (TransferView, Option<nat>) {
    if t.finished {
        (t, None)
    } else if read == 0 {
        (
            TransferView {
                total: t.total,
                written: t.written,
                reported: t.reported,
                finished: true,
            },
            None,
        )
    } else {
        (
            TransferView {
                total: t.total,
                written: t.written + read,
                reported: t.reported + read,
                finished: false,
            },
            Some(read),
        )
    }
}

/// A transfer after a run of reads.
pub open spec fn after_reads(t: TransferView, reads: Seq<nat>) -> TransferView
    decreases reads.len(),
{
    if reads.len() == 0 {
        t
    } else {
        after_reads(record_spec(t, reads[0]).0, reads.skip(1))
    }
}

/// The bytes that a run of reads brought.
pub open spec fn bytes_read(reads: Seq<nat>) -> nat
    decreases reads.len(),
{
    if reads.len() == 0 {
        0
    } else {
        reads[0] + bytes_read(reads.skip(1))
    }
}

/// The view of an optional count.
pub open spec fn count_view(n: Option<usize>) -> Option<nat> {
    match n {
        Some(k) => Some(k as nat),
        None => None,
    }
}

impl Transfer {
    /// A transfer in order: the progress shown is what was handed on for
    /// storing.
    pub closed spec fn wf(&self) -> bool {
        self.reported == self.written
    }

    /// The size that the progress indicator is to be made for.
    pub fn total(&self) -> (n: u64)
        ensures
            n == self@.total,
    {
        self.total
    }

    /// How many bytes the progress indicator was advanced by so far.
    pub fn reported(&self) -> (n: u64)
        ensures
            n == self@.reported,
    {
        self.reported
    }

    /// How many bytes were handed on for storing so far.
    pub fn written(&self) -> (n: u64)
        ensures
            n == self@.written,
    {
        self.written
    }

    /// Whether the transfer is done.
    pub fn is_finished(&self) -> (b: bool)
        ensures
            b == self@.finished,
    {
        self.finished
    }

    /// How many bytes to ask the body for next, at most.
    pub fn next_read(&self) -> (n: usize)
        ensures
            n == room(self@),
    {
        let left: u64 = u64::MAX - self.written;
        if left < CHUNK_SIZE as u64 {
            left as usize
        } else {
            CHUNK_SIZE
        }
    }

    /// Takes note of a read that brought `read` bytes, and says how many
    /// bytes are to be stored and the progress indicator advanced by: all of
    /// them. A read that brought nothing marks the transfer as done.
    pub fn record(&mut self, read: usize) -> (store: Option<usize>)
        requires
            old(self).wf(),
            read <= room(old(self)@),
        ensures
            final(self).wf(),
            (final(self)@, count_view(store)) == record_spec(old(self)@, read as nat),
    {
        if self.finished {
            None
        } else if read == 0 {
            self.finished = true;
            None
        } else {
            self.written = self.written + read as u64;
            self.reported = self.written;
            Some(read)
        }
    }
}

impl Download {
    /// The size that a progress indicator is to be made for, from the
    /// `Content-Length` header of the response, if it has one.
    pub fn total_size(content_length: Option<&str>) -> (n: u64)
        ensures
            n == total_size_spec(text_view(content_length)),
    {
        match content_length {
            Some(h) => match to_u64(&chars_of(h)) {
                Some(n) => n,
                None => 0,
            },
            None => 0,
        }
    }

    /// Begins the storing of a body that came with the given
    /// `Content-Length` header: nothing is stored yet, and no progress shown.
    pub fn transfer(content_length: Option<&str>) -> (t: Transfer)
        ensures
            t.wf(),
            t@ == (TransferView {
                total: total_size_spec(text_view(content_length)),
                written: 0,
                reported: 0,
                finished: false,
            }),
    {
        Transfer {
            total: Download::total_size(content_length),
            written: 0,
            reported: 0,
            finished: false,
        }
    }
}

/// The progress shown for a transfer is, at every moment, the number of bytes
/// handed on for storing.
pub proof fn lemma_progress_is_bytes_stored(t: Transfer)
    requires
        t.wf(),
    ensures
        t@.reported == t@.written,
{
}

/// Over a whole transfer the progress shown adds up to the bytes that the
/// reads brought, and so do the bytes stored: after any run of reads that
/// each brought something, both counts have grown by the sum of what was
/// read.
pub proof fn lemma_progress_counts_every_byte(t: TransferView, reads: Seq<nat>)
    requires
        !t.finished,
        forall|i: int| 0 <= i < reads.len() ==> reads[i] > 0,
    ensures
        after_reads(t, reads).reported == t.reported + bytes_read(reads),
        after_reads(t, reads).written == t.written + bytes_read(reads),
        after_reads(t, reads).total == t.total,
        !after_reads(t, reads).finished,
    decreases reads.len(),
{
    if reads.len() > 0 {
        lemma_progress_counts_every_byte(record_spec(t, reads[0]).0, reads.skip(1));
    }
}

/// The download of a URL of the encyclopedia never asks for a lookup, nor
/// for the content type: from its start and through any run of events, it
/// only ever asks for the status probe and for the body; what it fetches is
/// what the URL alone resolves to, and the file it stores has the name that
/// the URL alone gives.
pub proof fn lemma_wiki_asks_no_lookup(url: Seq<char>, path: Seq<char>, events: Seq<EventView>)
    requires
        in_domain(url, "wikipedia.org"@),
    ensures
        wiki_stage(url, run_spec(start_spec(url, path), events).stage),
        command_spec(url, run_spec(start_spec(url, path), events).stage) == Command::ProbeStatus
            || command_spec(url, run_spec(start_spec(url, path), events).stage) == Command::Fetch
            || command_spec(url, run_spec(start_spec(url, path), events).stage)
            == Command::Finish,
{
    lemma_wiki_run(start_spec(url, path), events);
}

/// A stage that the download of a URL of the encyclopedia can be at: the
/// status probe; the fetch of what the URL alone resolves to; or the end,
/// where a stored file has the name that the URL alone gives.
pub open spec fn wiki_stage(url: Seq<char>, stage: StageView) -> bool {
    match stage {
        StageView::Probe => true,
        StageView::Fetch(r) => r == wikipedia_spec(url),
        StageView::Done(outcome) => match outcome {
            OutcomeView::Success(name) => name == wikipedia_spec(url).filename,
            _ => true,
        },
        _ => false,
    }
}

proof fn lemma_wiki_run(job: JobView, events: Seq<EventView>)
    requires
        in_domain(job.url, "wikipedia.org"@),
        wiki_stage(job.url, job.stage),
    ensures
        run_spec(job, events).url == job.url,
        wiki_stage(job.url, run_spec(job, events).stage),
    decreases events.len(),
{
    if events.len() > 0 {
        lemma_wiki_run(advance_spec(job, events[0]), events.skip(1));
    }
}

/// A line that is no URL as it stands is passed over, whatever it carries.
/// Of a line that is one and carries the annotation `!ignore`, be it an
/// annotated line or a comment while comments are not skipped: it is passed
/// over where annotated lines are turned away, and where they are not, the
/// download is that of the line without the annotation.
pub proof fn lemma_annotated_download(
    line: Seq<char>,
    path: Seq<char>,
    no_ignore: bool,
    no_comments: bool,
)
    ensures
        !is_url_text(trim(line)) ==> download_file_spec(line, path, no_ignore, no_comments)
            is None,
        carries_ignore(trim(line)) && (classify_spec(line) is IgnoreAnnotation || (classify_spec(
            line,
        ) is Comment && no_comments)) ==> {
            &&& download_file_spec(line, path, true, no_comments) is None
            &&& is_url_text(trim(line)) ==> download_file_spec(line, path, false, no_comments)
                == Some(start_spec(strip_ignore(trim(line)), path))
        },
{
}

} // verus!
