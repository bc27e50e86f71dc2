//! The track import: a single-flight job that an outside converter carries
//! out. The task keeps the job's status; at most one job runs at a time.

use vstd::prelude::*;
use vstd::string::*;
use crate::library::texts;

verus! {

/// Why an import failed.
#[derive(Clone, Copy, Debug, PartialEq, Eq, Structural)]
pub enum FailureReason {
    /// The converter could not be started.
    ConverterMissing,
    /// The converter ran and reported failure.
    ConversionFailed,
}

/// Where an import job stands.
#[derive(Clone, Copy, Debug, PartialEq, Eq, Structural)]
pub enum ImportStatus {
    Idle,
    Running,
    Done,
    Failed(FailureReason),
}

/// How a run of the converter ended.
#[derive(Clone, Copy, Debug, PartialEq, Eq, Structural)]
pub enum ConversionOutcome {
    Succeeded,
    ExitedWithFailure,
    ConverterMissing,
}

/// Why a submission was turned down.
#[derive(Clone, Copy, Debug, PartialEq, Eq, Structural)]
pub enum SubmitError {
    /// A job is running.
    Busy,
}

/// The line that tells the user where the job stands.
pub open spec fn status_message(status: ImportStatus) -> Seq<char> {
    match status {
        ImportStatus::Idle => "Ready"@,
        ImportStatus::Running => "📥 Downloading background song..."@,
        ImportStatus::Done => "✅ Success! Press ENTER"@,
        ImportStatus::Failed(FailureReason::ConversionFailed) => "❌ Failed"@,
        ImportStatus::Failed(FailureReason::ConverterMissing) => "❌ yt-dlp missing"@,
    }
}

/// The status in which a running job ends, by the converter's outcome.
pub open spec fn status_after(outcome: ConversionOutcome) -> ImportStatus {
    match outcome {
        ConversionOutcome::Succeeded => ImportStatus::Done,
        ConversionOutcome::ExitedWithFailure => ImportStatus::Failed(
            FailureReason::ConversionFailed,
        ),
        ConversionOutcome::ConverterMissing => ImportStatus::Failed(
            FailureReason::ConverterMissing,
        ),
    }
}

/// The name of the converter program.
pub open spec fn converter_program() -> Seq<char> {
    "yt-dlp"@
}

/// The converter's arguments for a source: extract the audio as mp3,
/// quietly, into the track directory under the item's title.
pub open spec fn converter_arguments(url: Seq<char>) -> Seq<Seq<char>> {
    seq![
        "-x"@,
        "--audio-format"@,
        "mp3"@,
        "--quiet"@,
        "--no-warnings"@,
        "-o"@,
        "bgm/%(title)s.%(ext)s"@,
        url,
    ]
}

/// The mathematical content of an [`ImportTask`].
pub struct ImportView {
    pub source_url: Seq<char>,
    pub status: ImportStatus,
}

impl ImportView {
    /// A task that has not been given a job.
    pub open spec fn initial() -> ImportView {
        ImportView { source_url: Seq::empty(), status: ImportStatus::Idle }
    }

    /// The state after `submit(url)`: a running job is left as it is; in
    /// every other state a job for `url` starts running.
    pub open spec fn submitted(self, url: Seq<char>) -> ImportView {
        if self.status == ImportStatus::Running {
            self
        } else {
            ImportView { source_url: url, status: ImportStatus::Running }
        }
    }

    /// The state after `finish(outcome)`: a running job ends as the outcome
    /// says; there is nothing to end in any other state.
    pub open spec fn finished(self, outcome: ConversionOutcome) -> ImportView {
        if self.status == ImportStatus::Running {
            ImportView { status: status_after(outcome), ..self }
        } else {
            self
        }
    }

    /// Whether the job has ended and waits to be acknowledged.
    pub open spec fn ended(self) -> bool {
        self.status != ImportStatus::Idle && self.status != ImportStatus::Running
    }

    /// The state after `acknowledge()`: a job that has ended is cleared away.
    pub open spec fn acknowledged(self) -> ImportView {
        if self.ended() {
            ImportView { status: ImportStatus::Idle, ..self }
        } else {
            self
        }
    }
}

/// A snapshot of the import job.
#[derive(Debug, PartialEq, Eq)]
pub struct ImportJob {
    pub source_url: String,
    pub status: ImportStatus,
    pub message: String,
}

/// What to run to carry a job out.
#[derive(Debug, PartialEq, Eq)]
pub struct ImportRequest {
    pub program: String,
    pub arguments: Vec<String>,
}

/// The mathematical content of an [`ImportRequest`].
pub struct ImportRequestView {
    pub program: Seq<char>,
    pub arguments: Seq<Seq<char>>,
}

impl View for ImportRequest {
    type V = ImportRequestView;

    open spec fn view(&self) -> ImportRequestView {
        ImportRequestView { program: self.program@, arguments: texts(self.arguments@) }
    }
}

/// The request that carries out the import of `url`.
pub open spec fn import_request(url: Seq<char>) -> ImportRequestView {
    ImportRequestView { program: converter_program(), arguments: converter_arguments(url) }
}

/// How a run of the converter ended: `None` if it could not be started, else
/// whether it reported success.
pub fn classify_exit(exit: Option<bool>) -> (outcome: ConversionOutcome)
    ensures
        outcome == match exit {
            None => ConversionOutcome::ConverterMissing,
            Some(true) => ConversionOutcome::Succeeded,
            Some(false) => ConversionOutcome::ExitedWithFailure,
        },
{
    match exit {
        None => ConversionOutcome::ConverterMissing,
        Some(true) => ConversionOutcome::Succeeded,
        Some(false) => ConversionOutcome::ExitedWithFailure,
    }
}

/// The line that tells the user where a job of this status stands.
pub fn message_for(status: ImportStatus) -> (message: String)
    ensures
        message@ == status_message(status),
{
    match status {
        ImportStatus::Idle => String::from_str("Ready"),
        ImportStatus::Running => String::from_str("📥 Downloading background song..."),
        ImportStatus::Done => String::from_str("✅ Success! Press ENTER"),
        ImportStatus::Failed(FailureReason::ConversionFailed) => String::from_str("❌ Failed"),
        ImportStatus::Failed(FailureReason::ConverterMissing) => String::from_str(
            "❌ yt-dlp missing",
        ),
    }
}

/// The import task: the one job that may exist, and its status.
#[derive(Debug, PartialEq, Eq)]
pub struct ImportTask {
    source_url: String,
    status: ImportStatus,
}

impl View for ImportTask {
    type V = ImportView;

    closed spec fn view(&self) -> ImportView {
        ImportView { source_url: self.source_url@, status: self.status }
    }
}

impl ImportTask {
    /// A task with no job.
    pub fn new() -> (task: ImportTask)
        ensures
            task@ == ImportView::initial(),
    {
        ImportTask { source_url: String::new(), status: ImportStatus::Idle }
    }

    /// Asks for `url` to be imported. While a job is running the request is
    /// turned down and the running job is not touched. Otherwise the job for
    /// `url` is marked as running, and the result says what to run.
    pub fn submit(&mut self, url: String) -> (result: Result<ImportRequest, SubmitError>)
        ensures
            final(self)@ == old(self)@.submitted(url@),
            match result {
                Ok(request) => old(self)@.status != ImportStatus::Running && request@
                    == import_request(url@),
                Err(error) => old(self)@.status == ImportStatus::Running && error
                    == SubmitError::Busy && final(self)@ == old(self)@,
            },
    {
        if self.status == ImportStatus::Running {
            return Err(SubmitError::Busy);
        }
        let mut arguments: Vec<String> = Vec::new();
        arguments.push(String::from_str("-x"));
        arguments.push(String::from_str("--audio-format"));
        arguments.push(String::from_str("mp3"));
        arguments.push(String::from_str("--quiet"));
        arguments.push(String::from_str("--no-warnings"));
        arguments.push(String::from_str("-o"));
        arguments.push(String::from_str("bgm/%(title)s.%(ext)s"));
        arguments.push(url.clone());
        assert(texts(arguments@) =~= converter_arguments(url@));
        self.source_url = url;
        self.status = ImportStatus::Running;
        Ok(ImportRequest { program: String::from_str("yt-dlp"), arguments })
    }

    /// Records how the converter's run ended: a running job becomes done or
    /// failed. In any other state there is no run to end, and nothing changes.
    pub fn finish(&mut self, outcome: ConversionOutcome)
        ensures
            final(self)@ == old(self)@.finished(outcome),
    {
        if self.status == ImportStatus::Running {
            self.status = match outcome {
                ConversionOutcome::Succeeded => ImportStatus::Done,
                ConversionOutcome::ExitedWithFailure => ImportStatus::Failed(
                    FailureReason::ConversionFailed,
                ),
                ConversionOutcome::ConverterMissing => ImportStatus::Failed(
                    FailureReason::ConverterMissing,
                ),
            };
        }
    }

    /// The job as it stands, with the line that tells the user so.
    pub fn poll(&self) -> (job: ImportJob)
        ensures
            job.source_url@ == self@.source_url,
            job.status == self@.status,
            job.message@ == status_message(self@.status),
    {
        ImportJob {
            source_url: self.source_url.clone(),
            status: self.status,
            message: message_for(self.status),
        }
    }

    /// Acknowledges the end of a job. A job that is done or has failed is
    /// cleared away and the result is `true`: the track library is to be
    /// scanned again. Otherwise nothing changes and the result is `false`.
    pub fn acknowledge(&mut self) -> (cleared: bool)
        ensures
            final(self)@ == old(self)@.acknowledged(),
            cleared == old(self)@.ended(),
    {
        match self.status {
            ImportStatus::Done | ImportStatus::Failed(_) => {
                self.status = ImportStatus::Idle;
                true
            },
            _ => false,
        }
    }

    /// Whether a job is running or waits to be acknowledged.
    pub fn is_active(&self) -> (active: bool)
        ensures
            active == (self@.status != ImportStatus::Idle),
    {
        self.status != ImportStatus::Idle
    }
}

/// While a job is running, nothing but the end of the converter's run changes
/// the task: a submission is turned down, and there is nothing to acknowledge.
pub proof fn lemma_running_job_is_not_disturbed(task: ImportView, url: Seq<char>)
    requires
        task.status == ImportStatus::Running,
    ensures
        task.submitted(url) == task,
        task.acknowledged() == task,
{
}

/// A job runs after an accepted submission, and only the end of the run
/// takes it out of that status: at most one job is in flight.
pub proof fn lemma_single_flight(task: ImportView, url: Seq<char>, outcome: ConversionOutcome)
    ensures
        task.submitted(url).status == ImportStatus::Running,
        task.submitted(url).finished(outcome).status == status_after(outcome),
        task.submitted(url).finished(outcome).ended(),
        task.submitted(url).finished(outcome).acknowledged().status == ImportStatus::Idle,
{
}

} // verus!
