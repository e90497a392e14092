//! A download job: what is asked of the downloader, and how the job proceeds
//! from the start of the downloader to its end while its output is passed on
//! line by line.

use vstd::prelude::*;
use vstd::string::*;
use vstd::utf8::{decode_utf8, valid_utf8};
use crate::binaries::{check_binary_exists, executable_name, lists, ManagedTool, Platform};
use crate::error::{DownloadError, DownloadErrorModel};
use crate::selection::{
    build_selection, build_video_selector, selection_expression, video_selector,
};
use crate::text::{decimal, lossy_text, push_decimal, read_lossy, texts, to_upper, uppercase_of};

verus! {

/// What a caller asks for: a medium, a target quality, a format to fall back
/// on, and perhaps a directory to put the result in.
#[derive(Debug, PartialEq, Eq)]
pub struct DownloadRequest {
    pub url: String,
    /// The target height, 0 where none is asked for.
    pub height: u64,
    pub ext: String,
    pub fallback: String,
    pub destination: Option<String>,
}

/// One run of the downloader.
#[derive(Debug, PartialEq, Eq)]
pub struct DownloadJob {
    pub url: String,
    pub selection: String,
    pub ext: String,
    pub destination: String,
}

/// What a `DownloadJob` holds, as mathematical values.
pub struct JobModel {
    pub url: Seq<char>,
    pub selection: Seq<char>,
    pub ext: Seq<char>,
    pub destination: Seq<char>,
}

impl View for DownloadJob {
    type V = JobModel;

    open spec fn view(&self) -> JobModel {
        JobModel {
            url: self.url@,
            selection: self.selection@,
            ext: self.ext@,
            destination: self.destination@,
        }
    }
}

/// The job that a request leads to when its result goes to `destination`.
pub open spec fn job_for(request: DownloadRequest, destination: Seq<char>) -> JobModel {
    JobModel {
        url: request.url@,
        selection: selection_expression(request.height, request.ext@, request.fallback@),
        ext: request.ext@,
        destination,
    }
}

/// The line that announces a download of this height, in a container named
/// in capitals, by this video selector.
pub open spec fn announcement_line(height: u64, container: Seq<char>, selector: Seq<char>) -> Seq<
    char,
> {
    "Baixando "@ + decimal(height as nat) + "p "@ + container + " — seletor: "@ + selector
}

/// The line that opens the progress stream of a request.
pub open spec fn announcement_of(request: DownloadRequest) -> Seq<char> {
    announcement_line(
        request.height,
        uppercase_of(request.ext@),
        video_selector(request.height, request.ext@, request.fallback@),
    )
}

/// The line that closes the progress stream of a job that succeeded.
pub open spec fn completion_line() -> Seq<char> {
    "✅ Download concluído!"@
}

/// The downloader's arguments for a job: where the transcoder is, what to
/// select, the container to merge into, where to write, and the medium.
pub open spec fn download_command(job: JobModel, transcoder: Seq<char>) -> Seq<Seq<char>> {
    seq![
        "--ffmpeg-location"@,
        transcoder,
        "-f"@,
        job.selection,
        "--merge-output-format"@,
        job.ext,
        "-o"@,
        job.destination + "/%(title)s.%(ext)s"@,
        job.url,
    ]
}

/// Decides whether a request can run, and with which job. `directory` holds
/// the names of the files in the managed directory, or the reason why there
/// is no such directory; `default_destination` is the usual directory for
/// downloads, or the reason why there is none.
///
/// Without a managed directory nothing runs, and nothing runs without the
/// downloader in it. The result goes to the directory that the request
/// names, else to the usual one.
pub fn plan_download(
    request: &DownloadRequest,
    platform: Platform,
    directory: &Result<Vec<String>, String>,
    default_destination: &Result<String, String>,
) -> (r: Result<DownloadJob, DownloadError>)
    ensures
        match *directory {
            Err(reason) => r is Err && r->Err_0@ == DownloadErrorModel::Environment(reason@),
            Ok(entries) => if !lists(entries@, executable_name(ManagedTool::Downloader, platform)) {
                r is Err && r->Err_0@ is ToolNotInstalled
            } else {
                match (request.destination, *default_destination) {
                    (Some(chosen), _) => r is Ok && r->Ok_0@ == job_for(*request, chosen@),
                    (None, Ok(usual)) => r is Ok && r->Ok_0@ == job_for(*request, usual@),
                    (None, Err(reason)) => r is Err && r->Err_0@
                        == DownloadErrorModel::Environment(reason@),
                }
            },
        },
{
    let entries = match directory {
        Ok(entries) => entries,
        Err(reason) => {
            return Err(DownloadError::Environment(reason.clone()));
        },
    };
    if !check_binary_exists(ManagedTool::Downloader, platform, entries) {
        return Err(DownloadError::ToolNotInstalled);
    }
    let destination = match &request.destination {
        Some(chosen) => chosen.clone(),
        None => match default_destination {
            Ok(usual) => usual.clone(),
            Err(reason) => {
                return Err(DownloadError::Environment(reason.clone()));
            },
        },
    };
    Ok(
        DownloadJob {
            url: request.url.clone(),
            selection: build_selection(
                request.height,
                request.ext.as_str(),
                request.fallback.as_str(),
            ),
            ext: request.ext.clone(),
            destination,
        },
    )
}

/// Writes the line that announces a download, given the container's name in
/// capitals and the video selector.
pub fn write_announcement(height: u64, container: &str, selector: &str) -> (line: String)
    ensures
        line@ == announcement_line(height, container@, selector@),
{
    let mut line = String::new();
    line.append("Baixando ");
    push_decimal(&mut line, height);
    line.append("p ");
    line.append(container);
    line.append(" — seletor: ");
    line.append(selector);
    assert(line@ =~= announcement_line(height, container@, selector@));
    line
}

/// Writes the line that opens the progress stream of a request.
pub fn announcement(request: &DownloadRequest) -> (line: String)
    ensures
        line@ == announcement_of(*request),
{
    let upper = to_upper(request.ext.as_str());
    let selector = build_video_selector(
        request.height,
        request.ext.as_str(),
        request.fallback.as_str(),
    );
    write_announcement(request.height, upper.as_str(), selector.as_str())
}

/// Lists the downloader's arguments for a job.
pub fn download_arguments(job: &DownloadJob, transcoder: &str) -> (arguments: Vec<String>)
    ensures
        texts(arguments@) == download_command(job@, transcoder@),
{
    let mut template = job.destination.clone();
    template.append("/%(title)s.%(ext)s");
    let mut arguments: Vec<String> = Vec::new();
    arguments.push("--ffmpeg-location".to_owned());
    arguments.push(transcoder.to_owned());
    arguments.push("-f".to_owned());
    arguments.push(job.selection.clone());
    arguments.push("--merge-output-format".to_owned());
    arguments.push(job.ext.clone());
    arguments.push("-o".to_owned());
    arguments.push(template);
    arguments.push(job.url.clone());
    assert(texts(arguments@) =~= download_command(job@, transcoder@));
    arguments
}

/// Where a job stands.
#[derive(Clone, Copy, Debug, PartialEq, Eq, Structural)]
pub enum DownloadPhase {
    /// The downloader is being started.
    Starting,
    /// The downloader runs and its output is being read.
    Streaming,
    /// The output has ended and the downloader's exit is awaited.
    Waiting,
    /// The job is over.
    Finished,
}

/// What the driver of a job reports back.
#[derive(Debug, PartialEq, Eq)]
pub enum DownloadEvent {
    /// The downloader has started.
    Started,
    /// The last thing asked for could not be done; the text says why.
    Failed(String),
    /// The downloader wrote this line.
    Line(String),
    /// The downloader wrote a line that is no text.
    Unreadable,
    /// The downloader's output has ended.
    EndOfOutput,
    /// The downloader has ended, with or without success, with this exit
    /// code where it has one, and wrote these bytes to its error stream.
    Exited { success: bool, code: Option<i32>, stderr: Vec<u8> },
}

/// What a `DownloadEvent` holds, as mathematical values.
pub enum EventModel {
    Started,
    Failed(Seq<char>),
    Line(Seq<char>),
    Unreadable,
    EndOfOutput,
    Exited { success: bool, code: Option<i32>, stderr: Seq<u8> },
}

impl View for DownloadEvent {
    type V = EventModel;

    open spec fn view(&self) -> EventModel {
        match *self {
            DownloadEvent::Started => EventModel::Started,
            DownloadEvent::Failed(reason) => EventModel::Failed(reason@),
            DownloadEvent::Line(line) => EventModel::Line(line@),
            DownloadEvent::Unreadable => EventModel::Unreadable,
            DownloadEvent::EndOfOutput => EventModel::EndOfOutput,
            DownloadEvent::Exited { success, code, stderr } => EventModel::Exited {
                success,
                code,
                stderr: stderr@,
            },
        }
    }
}

/// What the driver of a job is to do next.
#[derive(Debug, PartialEq, Eq)]
pub enum Directive {
    /// Start the downloader with these arguments.
    Spawn(Vec<String>),
    /// Read the next line of the downloader's output.
    ReadLine,
    /// Wait for the downloader to end.
    Wait,
    /// Stop: the job is over, with the directory that holds the result or
    /// with an error.
    Finish(Result<String, DownloadError>),
}

/// What a `Directive` holds, as mathematical values.
pub enum DirectiveModel {
    Spawn(Seq<Seq<char>>),
    ReadLine,
    Wait,
    Finish(Result<Seq<char>, DownloadErrorModel>),
}

impl View for Directive {
    type V = DirectiveModel;

    open spec fn view(&self) -> DirectiveModel {
        match *self {
            Directive::Spawn(arguments) => DirectiveModel::Spawn(texts(arguments@)),
            Directive::ReadLine => DirectiveModel::ReadLine,
            Directive::Wait => DirectiveModel::Wait,
            Directive::Finish(Ok(directory)) => DirectiveModel::Finish(Ok(directory@)),
            Directive::Finish(Err(e)) => DirectiveModel::Finish(Err(e@)),
        }
    }
}

/// One step of a job: a line for the progress stream, if there is one, and
/// what to do after it.
#[derive(Debug, PartialEq, Eq)]
pub struct Step {
    pub emit: Option<String>,
    pub next: Directive,
}

/// What a `Step` holds, as mathematical values.
pub struct StepModel {
    pub emit: Option<Seq<char>>,
    pub next: DirectiveModel,
}

impl View for Step {
    type V = StepModel;

    open spec fn view(&self) -> StepModel {
        StepModel {
            emit: match self.emit {
                Some(line) => Some(line@),
                None => None,
            },
            next: self.next@,
        }
    }
}

/// The end of a job whose downloader failed or could not be run.
pub open spec fn failure(code: Option<i32>, diagnostic: Seq<char>) -> StepModel {
    StepModel {
        emit: None,
        next: DirectiveModel::Finish(Err(DownloadErrorModel::Process { code, diagnostic })),
    }
}

/// A step that passes nothing on.
pub open spec fn silently(next: DirectiveModel) -> StepModel {
    StepModel { emit: None, next }
}

/// How a job in `phase`, bound for `destination`, answers an event: the phase
/// it goes to and the step it takes. Each line of output is passed on as it
/// is, and the next one is asked for; a line that is no text is passed over.
/// When the downloader has ended with success the closing line is passed on
/// and the job ends with the destination; when it has ended otherwise the job
/// ends with its exit code and what it wrote to its error stream, unchanged
/// where that is valid UTF-8. An event
/// that the phase does not await ends the job as a failure without a
/// diagnostic, unless it says itself what failed.
pub open spec fn react(phase: DownloadPhase, destination: Seq<char>, event: EventModel) -> (
    DownloadPhase,
    StepModel,
) {
    match (phase, event) {
        (DownloadPhase::Starting, EventModel::Started) => (
            DownloadPhase::Streaming,
            silently(DirectiveModel::ReadLine),
        ),
        (DownloadPhase::Streaming, EventModel::Line(line)) => (
            DownloadPhase::Streaming,
            StepModel { emit: Some(line), next: DirectiveModel::ReadLine },
        ),
        (DownloadPhase::Streaming, EventModel::Unreadable) => (
            DownloadPhase::Streaming,
            silently(DirectiveModel::ReadLine),
        ),
        (DownloadPhase::Streaming, EventModel::EndOfOutput) => (
            DownloadPhase::Waiting,
            silently(DirectiveModel::Wait),
        ),
        (DownloadPhase::Waiting, EventModel::Exited { success, code, stderr }) => if success {
            (
                DownloadPhase::Finished,
                StepModel {
                    emit: Some(completion_line()),
                    next: DirectiveModel::Finish(Ok(destination)),
                },
            )
        } else {
            (DownloadPhase::Finished, failure(code, lossy_text(stderr)))
        },
        (_, EventModel::Failed(reason)) => (DownloadPhase::Finished, failure(None, reason)),
        (_, _) => (DownloadPhase::Finished, failure(None, Seq::empty())),
    }
}

/// A job under way.
#[derive(Debug, PartialEq, Eq)]
pub struct Orchestrator {
    pub phase: DownloadPhase,
    pub destination: String,
}

impl Orchestrator {
    /// Opens a job: the announcement goes to the progress stream, and the
    /// downloader is to be started with the job's arguments.
    pub fn begin(job: &DownloadJob, transcoder: &str, announcement: String) -> (r: (
        Orchestrator,
        Step,
    ))
        ensures
            r.0.phase == DownloadPhase::Starting,
            r.0.destination@ == job@.destination,
            r.1@ == (StepModel {
                emit: Some(announcement@),
                next: DirectiveModel::Spawn(download_command(job@, transcoder@)),
            }),
    {
        let arguments = download_arguments(job, transcoder);
        (
            Orchestrator { phase: DownloadPhase::Starting, destination: job.destination.clone() },
            Step { emit: Some(announcement), next: Directive::Spawn(arguments) },
        )
    }

    /// Takes the job one event further.
    pub fn step(&mut self, event: DownloadEvent) -> (step: Step)
        ensures
            (final(self).phase, step@) == react(old(self).phase, old(self).destination@, event@),
            final(self).destination == old(self).destination,
            old(self).phase == DownloadPhase::Waiting ==> match event@ {
                EventModel::Exited { success, code, stderr } => !success && valid_utf8(stderr)
                    ==> step@ == failure(code, decode_utf8(stderr)),
                _ => true,
            },
    {
        let phase = self.phase;
        let (after, step) = match (phase, event) {
            (DownloadPhase::Starting, DownloadEvent::Started) => (
                DownloadPhase::Streaming,
                Step { emit: None, next: Directive::ReadLine },
            ),
            (DownloadPhase::Streaming, DownloadEvent::Line(line)) => (
                DownloadPhase::Streaming,
                Step { emit: Some(line), next: Directive::ReadLine },
            ),
            (DownloadPhase::Streaming, DownloadEvent::Unreadable) => (
                DownloadPhase::Streaming,
                Step { emit: None, next: Directive::ReadLine },
            ),
            (DownloadPhase::Streaming, DownloadEvent::EndOfOutput) => (
                DownloadPhase::Waiting,
                Step { emit: None, next: Directive::Wait },
            ),
            (DownloadPhase::Waiting, DownloadEvent::Exited { success, code, stderr }) => {
                if success {
                    (
                        DownloadPhase::Finished,
                        Step {
                            emit: Some("✅ Download concluído!".to_owned()),
                            next: Directive::Finish(Ok(self.destination.clone())),
                        },
                    )
                } else {
                    let diagnostic = read_lossy(stderr.as_slice());
                    (
                        DownloadPhase::Finished,
                        Step {
                            emit: None,
                            next: Directive::Finish(
                                Err(DownloadError::Process { code, diagnostic }),
                            ),
                        },
                    )
                }
            },
            (_, DownloadEvent::Failed(reason)) => (
                DownloadPhase::Finished,
                Step {
                    emit: None,
                    next: Directive::Finish(
                        Err(DownloadError::Process { code: None, diagnostic: reason }),
                    ),
                },
            ),
            (_, _) => (
                DownloadPhase::Finished,
                Step {
                    emit: None,
                    next: Directive::Finish(
                        Err(DownloadError::Process { code: None, diagnostic: String::new() }),
                    ),
                },
            ),
        };
        self.phase = after;
        step
    }
}

/// What a job has come to after a run of events: its phase, the lines passed
/// on, and the directive of its last step.
pub struct Trace {
    pub phase: DownloadPhase,
    pub emitted: Seq<Seq<char>>,
    pub last: Option<DirectiveModel>,
}

/// The lines that a step passes on: one or none.
pub open spec fn lines_of(step: StepModel) -> Seq<Seq<char>> {
    match step.emit {
        Some(line) => seq![line],
        None => Seq::empty(),
    }
}

/// What a job in `phase` comes to when it meets `events` one after another.
pub open spec fn run(phase: DownloadPhase, destination: Seq<char>, events: Seq<EventModel>) -> Trace
    decreases events.len(),
{
    if events.len() == 0 {
        Trace { phase, emitted: Seq::empty(), last: None }
    } else {
        let before = run(phase, destination, events.drop_last());
        let (after, step) = react(before.phase, destination, events.last());
        Trace { phase: after, emitted: before.emitted + lines_of(step), last: Some(step.next) }
    }
}

/// The events of a downloader that starts and writes `lines`.
pub open spec fn output_events(lines: Seq<Seq<char>>) -> Seq<EventModel> {
    seq![EventModel::Started] + lines.map_values(|line: Seq<char>| EventModel::Line(line))
}

/// While the downloader writes, every line is passed on, in the order in
/// which it was written, and the next one is asked for.
pub proof fn lemma_lines_are_passed_on(destination: Seq<char>, lines: Seq<Seq<char>>)
    ensures
        run(DownloadPhase::Starting, destination, output_events(lines)) == (Trace {
            phase: DownloadPhase::Streaming,
            emitted: lines,
            last: Some(DirectiveModel::ReadLine),
        }),
    decreases lines.len(),
{
    let events = output_events(lines);
    if lines.len() == 0 {
        assert(events.drop_last() =~= Seq::<EventModel>::empty());
        reveal_with_fuel(run, 2);
        assert(run(DownloadPhase::Starting, destination, events).emitted =~= lines);
    } else {
        lemma_lines_are_passed_on(destination, lines.drop_last());
        assert(events.drop_last() =~= output_events(lines.drop_last()));
        assert(events.last() == EventModel::Line(lines.last()));
        assert(run(DownloadPhase::Starting, destination, events).emitted =~= lines);
    }
}

/// A job whose downloader ends with a failure ends with a process error that
/// carries the exit code and the error stream, and has before that passed on
/// every line that the downloader wrote, in order.
pub proof fn lemma_failed_job_keeps_its_lines(
    destination: Seq<char>,
    lines: Seq<Seq<char>>,
    code: Option<i32>,
    stderr: Seq<u8>,
)
    ensures
        run(
            DownloadPhase::Starting,
            destination,
            output_events(lines) + seq![
                EventModel::EndOfOutput,
                EventModel::Exited { success: false, code, stderr },
            ],
        ) == (Trace {
            phase: DownloadPhase::Finished,
            emitted: lines,
            last: Some(
                DirectiveModel::Finish(
                    Err(DownloadErrorModel::Process { code, diagnostic: lossy_text(stderr) }),
                ),
            ),
        }),
{
    let written = output_events(lines);
    let ended = written.push(EventModel::EndOfOutput);
    let all = ended.push(EventModel::Exited { success: false, code, stderr });
    lemma_lines_are_passed_on(destination, lines);
    assert(ended.drop_last() =~= written);
    assert(all.drop_last() =~= ended);
    assert(all =~= written + seq![
        EventModel::EndOfOutput,
        EventModel::Exited { success: false, code, stderr },
    ]);
    assert(run(DownloadPhase::Starting, destination, ended).emitted =~= lines);
    assert(run(DownloadPhase::Starting, destination, all).emitted =~= lines);
}

/// A job whose downloader ends with success has passed on every line that
/// the downloader wrote and after them the closing line, and ends with its
/// destination.
pub proof fn lemma_successful_job_ends_with_destination(
    destination: Seq<char>,
    lines: Seq<Seq<char>>,
    code: Option<i32>,
    stderr: Seq<u8>,
)
    ensures
        run(
            DownloadPhase::Starting,
            destination,
            output_events(lines) + seq![
                EventModel::EndOfOutput,
                EventModel::Exited { success: true, code, stderr },
            ],
        ) == (Trace {
            phase: DownloadPhase::Finished,
            emitted: lines.push(completion_line()),
            last: Some(DirectiveModel::Finish(Ok(destination))),
        }),
{
    let written = output_events(lines);
    let ended = written.push(EventModel::EndOfOutput);
    let all = ended.push(EventModel::Exited { success: true, code, stderr });
    lemma_lines_are_passed_on(destination, lines);
    assert(ended.drop_last() =~= written);
    assert(all.drop_last() =~= ended);
    assert(all =~= written + seq![
        EventModel::EndOfOutput,
        EventModel::Exited { success: true, code, stderr },
    ]);
    assert(run(DownloadPhase::Starting, destination, ended).emitted =~= lines);
    assert(run(DownloadPhase::Starting, destination, all).emitted =~= lines.push(
        completion_line(),
    ));
}

/// No step after the first starts the downloader again: a job that failed is
/// over, and only a new job runs the downloader anew.
pub proof fn lemma_no_retry(phase: DownloadPhase, destination: Seq<char>, event: EventModel)
    ensures
        !(react(phase, destination, event).1.next is Spawn),
        react(phase, destination, event).1.next is Finish <==> react(
            phase,
            destination,
            event,
        ).0 == DownloadPhase::Finished,
        phase == DownloadPhase::Finished ==> react(phase, destination, event).0
            == DownloadPhase::Finished,
{
}

} // verus!
