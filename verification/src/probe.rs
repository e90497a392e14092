//! Probing a remote medium: whether the downloader can be asked, how it is
//! asked for a description, and what its answer means.

use vstd::prelude::*;
use vstd::string::*;
use vstd::utf8::{decode_utf8, valid_utf8};
use crate::binaries::{check_binary_exists, executable_name, lists, ManagedTool, Platform};
use crate::catalog::{
    arranges, format_entries, listed, read_catalog, thumbnail_of, title_of, MediaCatalog,
};
use crate::error::ProbeError;
use crate::json::{parse_document, parse_outcome, JsonValue};
use crate::text::{lossy_text, read_lossy, texts};

verus! {

/// What came of running a program.
#[derive(Debug, PartialEq, Eq)]
pub enum ProcessOutcome {
    /// It could not be started; the text says why.
    NotStarted(String),
    /// It ran and ended, with or without success, and wrote these bytes to
    /// its output and to its error stream.
    Ended { success: bool, stdout: Vec<u8>, stderr: Vec<u8> },
}

/// What the driver of a probe is to do next.
#[derive(Debug, PartialEq, Eq)]
pub enum ProbeStep {
    /// Run the downloader once with these arguments and hand back what came
    /// of it.
    Spawn(Vec<String>),
    /// Stop: the probe is over, with the catalog or with an error.
    Finish(Result<MediaCatalog, ProbeError>),
}

/// The arguments that ask for one description: a single JSON document, with
/// a playlist address read as the one medium it points to.
pub open spec fn probe_command(url: Seq<char>) -> Seq<Seq<char>> {
    seq!["-j"@, "--no-playlist"@, url]
}

/// Whether `catalog` is what a description says.
pub open spec fn describes(doc: JsonValue, catalog: MediaCatalog) -> bool {
    &&& catalog@.title == title_of(doc)
    &&& catalog@.thumbnail == thumbnail_of(doc)
    &&& arranges(catalog@.formats, listed(format_entries(doc)))
    &&& catalog.well_formed()
}

/// Whether `r` is what the downloader's output says: the catalog of the
/// document that the output holds, or a parse error with the parser's
/// message where it holds none.
pub open spec fn reads_output(stdout: Seq<u8>, r: Result<MediaCatalog, ProbeError>) -> bool {
    match r {
        Ok(catalog) => parse_outcome(stdout) is Ok && describes(parse_outcome(stdout)->Ok_0, catalog),
        Err(e) => parse_outcome(stdout) is Err && e is Parse && e->Parse_0@ == parse_outcome(
            stdout,
        )->Err_0,
    }
}

/// Whether `r` is what a run of the downloader comes to. A run that did not
/// start is a process error with the reason. A run that ended with a failure
/// is a process error with what the downloader wrote to its error stream,
/// unchanged where that is valid UTF-8. The output of a run that ended with
/// success is read as a description.
pub open spec fn reads_run(outcome: ProcessOutcome, r: Result<MediaCatalog, ProbeError>) -> bool {
    match outcome {
        ProcessOutcome::NotStarted(reason) => r is Err && r->Err_0 is Process
            && r->Err_0->Process_0@ == reason@,
        ProcessOutcome::Ended { success, stdout, stderr } => if !success {
            &&& r is Err
            &&& r->Err_0 is Process
            &&& r->Err_0->Process_0@ == lossy_text(stderr@)
            &&& valid_utf8(stderr@) ==> r->Err_0->Process_0@ == decode_utf8(stderr@)
        } else {
            reads_output(stdout@, r)
        },
    }
}

/// Lists the arguments that ask the downloader for one description.
pub fn probe_arguments(url: &str) -> (arguments: Vec<String>)
    ensures
        texts(arguments@) == probe_command(url@),
{
    let mut arguments: Vec<String> = Vec::new();
    arguments.push("-j".to_owned());
    arguments.push("--no-playlist".to_owned());
    arguments.push(url.to_owned());
    assert(texts(arguments@) =~= probe_command(url@));
    arguments
}

/// Reads the downloader's output as a catalog.
pub fn read_description(stdout: &[u8]) -> (r: Result<MediaCatalog, ProbeError>)
    ensures
        reads_output(stdout@, r),
{
    match parse_document(stdout) {
        Ok(doc) => Ok(read_catalog(&doc)),
        Err(message) => Err(ProbeError::Parse(message)),
    }
}

/// Turns the outcome of a run of the downloader into a catalog or an error.
pub fn read_run(outcome: &ProcessOutcome) -> (r: Result<MediaCatalog, ProbeError>)
    ensures
        reads_run(*outcome, r),
{
    match outcome {
        ProcessOutcome::NotStarted(reason) => Err(ProbeError::Process(reason.clone())),
        ProcessOutcome::Ended { success, stdout, stderr } => {
            if !*success {
                Err(ProbeError::Process(read_lossy(stderr.as_slice())))
            } else {
                read_description(stdout.as_slice())
            }
        },
    }
}

/// Probes a medium: says what is to be done next, given what is known so
/// far. `directory` holds the names of the files in the managed directory,
/// or the reason why there is no such directory; `run` is what came of
/// running the downloader, once it has been run.
///
/// Without a managed directory the probe ends with an environment error, and
/// without the downloader in it with `ToolNotInstalled`; in both cases
/// nothing is run. Else the downloader is to be run, once, with the
/// arguments for one description of `url`. Whatever comes of that run ends
/// the probe: the downloader is never run a second time.
pub fn get_video_info(
    platform: Platform,
    directory: &Result<Vec<String>, String>,
    url: &str,
    run: Option<&ProcessOutcome>,
) -> (step: ProbeStep)
    ensures
        match *directory {
            Err(reason) => step is Finish && step->Finish_0 is Err
                && step->Finish_0->Err_0 is Environment
                && step->Finish_0->Err_0->Environment_0@ == reason@,
            Ok(entries) => if !lists(entries@, executable_name(ManagedTool::Downloader, platform)) {
                step is Finish && step->Finish_0 is Err && step->Finish_0->Err_0 is ToolNotInstalled
            } else {
                match run {
                    None => step is Spawn && texts(step->Spawn_0@) == probe_command(url@),
                    Some(outcome) => step is Finish && reads_run(*outcome, step->Finish_0),
                }
            },
        },
{
    match directory {
        Err(reason) => ProbeStep::Finish(Err(ProbeError::Environment(reason.clone()))),
        Ok(entries) => {
            if !check_binary_exists(ManagedTool::Downloader, platform, entries) {
                ProbeStep::Finish(Err(ProbeError::ToolNotInstalled))
            } else {
                match run {
                    None => ProbeStep::Spawn(probe_arguments(url)),
                    Some(outcome) => ProbeStep::Finish(read_run(outcome)),
                }
            }
        },
    }
}

} // verus!
