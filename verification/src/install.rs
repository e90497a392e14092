//! Installing a managed tool: which steps an installation takes, and how it
//! answers what happens on the way.

use vstd::prelude::*;
use vstd::string::*;
use crate::binaries::{
    executable_name, lists, plan_for, InstallPlan, ManagedTool, Packaging, PlanModel, Platform,
};
use crate::error::{InstallError, InstallErrorModel};
use crate::paths::{base_name, has_base_name};
use crate::probe::ProcessOutcome;
use crate::text::{decimal, holds_text, lossy_text, push_decimal, read_lossy, texts};
use vstd::utf8::{decode_utf8, valid_utf8};

verus! {

/// The first of the names whose last component is `wanted`.
pub open spec fn member_index(names: Seq<Seq<char>>, wanted: Seq<char>) -> Option<int>
    decreases names.len(),
{
    if names.len() == 0 {
        None
    } else {
        match member_index(names.drop_last(), wanted) {
            Some(i) => Some(i),
            None => if base_name(names.last()) == wanted {
                Some(names.len() - 1)
            } else {
                None
            },
        }
    }
}

/// What `member_index` finds: a name with the wanted last component, before
/// which no name has it; it finds nothing only where no name has it.
pub proof fn lemma_member_index(names: Seq<Seq<char>>, wanted: Seq<char>)
    ensures
        match member_index(names, wanted) {
            Some(i) => 0 <= i < names.len() && base_name(names[i]) == wanted && forall|j: int|
                0 <= j < i ==> base_name(#[trigger] names[j]) != wanted,
            None => forall|j: int| 0 <= j < names.len() ==> base_name(#[trigger] names[j]) != wanted,
        },
    decreases names.len(),
{
    if names.len() > 0 {
        let front = names.drop_last();
        lemma_member_index(front, wanted);
        match member_index(front, wanted) {
            Some(i) => {
                assert(names[i] == front[i]);
                assert forall|j: int| 0 <= j < i implies base_name(#[trigger] names[j])
                    != wanted by {
                    assert(names[j] == front[j]);
                }
            },
            None => {
                assert forall|j: int| 0 <= j < names.len() - 1 implies base_name(
                    #[trigger] names[j],
                ) != wanted by {
                    assert(names[j] == front[j]);
                }
            },
        }
    }
}

/// Finds the archive member to extract: the first one whose name ends in the
/// component `wanted`.
pub fn find_member(names: &Vec<String>, wanted: &str) -> (found: Option<usize>)
    ensures
        match found {
            Some(i) => member_index(texts(names@), wanted@) == Some(i as int),
            None => member_index(texts(names@), wanted@) is None,
        },
{
    let ghost all = texts(names@);
    let mut i: usize = 0;
    proof {
        lemma_member_index(all, wanted@);
    }
    while i < names.len()
        invariant
            i <= names.len(),
            all == texts(names@),
            forall|j: int| 0 <= j < i ==> base_name(#[trigger] all[j]) != wanted@,
        decreases names.len() - i,
    {
        if has_base_name(names[i].as_str(), wanted) {
            proof {
                lemma_member_index(all, wanted@);
                assert(base_name(all[i as int]) == wanted@);
            }
            return Some(i);
        }
        i += 1;
    }
    proof {
        lemma_member_index(all, wanted@);
    }
    None
}

/// The arguments for `tar` that unpack an archive into a directory and leave
/// out the leading components of each member's path.
pub open spec fn tar_command(archive: Seq<char>, directory: Seq<char>, strip: u32) -> Seq<
    Seq<char>,
> {
    seq!["-xf"@, archive, "-C"@, directory, "--strip-components="@ + decimal(strip as nat)]
}

/// Lists the arguments for `tar`.
pub fn tar_arguments(archive: &str, directory: &str, strip: u32) -> (arguments: Vec<String>)
    ensures
        texts(arguments@) == tar_command(archive@, directory@, strip),
{
    let mut last = "--strip-components=".to_owned();
    push_decimal(&mut last, strip as u64);
    let mut arguments: Vec<String> = Vec::new();
    arguments.push("-xf".to_owned());
    arguments.push(archive.to_owned());
    arguments.push("-C".to_owned());
    arguments.push(directory.to_owned());
    arguments.push(last);
    assert(texts(arguments@) =~= tar_command(archive@, directory@, strip));
    arguments
}

/// Whether a server's status code stands for success.
pub open spec fn is_success(status: u16) -> bool {
    200 <= status < 300
}

/// How many leading components of a member's path the unpacking of a tar
/// archive leaves out: the archive's one top-level directory.
pub const STRIPPED_COMPONENTS: u32 = 1;

/// Where an installation stands.
#[derive(Clone, Copy, Debug, PartialEq, Eq, Structural)]
pub enum InstallPhase {
    /// The managed directory is being made.
    Preparing,
    /// The source has been asked and its answer is awaited.
    Requesting,
    /// The download is being written to its file.
    Fetching,
    /// The members of the archive are being listed.
    Listing,
    /// The archive is being unpacked.
    Unpacking,
    /// The unpacking directory is being searched for the executable.
    Locating,
    /// The executable, not yet in place, is being given its permission bits.
    Marking,
    /// The executable is being moved to its name.
    Placing,
    /// The download is being removed.
    Cleaning,
    /// What else the installation left on its way is being removed.
    Clearing,
    /// The installation is over.
    Finished,
}

/// What the driver of an installation reports back.
#[derive(Debug, PartialEq, Eq)]
pub enum InstallEvent {
    /// The last thing asked for is done.
    Done,
    /// The last thing asked for could not be done; the text says why.
    Failed(String),
    /// The names asked for: of an archive's members, or of a directory's files.
    Names(Vec<String>),
    /// The source answered with this status code.
    Status(u16),
}

/// What an `InstallEvent` holds, as mathematical values.
pub enum InstallEventModel {
    Done,
    Failed(Seq<char>),
    Names(Seq<Seq<char>>),
    Status(u16),
}

impl View for InstallEvent {
    type V = InstallEventModel;

    open spec fn view(&self) -> InstallEventModel {
        match *self {
            InstallEvent::Done => InstallEventModel::Done,
            InstallEvent::Failed(reason) => InstallEventModel::Failed(reason@),
            InstallEvent::Names(names) => InstallEventModel::Names(texts(names@)),
            InstallEvent::Status(code) => InstallEventModel::Status(code),
        }
    }
}

/// What the driver of an installation is to do next. File and directory
/// names are names in the managed directory.
#[derive(Debug, PartialEq, Eq)]
pub enum InstallAction {
    /// Make the managed directory, where it does not exist.
    EnsureDirectory,
    /// Ask the source for the download and report its status code.
    Request { url: String },
    /// Write the download to this file, piece by piece as it arrives.
    Store { into: String },
    /// Report the names of the archive's members.
    ListArchive { archive: String },
    /// Write the member with this index to this file.
    ExtractMember { archive: String, index: usize, into: String },
    /// Make this directory and unpack the archive into it, leaving out this
    /// many leading components of each member's path.
    Untar { archive: String, into: String, strip_components: u32 },
    /// Report the names of the files in this directory.
    ListUnpacked { directory: String },
    /// Give a file these permission bits.
    SetMode { file: String, mode: u32 },
    /// Move a file to another name, in one step: the other name holds the
    /// whole file afterwards, or what it held before.
    Rename { from: String, into: String },
    /// Remove a file; whether that works does not matter.
    Remove { file: String },
    /// Remove a directory with all that it holds; whether that works does
    /// not matter.
    RemoveTree { directory: String },
    /// Stop: the installation is over.
    Finish(Result<(), InstallError>),
}

/// What an `InstallAction` holds, as mathematical values.
pub enum ActionModel {
    EnsureDirectory,
    Request { url: Seq<char> },
    Store { into: Seq<char> },
    ListArchive { archive: Seq<char> },
    ExtractMember { archive: Seq<char>, index: int, into: Seq<char> },
    Untar { archive: Seq<char>, into: Seq<char>, strip_components: u32 },
    ListUnpacked { directory: Seq<char> },
    SetMode { file: Seq<char>, mode: u32 },
    Rename { from: Seq<char>, into: Seq<char> },
    Remove { file: Seq<char> },
    RemoveTree { directory: Seq<char> },
    Finish(Result<(), InstallErrorModel>),
}

impl View for InstallAction {
    type V = ActionModel;

    open spec fn view(&self) -> ActionModel {
        match *self {
            InstallAction::EnsureDirectory => ActionModel::EnsureDirectory,
            InstallAction::Request { url } => ActionModel::Request { url: url@ },
            InstallAction::Store { into } => ActionModel::Store { into: into@ },
            InstallAction::ListArchive { archive } => ActionModel::ListArchive {
                archive: archive@,
            },
            InstallAction::ExtractMember { archive, index, into } => ActionModel::ExtractMember {
                archive: archive@,
                index: index as int,
                into: into@,
            },
            InstallAction::Untar { archive, into, strip_components } => ActionModel::Untar {
                archive: archive@,
                into: into@,
                strip_components,
            },
            InstallAction::ListUnpacked { directory } => ActionModel::ListUnpacked {
                directory: directory@,
            },
            InstallAction::SetMode { file, mode } => ActionModel::SetMode { file: file@, mode },
            InstallAction::Rename { from, into } => ActionModel::Rename {
                from: from@,
                into: into@,
            },
            InstallAction::Remove { file } => ActionModel::Remove { file: file@ },
            InstallAction::RemoveTree { directory } => ActionModel::RemoveTree {
                directory: directory@,
            },
            InstallAction::Finish(Ok(_)) => ActionModel::Finish(Ok(())),
            InstallAction::Finish(Err(e)) => ActionModel::Finish(Err(e@)),
        }
    }
}

/// An installation after an event: its phase, the failure it has met, and
/// what is to be done next.
pub struct Reaction {
    pub phase: InstallPhase,
    pub failure: Option<InstallErrorModel>,
    pub action: ActionModel,
}

/// What an event says went wrong; nothing where it does not say.
pub open spec fn complaint(event: InstallEventModel) -> Seq<char> {
    match event {
        InstallEventModel::Failed(reason) => reason,
        _ => Seq::empty(),
    }
}

/// What is said of a source that answers with a status other than success.
pub open spec fn status_complaint(status: u16) -> Seq<char> {
    "HTTP status "@ + decimal(status as nat)
}

/// What is said of an archive that lacks the executable.
pub open spec fn missing_complaint(name: Seq<char>) -> Seq<char> {
    name + " not found in the archive"@
}

/// What is said of a `tar` that could not be started.
pub open spec fn tar_start_complaint(reason: Seq<char>) -> Seq<char> {
    "Failed to extract tar: "@ + reason
}

/// What is said of a `tar` that ended with a failure.
pub open spec fn tar_complaint(diagnostic: Seq<char>) -> Seq<char> {
    "Tar extraction failed: "@ + diagnostic
}

/// The end of an installation that fails before anything was written.
pub open spec fn give_up(error: InstallErrorModel) -> Reaction {
    Reaction {
        phase: InstallPhase::Finished,
        failure: Some(error),
        action: ActionModel::Finish(Err(error)),
    }
}

/// The way out of an installation that fails after the download was begun:
/// the download is removed first.
pub open spec fn clean_up(plan: PlanModel, error: InstallErrorModel) -> Reaction {
    Reaction {
        phase: InstallPhase::Cleaning,
        failure: Some(error),
        action: ActionModel::Remove { file: plan.download_name },
    }
}

/// The executable is moved to its name.
pub open spec fn place(plan: PlanModel) -> Reaction {
    Reaction {
        phase: InstallPhase::Placing,
        failure: None,
        action: ActionModel::Rename { from: plan.staged_name, into: plan.final_name },
    }
}

/// What follows once the executable is whole under its staging name: it gets
/// its permission bits there, where the plan has some, and is moved to its
/// name after that.
pub open spec fn stage(plan: PlanModel) -> Reaction {
    match plan.mode {
        Some(mode) => Reaction {
            phase: InstallPhase::Marking,
            failure: None,
            action: ActionModel::SetMode { file: plan.staged_name, mode },
        },
        None => place(plan),
    }
}

/// What an installation leaves on its way besides the download, and how it
/// is removed: the staging file of a zip archive, the unpacking directory of
/// a tar archive.
pub open spec fn leftover(plan: PlanModel) -> Option<ActionModel> {
    match plan.packaging {
        Packaging::Plain => None,
        Packaging::Zip => Some(ActionModel::Remove { file: plan.staged_name }),
        Packaging::TarXz => Some(ActionModel::RemoveTree { directory: plan.unpack_dir }),
    }
}

/// An installation that goes on.
pub open spec fn go_on(phase: InstallPhase, action: ActionModel) -> Reaction {
    Reaction { phase, failure: None, action }
}

/// How an installation ends, given the failure it has met.
pub open spec fn verdict(failure: Option<InstallErrorModel>) -> Result<(), InstallErrorModel> {
    match failure {
        Some(error) => Err(error),
        None => Ok(()),
    }
}

/// The end of an installation.
pub open spec fn finish(failure: Option<InstallErrorModel>) -> Reaction {
    Reaction {
        phase: InstallPhase::Finished,
        failure,
        action: ActionModel::Finish(verdict(failure)),
    }
}

/// How an installation answers an event. The managed directory is made, the
/// source is asked, and the download is written to a file of its own. The
/// executable is made whole under a staging name: it is the download itself,
/// or the archive member of its name written to a file of its own, or the
/// file of its name in the directory into which a tar archive was unpacked.
/// There it gets its permission bits. Only after that it is moved to its
/// name, in one step. Last the download and what else was left on the way
/// are removed. An event that the phase does not await counts as a failure
/// that says nothing. A failure before the download was begun ends the
/// installation; a later one ends it once everything has been removed; how
/// the removals go changes nothing.
pub open spec fn react(
    plan: PlanModel,
    phase: InstallPhase,
    failure: Option<InstallErrorModel>,
    event: InstallEventModel,
) -> Reaction {
    let said = complaint(event);
    match phase {
        InstallPhase::Preparing => match event {
            InstallEventModel::Done => go_on(
                InstallPhase::Requesting,
                ActionModel::Request { url: plan.url },
            ),
            _ => give_up(InstallErrorModel::Environment(said)),
        },
        InstallPhase::Requesting => match event {
            InstallEventModel::Status(status) => if is_success(status) {
                go_on(InstallPhase::Fetching, ActionModel::Store { into: plan.download_name })
            } else {
                give_up(InstallErrorModel::Network(status_complaint(status)))
            },
            _ => give_up(InstallErrorModel::Network(said)),
        },
        InstallPhase::Fetching => match event {
            InstallEventModel::Done => match plan.packaging {
                Packaging::Plain => stage(plan),
                Packaging::Zip => go_on(
                    InstallPhase::Listing,
                    ActionModel::ListArchive { archive: plan.download_name },
                ),
                Packaging::TarXz => go_on(
                    InstallPhase::Unpacking,
                    ActionModel::Untar {
                        archive: plan.download_name,
                        into: plan.unpack_dir,
                        strip_components: STRIPPED_COMPONENTS,
                    },
                ),
            },
            _ => clean_up(plan, InstallErrorModel::Network(said)),
        },
        InstallPhase::Listing => match event {
            InstallEventModel::Names(names) => match member_index(names, plan.final_name) {
                Some(index) => go_on(
                    InstallPhase::Unpacking,
                    ActionModel::ExtractMember {
                        archive: plan.download_name,
                        index,
                        into: plan.staged_name,
                    },
                ),
                None => clean_up(
                    plan,
                    InstallErrorModel::Archive(missing_complaint(plan.final_name)),
                ),
            },
            _ => clean_up(plan, InstallErrorModel::Archive(said)),
        },
        InstallPhase::Unpacking => match event {
            InstallEventModel::Done => match plan.packaging {
                Packaging::TarXz => go_on(
                    InstallPhase::Locating,
                    ActionModel::ListUnpacked { directory: plan.unpack_dir },
                ),
                _ => stage(plan),
            },
            _ => clean_up(plan, InstallErrorModel::Archive(said)),
        },
        InstallPhase::Locating => match event {
            InstallEventModel::Names(names) => if names.contains(plan.final_name) {
                stage(plan)
            } else {
                clean_up(plan, InstallErrorModel::Archive(missing_complaint(plan.final_name)))
            },
            _ => clean_up(plan, InstallErrorModel::Environment(said)),
        },
        InstallPhase::Marking => match event {
            InstallEventModel::Done => place(plan),
            _ => clean_up(plan, InstallErrorModel::Environment(said)),
        },
        InstallPhase::Placing => match event {
            InstallEventModel::Done => go_on(
                InstallPhase::Cleaning,
                ActionModel::Remove { file: plan.download_name },
            ),
            _ => clean_up(plan, InstallErrorModel::Environment(said)),
        },
        InstallPhase::Cleaning => match leftover(plan) {
            Some(action) => Reaction { phase: InstallPhase::Clearing, failure, action },
            None => finish(failure),
        },
        InstallPhase::Clearing => finish(failure),
        InstallPhase::Finished => finish(failure),
    }
}

/// The failure that an installation has met, as mathematical values.
pub open spec fn failure_model(failure: Option<InstallError>) -> Option<InstallErrorModel> {
    match failure {
        Some(error) => Some(error@),
        None => None,
    }
}

/// What came of running `tar`, as an event of the installation: done where
/// it ended with success; else a failure that says why it did not start, or
/// what it wrote to its error stream.
pub fn untar_event(outcome: &ProcessOutcome) -> (event: InstallEvent)
    ensures
        match *outcome {
            ProcessOutcome::NotStarted(reason) => event@ == InstallEventModel::Failed(
                tar_start_complaint(reason@),
            ),
            ProcessOutcome::Ended { success, stdout, stderr } => if success {
                event@ is Done
            } else {
                &&& event@ == InstallEventModel::Failed(tar_complaint(lossy_text(stderr@)))
                &&& valid_utf8(stderr@) ==> event@ == InstallEventModel::Failed(
                    tar_complaint(decode_utf8(stderr@)),
                )
            },
        },
{
    match outcome {
        ProcessOutcome::NotStarted(reason) => {
            let mut said = "Failed to extract tar: ".to_owned();
            said.append(reason.as_str());
            InstallEvent::Failed(said)
        },
        ProcessOutcome::Ended { success, stdout, stderr } => {
            if *success {
                InstallEvent::Done
            } else {
                let diagnostic = read_lossy(stderr.as_slice());
                let mut said = "Tar extraction failed: ".to_owned();
                said.append(diagnostic.as_str());
                InstallEvent::Failed(said)
            }
        },
    }
}

/// An installation under way.
#[derive(Debug, PartialEq, Eq)]
pub struct Installer {
    pub plan: InstallPlan,
    pub phase: InstallPhase,
    pub failure: Option<InstallError>,
}

/// An error with the same content.
fn same_error(error: &InstallError) -> (copy: InstallError)
    ensures
        copy@ == error@,
{
    match error {
        InstallError::Environment(reason) => InstallError::Environment(reason.clone()),
        InstallError::UnsupportedPlatform => InstallError::UnsupportedPlatform,
        InstallError::UnsupportedTool => InstallError::UnsupportedTool,
        InstallError::Network(reason) => InstallError::Network(reason.clone()),
        InstallError::Archive(reason) => InstallError::Archive(reason.clone()),
    }
}

/// What an event says went wrong.
fn said_by(event: InstallEvent) -> (said: String)
    ensures
        said@ == complaint(event@),
{
    match event {
        InstallEvent::Failed(reason) => reason,
        _ => String::new(),
    }
}

/// What is said of an archive that lacks the executable.
fn missing(name: &str) -> (said: String)
    ensures
        said@ == missing_complaint(name@),
{
    let mut said = name.to_owned();
    said.append(" not found in the archive");
    said
}

impl Installer {
    /// The installer's state as `react` sees it after a step.
    pub open spec fn reaction(self, action: InstallAction) -> Reaction {
        Reaction { phase: self.phase, failure: failure_model(self.failure), action: action@ }
    }

    /// Opens an installation: the managed directory is to be made.
    pub fn begin(plan: InstallPlan) -> (r: (Installer, InstallAction))
        ensures
            r.0.plan == plan,
            r.0.phase == InstallPhase::Preparing,
            r.0.failure is None,
            r.1@ == ActionModel::EnsureDirectory,
    {
        (
            Installer { plan, phase: InstallPhase::Preparing, failure: None },
            InstallAction::EnsureDirectory,
        )
    }

    fn give_up(&mut self, error: InstallError) -> (action: InstallAction)
        ensures
            final(self).plan == old(self).plan,
            final(self).reaction(action) == give_up(error@),
    {
        let reported = same_error(&error);
        self.phase = InstallPhase::Finished;
        self.failure = Some(error);
        InstallAction::Finish(Err(reported))
    }

    fn clean_up(&mut self, error: InstallError) -> (action: InstallAction)
        ensures
            final(self).plan == old(self).plan,
            final(self).reaction(action) == clean_up(old(self).plan@, error@),
    {
        self.phase = InstallPhase::Cleaning;
        self.failure = Some(error);
        InstallAction::Remove { file: self.plan.download_name.to_owned() }
    }

    fn place(&mut self) -> (action: InstallAction)
        ensures
            final(self).plan == old(self).plan,
            final(self).reaction(action) == place(old(self).plan@),
    {
        self.phase = InstallPhase::Placing;
        self.failure = None;
        InstallAction::Rename {
            from: self.plan.staged_name.to_owned(),
            into: self.plan.final_name.to_owned(),
        }
    }

    fn stage(&mut self) -> (action: InstallAction)
        ensures
            final(self).plan == old(self).plan,
            final(self).reaction(action) == stage(old(self).plan@),
    {
        match self.plan.mode {
            Some(mode) => {
                self.phase = InstallPhase::Marking;
                self.failure = None;
                InstallAction::SetMode { file: self.plan.staged_name.to_owned(), mode }
            },
            None => self.place(),
        }
    }

    fn go_on(&mut self, phase: InstallPhase, action: InstallAction) -> (same: InstallAction)
        ensures
            final(self).plan == old(self).plan,
            final(self).reaction(same) == go_on(phase, action@),
    {
        self.phase = phase;
        self.failure = None;
        action
    }

    fn finish(&mut self) -> (action: InstallAction)
        ensures
            final(self).plan == old(self).plan,
            final(self).reaction(action) == finish(failure_model(old(self).failure)),
    {
        self.phase = InstallPhase::Finished;
        match &self.failure {
            Some(error) => InstallAction::Finish(Err(same_error(error))),
            None => InstallAction::Finish(Ok(())),
        }
    }

    fn clear(&mut self) -> (action: InstallAction)
        ensures
            final(self).plan == old(self).plan,
            final(self).reaction(action) == match leftover(old(self).plan@) {
                Some(removal) => Reaction {
                    phase: InstallPhase::Clearing,
                    failure: failure_model(old(self).failure),
                    action: removal,
                },
                None => finish(failure_model(old(self).failure)),
            },
    {
        match self.plan.packaging {
            Packaging::Plain => self.finish(),
            Packaging::Zip => {
                self.phase = InstallPhase::Clearing;
                InstallAction::Remove { file: self.plan.staged_name.to_owned() }
            },
            Packaging::TarXz => {
                self.phase = InstallPhase::Clearing;
                InstallAction::RemoveTree { directory: self.plan.unpack_dir.to_owned() }
            },
        }
    }

    /// Takes the installation one event further.
    pub fn step(&mut self, event: InstallEvent) -> (action: InstallAction)
        ensures
            final(self).plan == old(self).plan,
            final(self).reaction(action) == react(
                old(self).plan@,
                old(self).phase,
                failure_model(old(self).failure),
                event@,
            ),
    {
        let plan = self.plan;
        match self.phase {
            InstallPhase::Preparing => match event {
                InstallEvent::Done => self.go_on(
                    InstallPhase::Requesting,
                    InstallAction::Request { url: plan.url.to_owned() },
                ),
                other => self.give_up(InstallError::Environment(said_by(other))),
            },
            InstallPhase::Requesting => match event {
                InstallEvent::Status(status) => {
                    if 200 <= status && status < 300 {
                        self.go_on(
                            InstallPhase::Fetching,
                            InstallAction::Store { into: plan.download_name.to_owned() },
                        )
                    } else {
                        let mut said = "HTTP status ".to_owned();
                        push_decimal(&mut said, status as u64);
                        self.give_up(InstallError::Network(said))
                    }
                },
                other => self.give_up(InstallError::Network(said_by(other))),
            },
            InstallPhase::Fetching => match event {
                InstallEvent::Done => match plan.packaging {
                    Packaging::Plain => self.stage(),
                    Packaging::Zip => self.go_on(
                        InstallPhase::Listing,
                        InstallAction::ListArchive { archive: plan.download_name.to_owned() },
                    ),
                    Packaging::TarXz => self.go_on(
                        InstallPhase::Unpacking,
                        InstallAction::Untar {
                            archive: plan.download_name.to_owned(),
                            into: plan.unpack_dir.to_owned(),
                            strip_components: STRIPPED_COMPONENTS,
                        },
                    ),
                },
                other => self.clean_up(InstallError::Network(said_by(other))),
            },
            InstallPhase::Listing => match event {
                InstallEvent::Names(names) => match find_member(&names, plan.final_name) {
                    Some(index) => self.go_on(
                        InstallPhase::Unpacking,
                        InstallAction::ExtractMember {
                            archive: plan.download_name.to_owned(),
                            index,
                            into: plan.staged_name.to_owned(),
                        },
                    ),
                    None => self.clean_up(InstallError::Archive(missing(plan.final_name))),
                },
                other => self.clean_up(InstallError::Archive(said_by(other))),
            },
            InstallPhase::Unpacking => match event {
                InstallEvent::Done => match plan.packaging {
                    Packaging::TarXz => self.go_on(
                        InstallPhase::Locating,
                        InstallAction::ListUnpacked { directory: plan.unpack_dir.to_owned() },
                    ),
                    _ => self.stage(),
                },
                other => self.clean_up(InstallError::Archive(said_by(other))),
            },
            InstallPhase::Locating => match event {
                InstallEvent::Names(names) => {
                    if holds_text(&names, plan.final_name) {
                        self.stage()
                    } else {
                        self.clean_up(InstallError::Archive(missing(plan.final_name)))
                    }
                },
                other => self.clean_up(InstallError::Environment(said_by(other))),
            },
            InstallPhase::Marking => match event {
                InstallEvent::Done => self.place(),
                other => self.clean_up(InstallError::Environment(said_by(other))),
            },
            InstallPhase::Placing => match event {
                InstallEvent::Done => self.go_on(
                    InstallPhase::Cleaning,
                    InstallAction::Remove { file: plan.download_name.to_owned() },
                ),
                other => self.clean_up(InstallError::Environment(said_by(other))),
            },
            InstallPhase::Cleaning => self.clear(),
            InstallPhase::Clearing => self.finish(),
            InstallPhase::Finished => self.finish(),
        }
    }
}

/// What an installation has come to after a run of events: its phase, the
/// failure it has met, and everything it has asked for, in order. The event
/// at a place answers the action at that place.
pub struct Course {
    pub phase: InstallPhase,
    pub failure: Option<InstallErrorModel>,
    pub actions: Seq<ActionModel>,
}

/// What an installation comes to when it meets `events` one after another.
pub open spec fn run(plan: PlanModel, events: Seq<InstallEventModel>) -> Course
    decreases events.len(),
{
    if events.len() == 0 {
        Course {
            phase: InstallPhase::Preparing,
            failure: None,
            actions: seq![ActionModel::EnsureDirectory],
        }
    } else {
        let before = run(plan, events.drop_last());
        let r = react(plan, before.phase, before.failure, events.last());
        Course { phase: r.phase, failure: r.failure, actions: before.actions.push(r.action) }
    }
}

/// Whether an action writes to a name, changes what is there, or takes it
/// away.
pub open spec fn touches(action: ActionModel, name: Seq<char>) -> bool {
    match action {
        ActionModel::Store { into } => into == name,
        ActionModel::ExtractMember { archive, index, into } => into == name,
        ActionModel::Untar { archive, into, strip_components } => into == name,
        ActionModel::SetMode { file, mode } => file == name,
        ActionModel::Rename { from, into } => from == name || into == name,
        ActionModel::Remove { file } => file == name,
        ActionModel::RemoveTree { directory } => directory == name,
        _ => false,
    }
}

/// The move that puts the executable in place.
pub open spec fn last_move(plan: PlanModel) -> ActionModel {
    ActionModel::Rename { from: plan.staged_name, into: plan.final_name }
}

/// Whether one of the actions writes the download to its file.
pub open spec fn has_stored(actions: Seq<ActionModel>) -> bool {
    exists|j: int| 0 <= j < actions.len() && #[trigger] actions[j] is Store
}

/// Whether the executable was moved to its name, and the move was done.
pub open spec fn placed(
    plan: PlanModel,
    actions: Seq<ActionModel>,
    events: Seq<InstallEventModel>,
) -> bool {
    exists|j: int|
        0 <= j < events.len() && j < actions.len() && #[trigger] actions[j] == last_move(plan)
            && events[j] is Done
}

/// Whether the executable was given the plan's permission bits under its
/// staging name, where the plan has some, and that was done.
pub open spec fn marked(
    plan: PlanModel,
    actions: Seq<ActionModel>,
    events: Seq<InstallEventModel>,
) -> bool {
    plan.mode is Some ==> exists|j: int|
        0 <= j < events.len() && j < actions.len() && #[trigger] actions[j] == (
        ActionModel::SetMode { file: plan.staged_name, mode: plan.mode->0 }) && events[j] is Done
}

/// Whether an installation ends by removing what it left on its way: the
/// action before the end at place `i` removes the last of it, and where the
/// download is not all there is, the action before that removes the
/// download.
pub open spec fn ends_clean(plan: PlanModel, actions: Seq<ActionModel>, i: int) -> bool {
    match leftover(plan) {
        None => actions[i - 1] == (ActionModel::Remove { file: plan.download_name }),
        Some(removal) => i >= 2 && actions[i - 1] == removal && actions[i - 2] == (
        ActionModel::Remove { file: plan.download_name }),
    }
}

/// Every action of an installation leaves the executable's name alone,
/// unless it is the move that puts the executable in place.
proof fn lemma_react_keeps_apart(
    plan: PlanModel,
    phase: InstallPhase,
    failure: Option<InstallErrorModel>,
    event: InstallEventModel,
)
    requires
        plan.keeps_apart(),
    ensures
        touches(react(plan, phase, failure, event).action, plan.final_name) ==> react(
            plan,
            phase,
            failure,
            event,
        ).action == last_move(plan),
{
}

/// What holds of every course.
spec fn steady(plan: PlanModel, events: Seq<InstallEventModel>, course: Course) -> bool {
    let actions = course.actions;
    let n = events.len() as int;
    let phase = course.phase;
    let early = phase == InstallPhase::Preparing || phase == InstallPhase::Requesting;
    let late = phase == InstallPhase::Cleaning || phase == InstallPhase::Clearing || phase
        == InstallPhase::Finished;
    &&& actions.len() == n + 1
    &&& early ==> !has_stored(actions)
    &&& phase != InstallPhase::Finished ==> forall|j: int|
        0 <= j < actions.len() ==> !(#[trigger] actions[j] is Finish)
    &&& phase == InstallPhase::Finished ==> actions.last() == ActionModel::Finish(
        verdict(course.failure),
    )
    &&& !late ==> course.failure is None
    &&& !late && phase != InstallPhase::Placing ==> forall|j: int|
        0 <= j < actions.len() ==> !(#[trigger] actions[j] is Rename)
    &&& phase == InstallPhase::Placing ==> actions.last() == last_move(plan) && forall|j: int|
        0 <= j < n ==> !(#[trigger] actions[j] is Rename)
    &&& late ==> forall|j: int|
        0 <= j < actions.len() && (#[trigger] actions[j]) is Rename ==> j < n && (events[j] is Done
            ==> course.failure is None)
    &&& late && course.failure is None ==> placed(plan, actions, events) && marked(
        plan,
        actions,
        events,
    )
    &&& phase == InstallPhase::Marking ==> plan.mode is Some && actions.last() == (
    ActionModel::SetMode { file: plan.staged_name, mode: plan.mode->0 })
    &&& phase == InstallPhase::Placing ==> marked(plan, actions, events)
    &&& phase == InstallPhase::Cleaning ==> actions.last() == (ActionModel::Remove {
        file: plan.download_name,
    })
    &&& phase == InstallPhase::Clearing ==> n >= 1 && leftover(plan) == Some(actions.last())
        && actions[n - 1] == (ActionModel::Remove { file: plan.download_name })
    &&& forall|i: int|
        0 < i < actions.len() && (#[trigger] actions[i]) is Finish && !(actions[i - 1] is Finish)
            && has_stored(actions.take(i)) ==> ends_clean(plan, actions, i)
}

proof fn lemma_steady(plan: PlanModel, events: Seq<InstallEventModel>)
    ensures
        steady(plan, events, run(plan, events)),
    decreases events.len(),
{
    let course = run(plan, events);
    if events.len() == 0 {
        assert(!has_stored(course.actions));
    } else {
        let earlier = events.drop_last();
        let before = run(plan, earlier);
        lemma_steady(plan, earlier);
        let r = react(plan, before.phase, before.failure, events.last());
        let old_actions = before.actions;
        let actions = course.actions;
        let n = events.len() as int;
        assert(actions == old_actions.push(r.action));
        assert(actions.len() == n + 1);
        assert(actions.last() == r.action);
        assert(actions[n] == r.action);
        assert forall|j: int| 0 <= j < n implies #[trigger] actions[j] == old_actions[j] by {}
        assert forall|j: int| 0 <= j < n - 1 implies #[trigger] events[j] == earlier[j] by {}
        assert(events[n - 1] == events.last());
        if has_stored(actions) && !(r.action is Store) {
            let j = choose|j: int| 0 <= j < actions.len() && #[trigger] actions[j] is Store;
            assert(old_actions[j] is Store);
            assert(has_stored(old_actions));
        }
        if placed(plan, old_actions, earlier) {
            let j = choose|j: int|
                0 <= j < earlier.len() && j < old_actions.len() && #[trigger] old_actions[j]
                    == last_move(plan) && earlier[j] is Done;
            assert(actions[j] == old_actions[j]);
            assert(events[j] == earlier[j]);
            assert(placed(plan, actions, events));
        }
        if plan.mode is Some && marked(plan, old_actions, earlier) {
            let j = choose|j: int|
                0 <= j < earlier.len() && j < old_actions.len() && #[trigger] old_actions[j] == (
                ActionModel::SetMode { file: plan.staged_name, mode: plan.mode->0 })
                    && earlier[j] is Done;
            assert(actions[j] == old_actions[j]);
            assert(events[j] == earlier[j]);
            assert(marked(plan, actions, events));
        }
        if before.phase == InstallPhase::Marking && events.last() is Done {
            assert(actions[n - 1] == old_actions.last());
            assert(marked(plan, actions, events));
        }
        if before.phase == InstallPhase::Placing && events.last() is Done {
            assert(actions[n - 1] == old_actions.last());
            assert(placed(plan, actions, events));
        }
        if course.phase == InstallPhase::Clearing {
            assert(actions[n - 1] == old_actions.last());
        }
        assert forall|i: int|
            0 < i < actions.len() && (#[trigger] actions[i]) is Finish && !(actions[i - 1] is Finish)
                && has_stored(actions.take(i)) implies ends_clean(plan, actions, i) by {
            if i < n {
                assert(actions.take(i) =~= old_actions.take(i));
                assert(actions[i] == old_actions[i]);
                assert(actions[i - 1] == old_actions[i - 1]);
                if i >= 2 {
                    assert(actions[i - 2] == old_actions[i - 2]);
                }
                assert(ends_clean(plan, old_actions, i));
            } else {
                assert(actions.take(i) =~= old_actions);
                assert(actions[i - 1] == old_actions.last());
                if i >= 2 {
                    assert(actions[i - 2] == old_actions[i - 2]);
                }
            }
        }
        assert(steady(plan, events, course));
    }
}

/// Nothing but the last move touches the executable's name: in every course
/// of a plan that keeps its names apart, an action that writes to that name,
/// changes what is there or takes it away is the move of the staged
/// executable to it.
pub proof fn lemma_only_the_last_move_touches_the_executable(
    plan: PlanModel,
    events: Seq<InstallEventModel>,
    j: int,
)
    requires
        plan.keeps_apart(),
        0 <= j < run(plan, events).actions.len(),
        touches(run(plan, events).actions[j], plan.final_name),
    ensures
        run(plan, events).actions[j] == last_move(plan),
    decreases events.len(),
{
    if events.len() > 0 {
        let before = run(plan, events.drop_last());
        if j < before.actions.len() {
            assert(run(plan, events).actions[j] == before.actions[j]);
            lemma_only_the_last_move_touches_the_executable(plan, events.drop_last(), j);
        } else {
            lemma_react_keeps_apart(plan, before.phase, before.failure, events.last());
        }
    }
}

/// An installation that has met a failure has left the executable's name as
/// it was: if it has asked for anything that touches that name, it was the
/// last move, and the move was not done.
pub proof fn lemma_failure_leaves_the_executable_alone(
    plan: PlanModel,
    events: Seq<InstallEventModel>,
    j: int,
)
    requires
        plan.keeps_apart(),
        run(plan, events).failure is Some,
        0 <= j < run(plan, events).actions.len(),
        touches(run(plan, events).actions[j], plan.final_name),
    ensures
        run(plan, events).actions[j] == last_move(plan),
        j < events.len(),
        !(events[j] is Done),
{
    lemma_only_the_last_move_touches_the_executable(plan, events, j);
    lemma_steady(plan, events);
}

/// An installation that has begun to write its download does not end before
/// it has asked for the removal of the download and of what else it left on
/// its way, whatever went well or wrong.
pub proof fn lemma_download_is_removed(
    plan: PlanModel,
    events: Seq<InstallEventModel>,
    i: int,
)
    requires
        0 < i < run(plan, events).actions.len(),
        run(plan, events).actions[i] is Finish,
        !(run(plan, events).actions[i - 1] is Finish),
        has_stored(run(plan, events).actions.take(i)),
    ensures
        ends_clean(plan, run(plan, events).actions, i),
{
    lemma_steady(plan, events);
}

/// An installation ends with success only when the executable, with its
/// permission bits where the plan has some, was moved to its name and the
/// move was done.
pub proof fn lemma_success_installs(plan: PlanModel, events: Seq<InstallEventModel>)
    requires
        run(plan, events).actions.last() == ActionModel::Finish(Ok(())),
    ensures
        placed(plan, run(plan, events).actions, events),
        marked(plan, run(plan, events).actions, events),
{
    lemma_steady(plan, events);
}

/// How the removals go does not change how an installation ends: whatever
/// the events, the installation ends as the failure it has met says, with
/// success where it has met none.
pub proof fn lemma_cleanup_outcome_ignored(
    plan: PlanModel,
    failure: Option<InstallErrorModel>,
    first: InstallEventModel,
    second: InstallEventModel,
)
    ensures
        ({
            let r = react(plan, InstallPhase::Cleaning, failure, first);
            if r.phase == InstallPhase::Finished {
                r.action == ActionModel::Finish(verdict(failure))
            } else {
                react(plan, r.phase, r.failure, second).action == ActionModel::Finish(
                    verdict(failure),
                )
            }
        }),
{
}

/// After an installation that ended with success the tool counts as
/// installed: the move to the executable's name was done, and every listing
/// of the managed directory that holds the name which that move wrote to
/// holds the name under which `check_binary_exists` looks for the tool.
pub proof fn lemma_installed_tool_is_found(
    tool: ManagedTool,
    platform: Platform,
    events: Seq<InstallEventModel>,
    entries: Seq<String>,
)
    requires
        run(plan_for(tool, platform), events).actions.last() == ActionModel::Finish(Ok(())),
        texts(entries).contains(last_move(plan_for(tool, platform))->Rename_into),
    ensures
        placed(plan_for(tool, platform), run(plan_for(tool, platform), events).actions, events),
        lists(entries, executable_name(tool, platform)),
{
    lemma_success_installs(plan_for(tool, platform), events);
}

} // verus!
