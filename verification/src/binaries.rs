//! The managed tools: their names, the files they live in on each platform,
//! and whether one is installed.

use vstd::prelude::*;
use vstd::string::*;
use crate::error::{InstallError, InstallErrorModel};
use crate::paths::{join_path, joined};
use crate::text::{holds_text, same_text, texts};

verus! {

/// One of the two helper programs.
#[derive(Clone, Copy, Debug, PartialEq, Eq, Structural)]
pub enum ManagedTool {
    Downloader,
    Transcoder,
}

/// The platforms that the library tells apart.
#[derive(Clone, Copy, Debug, PartialEq, Eq, Structural)]
pub enum Platform {
    Windows,
    /// Linux on a 64-bit x86 processor.
    Linux,
    MacOs,
    /// Another Unix-like system, or Linux on another processor.
    OtherUnix,
}

impl Platform {
    /// What an executable's file name ends with.
    pub open spec fn executable_suffix(self) -> Seq<char> {
        match self {
            Platform::Windows => ".exe"@,
            _ => ""@,
        }
    }

    /// Whether executables carry permission bits.
    pub open spec fn is_posix(self) -> bool {
        self != Platform::Windows
    }

    /// The program that shows a directory in the platform's file manager.
    pub open spec fn file_manager(self) -> Seq<char> {
        match self {
            Platform::Windows => "explorer"@,
            Platform::MacOs => "open"@,
            _ => "xdg-open"@,
        }
    }

    /// The program that shows a directory in the platform's file manager.
    pub fn file_manager_command(self) -> (command: &'static str)
        ensures
            command@ == self.file_manager(),
    {
        match self {
            Platform::Windows => "explorer",
            Platform::MacOs => "open",
            _ => "xdg-open",
        }
    }
}

impl ManagedTool {
    /// The tool's file name without a suffix.
    pub open spec fn stem(self) -> Seq<char> {
        match self {
            ManagedTool::Downloader => "yt-dlp"@,
            ManagedTool::Transcoder => "ffmpeg"@,
        }
    }

    /// The name by which callers ask for the tool.
    pub open spec fn external_name(self) -> Seq<char> {
        match self {
            ManagedTool::Downloader => "downloader"@,
            ManagedTool::Transcoder => "transcoder"@,
        }
    }

    /// The tool that a name denotes.
    pub open spec fn named(name: Seq<char>) -> Option<ManagedTool> {
        if name == "downloader"@ {
            Some(ManagedTool::Downloader)
        } else if name == "transcoder"@ {
            Some(ManagedTool::Transcoder)
        } else {
            None
        }
    }

    /// Reads a tool's name. Only `downloader` and `transcoder` are names of
    /// tools; any other text is refused.
    pub fn from_name(name: &str) -> (r: Result<ManagedTool, InstallError>)
        ensures
            match r {
                Ok(tool) => ManagedTool::named(name@) == Some(tool),
                Err(e) => ManagedTool::named(name@) is None && e is UnsupportedTool,
            },
    {
        if same_text(name, "downloader") {
            Ok(ManagedTool::Downloader)
        } else if same_text(name, "transcoder") {
            Ok(ManagedTool::Transcoder)
        } else {
            Err(InstallError::UnsupportedTool)
        }
    }

    /// The name by which callers ask for the tool.
    pub fn name(self) -> (name: &'static str)
        ensures
            name@ == self.external_name(),
    {
        match self {
            ManagedTool::Downloader => "downloader",
            ManagedTool::Transcoder => "transcoder",
        }
    }
}

/// Each tool is the one that its own name denotes.
pub proof fn lemma_name_denotes_its_tool(tool: ManagedTool)
    ensures
        ManagedTool::named(tool.external_name()) == Some(tool),
{
    reveal_strlit("downloader");
    reveal_strlit("transcoder");
    assert("downloader"@[0] != "transcoder"@[0]);
}

/// The file name of a tool's executable on a platform.
pub open spec fn executable_name(tool: ManagedTool, platform: Platform) -> Seq<char> {
    tool.stem() + platform.executable_suffix()
}

/// The file name of a tool's executable on a platform.
pub fn executable_file_name(tool: ManagedTool, platform: Platform) -> (name: &'static str)
    ensures
        name@ == executable_name(tool, platform),
{
    proof {
        reveal_strlit("yt-dlp");
        reveal_strlit("ffmpeg");
        reveal_strlit(".exe");
        reveal_strlit("");
        reveal_strlit("yt-dlp.exe");
        reveal_strlit("ffmpeg.exe");
    }
    let name = match (tool, platform) {
        (ManagedTool::Downloader, Platform::Windows) => "yt-dlp.exe",
        (ManagedTool::Downloader, _) => "yt-dlp",
        (ManagedTool::Transcoder, Platform::Windows) => "ffmpeg.exe",
        (ManagedTool::Transcoder, _) => "ffmpeg",
    };
    assert(name@ =~= executable_name(tool, platform));
    name
}

/// Whether one of the names is exactly `name`.
pub open spec fn lists(entries: Seq<String>, name: Seq<char>) -> bool {
    texts(entries).contains(name)
}

/// Whether a tool is installed: whether the managed directory holds a file
/// under the tool's name for this platform. `entries` are the names of the
/// files found in the directory, none where the directory does not exist.
pub fn check_binary_exists(tool: ManagedTool, platform: Platform, entries: &Vec<String>) -> (found:
    bool)
    ensures
        found == lists(entries@, executable_name(tool, platform)),
        entries@.len() == 0 ==> !found,
{
    holds_text(entries, executable_file_name(tool, platform))
}

/// The directory that holds the managed tools: the directory `bin` in the
/// application's data directory.
pub open spec fn bin_dir_of(data_dir: Seq<char>, platform: Platform) -> Seq<char> {
    joined(data_dir, "bin"@, platform)
}

/// Names the directory that holds the managed tools, given the application's
/// data directory. The same data directory gives the same directory at every
/// call.
pub fn get_bin_dir(data_dir: &str, platform: Platform) -> (dir: String)
    ensures
        dir@ == bin_dir_of(data_dir@, platform),
{
    join_path(data_dir, "bin", platform)
}

/// The names under which the system knows this application: its qualifier,
/// its organization and its own name.
pub open spec fn application_identity() -> (Seq<char>, Seq<char>, Seq<char>) {
    ("com"@, "metool"@, "app"@)
}

/// Calls `directories::ProjectDirs::from` and reads the data directory of
/// what comes back, as text. It is asked for this application only. The
/// answer depends on the user and on the environment, so nothing is said of
/// it.
#[verifier::external_body]
fn project_data_dir(qualifier: &str, organization: &str, application: &str) -> Option<String>
    requires
        (qualifier@, organization@, application@) == application_identity(),
{
    directories::ProjectDirs::from(qualifier, organization, application).map(
        |dirs| dirs.data_dir().to_string_lossy().into_owned(),
    )
}

/// What is said where the user has no home directory to keep data in.
pub open spec fn homeless_complaint() -> Seq<char> {
    "no home directory"@
}

/// Names the directory that holds the managed tools of this user: the
/// directory `bin` in the data directory that the system gives this
/// application. Where the system gives none, that is an environment error.
pub fn resolve_bin_dir(platform: Platform) -> (r: Result<String, InstallError>)
    ensures
        match r {
            Ok(dir) => exists|data: Seq<char>| dir@ == #[trigger] bin_dir_of(data, platform),
            Err(e) => e@ == InstallErrorModel::Environment(homeless_complaint()),
        },
{
    match project_data_dir("com", "metool", "app") {
        Some(data) => {
            let dir = get_bin_dir(data.as_str(), platform);
            assert(dir@ == bin_dir_of(data@, platform));
            Ok(dir)
        },
        None => Err(InstallError::Environment("no home directory".to_owned())),
    }
}

/// A tool with the place of its executable, and whether it is there.
#[derive(Debug, PartialEq, Eq)]
pub struct ToolInstallation {
    pub name: ManagedTool,
    pub path: String,
    pub installed: bool,
}

/// Says where a tool's executable belongs and whether it is there. `bin_dir`
/// is the managed directory and `entries` the names of the files found in
/// it, none where it does not exist.
pub fn locate_tool(
    tool: ManagedTool,
    platform: Platform,
    bin_dir: &str,
    entries: &Vec<String>,
) -> (found: ToolInstallation)
    ensures
        found.name == tool,
        found.path@ == joined(bin_dir@, executable_name(tool, platform), platform),
        found.installed == lists(entries@, executable_name(tool, platform)),
{
    ToolInstallation {
        name: tool,
        path: join_path(bin_dir, executable_file_name(tool, platform), platform),
        installed: check_binary_exists(tool, platform, entries),
    }
}

/// How a tool comes from its source.
#[derive(Clone, Copy, Debug, PartialEq, Eq, Structural)]
pub enum Packaging {
    /// The download is the executable.
    Plain,
    /// The download is a zip archive that holds the executable.
    Zip,
    /// The download is a compressed tar archive that holds the executable
    /// below one top-level directory.
    TarXz,
}

/// The permission bits of an installed executable where the platform has
/// such bits: read, write and execute for the owner, read and execute for
/// everyone else.
pub const EXECUTABLE_MODE: u32 = 0o755;

/// Where a tool is fetched from; `None` where no source is known for the
/// platform.
pub open spec fn source_of(tool: ManagedTool, platform: Platform) -> Option<Seq<char>> {
    match (tool, platform) {
        (ManagedTool::Downloader, Platform::Windows) => Some(
            "https://github.com/yt-dlp/yt-dlp/releases/latest/download/yt-dlp.exe"@,
        ),
        (ManagedTool::Downloader, _) => Some(
            "https://github.com/yt-dlp/yt-dlp/releases/latest/download/yt-dlp"@,
        ),
        (ManagedTool::Transcoder, Platform::Windows) => Some(
            "https://www.gyan.dev/ffmpeg/builds/ffmpeg-release-essentials.zip"@,
        ),
        (ManagedTool::Transcoder, Platform::Linux) => Some(
            "https://johnvansickle.com/ffmpeg/releases/ffmpeg-release-amd64-static.tar.xz"@,
        ),
        (ManagedTool::Transcoder, _) => None,
    }
}

/// How a tool's download is packed.
pub open spec fn packaging_of(tool: ManagedTool, platform: Platform) -> Packaging {
    match (tool, platform) {
        (ManagedTool::Downloader, _) => Packaging::Plain,
        (ManagedTool::Transcoder, Platform::Windows) => Packaging::Zip,
        (ManagedTool::Transcoder, _) => Packaging::TarXz,
    }
}

/// The name under which a tool's download is kept while the installation
/// runs.
pub open spec fn download_name_of(tool: ManagedTool, platform: Platform) -> Seq<char> {
    match (tool, platform) {
        (ManagedTool::Downloader, _) => executable_name(tool, platform) + ".part"@,
        (ManagedTool::Transcoder, Platform::Windows) => "ffmpeg.zip"@,
        (ManagedTool::Transcoder, _) => "ffmpeg.tar.xz"@,
    }
}

/// The directory, in the managed directory, into which a tar archive is
/// unpacked; empty where the download is no tar archive.
pub open spec fn unpack_dir_of(tool: ManagedTool, platform: Platform) -> Seq<char> {
    match packaging_of(tool, platform) {
        Packaging::TarXz => "ffmpeg.unpacked"@,
        _ => ""@,
    }
}

/// The name under which the executable is kept until it is put in place: the
/// download itself where that is the executable, a file of its own for a zip
/// archive's member, the file in the unpacking directory for a tar archive.
pub open spec fn staged_name_of(tool: ManagedTool, platform: Platform) -> Seq<char> {
    match packaging_of(tool, platform) {
        Packaging::Plain => download_name_of(tool, platform),
        Packaging::Zip => executable_name(tool, platform) + ".part"@,
        Packaging::TarXz => unpack_dir_of(tool, platform) + "/"@ + executable_name(tool, platform),
    }
}

/// The permission bits to give an installed executable, where the platform
/// has such bits.
pub open spec fn mode_of(platform: Platform) -> Option<u32> {
    if platform.is_posix() {
        Some(EXECUTABLE_MODE)
    } else {
        None
    }
}

/// What an installation needs to know: the source, the name of the download
/// while it is under way, the directory into which a tar archive is
/// unpacked, the name under which the executable is kept until it is put in
/// place, the name of the executable in the end, how the download is packed,
/// and the permission bits of the executable. All names are names in the
/// managed directory.
#[derive(Clone, Copy, Debug, PartialEq, Eq)]
pub struct InstallPlan {
    pub tool: ManagedTool,
    pub platform: Platform,
    pub url: &'static str,
    pub download_name: &'static str,
    pub unpack_dir: &'static str,
    pub staged_name: &'static str,
    pub final_name: &'static str,
    pub packaging: Packaging,
    pub mode: Option<u32>,
}

/// What an `InstallPlan` holds, as mathematical values.
pub struct PlanModel {
    pub tool: ManagedTool,
    pub platform: Platform,
    pub url: Seq<char>,
    pub download_name: Seq<char>,
    pub unpack_dir: Seq<char>,
    pub staged_name: Seq<char>,
    pub final_name: Seq<char>,
    pub packaging: Packaging,
    pub mode: Option<u32>,
}

impl PlanModel {
    /// Whether nothing that the installation writes on its way stands under
    /// the executable's name: neither the download, nor the unpacking
    /// directory, nor the file in which the executable is kept until it is
    /// put in place.
    pub open spec fn keeps_apart(self) -> bool {
        &&& self.download_name != self.final_name
        &&& self.unpack_dir != self.final_name
        &&& self.staged_name != self.final_name
    }
}

impl View for InstallPlan {
    type V = PlanModel;

    open spec fn view(&self) -> PlanModel {
        PlanModel {
            tool: self.tool,
            platform: self.platform,
            url: self.url@,
            download_name: self.download_name@,
            unpack_dir: self.unpack_dir@,
            staged_name: self.staged_name@,
            final_name: self.final_name@,
            packaging: self.packaging,
            mode: self.mode,
        }
    }
}

/// The plan for a tool on a platform with a known source.
pub open spec fn plan_for(tool: ManagedTool, platform: Platform) -> PlanModel {
    PlanModel {
        tool,
        platform,
        url: source_of(tool, platform)->0,
        download_name: download_name_of(tool, platform),
        unpack_dir: unpack_dir_of(tool, platform),
        staged_name: staged_name_of(tool, platform),
        final_name: executable_name(tool, platform),
        packaging: packaging_of(tool, platform),
        mode: mode_of(platform),
    }
}

/// Plans the installation of a tool. Where no source is known for the
/// platform there is no plan.
pub fn plan_install(tool: ManagedTool, platform: Platform) -> (r: Result<InstallPlan, InstallError>)
    ensures
        source_of(tool, platform) is Some ==> r is Ok && r->Ok_0@ == plan_for(tool, platform),
        source_of(tool, platform) is None ==> r is Err && r->Err_0 is UnsupportedPlatform,
{
    let final_name = executable_file_name(tool, platform);
    let mode = match platform {
        Platform::Windows => None,
        _ => Some(EXECUTABLE_MODE),
    };
    proof {
        reveal_strlit("yt-dlp");
        reveal_strlit("ffmpeg");
        reveal_strlit(".exe");
        reveal_strlit("");
        reveal_strlit(".part");
        reveal_strlit("/");
        reveal_strlit("yt-dlp.part");
        reveal_strlit("yt-dlp.exe.part");
        reveal_strlit("ffmpeg.exe.part");
        reveal_strlit("ffmpeg.unpacked");
        reveal_strlit("ffmpeg.unpacked/ffmpeg");
    }
    let (url, download_name, unpack_dir, staged_name, packaging) = match (tool, platform) {
        (ManagedTool::Downloader, Platform::Windows) => (
            "https://github.com/yt-dlp/yt-dlp/releases/latest/download/yt-dlp.exe",
            "yt-dlp.exe.part",
            "",
            "yt-dlp.exe.part",
            Packaging::Plain,
        ),
        (ManagedTool::Downloader, _) => (
            "https://github.com/yt-dlp/yt-dlp/releases/latest/download/yt-dlp",
            "yt-dlp.part",
            "",
            "yt-dlp.part",
            Packaging::Plain,
        ),
        (ManagedTool::Transcoder, Platform::Windows) => (
            "https://www.gyan.dev/ffmpeg/builds/ffmpeg-release-essentials.zip",
            "ffmpeg.zip",
            "",
            "ffmpeg.exe.part",
            Packaging::Zip,
        ),
        (ManagedTool::Transcoder, Platform::Linux) => (
            "https://johnvansickle.com/ffmpeg/releases/ffmpeg-release-amd64-static.tar.xz",
            "ffmpeg.tar.xz",
            "ffmpeg.unpacked",
            "ffmpeg.unpacked/ffmpeg",
            Packaging::TarXz,
        ),
        (ManagedTool::Transcoder, _) => {
            return Err(InstallError::UnsupportedPlatform);
        },
    };
    assert(download_name@ =~= download_name_of(tool, platform));
    assert(staged_name@ =~= staged_name_of(tool, platform));
    assert(unpack_dir@ =~= unpack_dir_of(tool, platform));
    Ok(
        InstallPlan {
            tool,
            platform,
            url,
            download_name,
            unpack_dir,
            staged_name,
            final_name,
            packaging,
            mode,
        },
    )
}

/// Plans the installation of the tool that a name denotes.
pub fn plan_install_by_name(name: &str, platform: Platform) -> (r: Result<
    InstallPlan,
    InstallError,
>)
    ensures
        match ManagedTool::named(name@) {
            None => r is Err && r->Err_0 is UnsupportedTool,
            Some(tool) => if source_of(tool, platform) is Some {
                r is Ok && r->Ok_0@ == plan_for(tool, platform)
            } else {
                r is Err && r->Err_0 is UnsupportedPlatform
            },
        },
{
    match ManagedTool::from_name(name) {
        Ok(tool) => plan_install(tool, platform),
        Err(e) => Err(e),
    }
}

/// Whatever an installation writes before its last move, it writes under
/// another name than the executable's: the download, the unpacking directory
/// and the file in which the executable is kept until it is put in place all
/// differ from the executable's name. That name is the one under which
/// `check_binary_exists` looks for the tool. Where the platform has
/// permission bits, those of the plan let the owner execute the file.
pub proof fn lemma_plan_is_sound(tool: ManagedTool, platform: Platform)
    ensures
        plan_for(tool, platform).keeps_apart(),
        plan_for(tool, platform).final_name == executable_name(tool, platform),
        platform.is_posix() ==> plan_for(tool, platform).mode is Some && plan_for(
            tool,
            platform,
        ).mode->0 & 0o100 == 0o100,
{
    reveal_strlit("yt-dlp");
    reveal_strlit("ffmpeg");
    reveal_strlit(".exe");
    reveal_strlit("");
    reveal_strlit(".part");
    reveal_strlit("/");
    reveal_strlit("ffmpeg.zip");
    reveal_strlit("ffmpeg.tar.xz");
    reveal_strlit("ffmpeg.unpacked");
    let plan = plan_for(tool, platform);
    match (tool, platform) {
        (ManagedTool::Downloader, _) => {
            assert(plan.download_name.len() == plan.final_name.len() + 5);
            assert(plan.unpack_dir.len() == 0);
            assert(plan.final_name.len() >= 6);
        },
        (ManagedTool::Transcoder, Platform::Windows) => {
            assert(plan.download_name.len() == 10);
            assert(plan.final_name.len() == 6 + 4);
            assert(plan.download_name[7] == 'z');
            assert(plan.final_name[7] == 'e');
            assert(plan.staged_name.len() == plan.final_name.len() + 5);
            assert(plan.unpack_dir.len() == 0);
        },
        (ManagedTool::Transcoder, _) => {
            assert(plan.download_name.len() == 13);
            assert(plan.final_name.len() == 6 + 0);
            assert(plan.unpack_dir.len() == 15);
            assert(plan.staged_name.len() == 15 + 1 + plan.final_name.len());
        },
    }
    assert(0o755u32 & 0o100u32 == 0o100u32) by (bit_vector);
}

} // verus!
