use metool::binaries::{plan_install, InstallPlan, ManagedTool, Platform};
use metool::error::InstallError;
use metool::install::{
    find_member, tar_arguments, untar_event, InstallAction, InstallEvent, InstallPhase, Installer,
};
use metool::probe::ProcessOutcome;

fn names(list: &[&str]) -> Vec<String> {
    let mut out = Vec::new();
    for n in list {
        out.push(n.to_string());
    }
    out
}

fn remove(file: &str) -> InstallAction {
    InstallAction::Remove { file: file.to_string() }
}

fn rename(from: &str, into: &str) -> InstallAction {
    InstallAction::Rename { from: from.to_string(), into: into.to_string() }
}

fn failed(reason: &str) -> InstallEvent {
    InstallEvent::Failed(reason.to_string())
}

fn touches(action: &InstallAction, name: &str) -> bool {
    match action {
        InstallAction::Store { into } => into == name,
        InstallAction::ExtractMember { into, .. } => into == name,
        InstallAction::Untar { into, .. } => into == name,
        InstallAction::SetMode { file, .. } => file == name,
        InstallAction::Rename { from, into } => from == name || into == name,
        InstallAction::Remove { file } => file == name,
        InstallAction::RemoveTree { directory } => directory == name,
        _ => false,
    }
}

/// Runs an installation over the events and returns everything it asked for.
fn course(plan: InstallPlan, events: Vec<InstallEvent>) -> Vec<InstallAction> {
    let (mut installer, first) = Installer::begin(plan);
    let mut actions = vec![first];
    for event in events {
        actions.push(installer.step(event));
    }
    actions
}

fn fetched(plan: InstallPlan) -> Installer {
    let (mut installer, _) = Installer::begin(plan);
    installer.step(InstallEvent::Done);
    installer.step(InstallEvent::Status(200));
    installer
}

#[test]
fn a_plain_download_is_marked_and_moved_into_place() {
    let plan = plan_install(ManagedTool::Downloader, Platform::Linux).unwrap();
    let (mut installer, first) = Installer::begin(plan);
    assert_eq!(first, InstallAction::EnsureDirectory);
    assert_eq!(installer.phase, InstallPhase::Preparing);
    assert_eq!(
        installer.step(InstallEvent::Done),
        InstallAction::Request {
            url: "https://github.com/yt-dlp/yt-dlp/releases/latest/download/yt-dlp".to_string()
        }
    );
    assert_eq!(
        installer.step(InstallEvent::Status(200)),
        InstallAction::Store { into: "yt-dlp.part".to_string() }
    );
    assert_eq!(
        installer.step(InstallEvent::Done),
        InstallAction::SetMode { file: "yt-dlp.part".to_string(), mode: 0o755 }
    );
    assert_eq!(installer.step(InstallEvent::Done), rename("yt-dlp.part", "yt-dlp"));
    assert_eq!(installer.phase, InstallPhase::Placing);
    assert_eq!(installer.step(InstallEvent::Done), remove("yt-dlp.part"));
    assert_eq!(installer.phase, InstallPhase::Cleaning);
    assert_eq!(installer.step(failed("no such file")), InstallAction::Finish(Ok(())));
    assert_eq!(installer.phase, InstallPhase::Finished);
    assert_eq!(installer.step(InstallEvent::Done), InstallAction::Finish(Ok(())));
}

#[test]
fn on_windows_no_mode_is_set() {
    let plan = plan_install(ManagedTool::Downloader, Platform::Windows).unwrap();
    let (mut installer, _) = Installer::begin(plan);
    installer.step(InstallEvent::Done);
    installer.step(InstallEvent::Status(206));
    assert_eq!(installer.step(InstallEvent::Done), rename("yt-dlp.exe.part", "yt-dlp.exe"));
    assert_eq!(installer.step(InstallEvent::Done), remove("yt-dlp.exe.part"));
    assert_eq!(installer.step(InstallEvent::Done), InstallAction::Finish(Ok(())));
}

#[test]
fn a_zip_member_is_written_to_a_file_of_its_own_and_moved() {
    let plan = plan_install(ManagedTool::Transcoder, Platform::Windows).unwrap();
    let mut installer = fetched(plan);
    assert_eq!(
        installer.step(InstallEvent::Done),
        InstallAction::ListArchive { archive: "ffmpeg.zip".to_string() }
    );
    let members = names(&[
        "ffmpeg-7.1-essentials_build/",
        "ffmpeg-7.1-essentials_build/bin/ffplay.exe",
        "ffmpeg-7.1-essentials_build/bin/ffmpeg.exe",
        "ffmpeg-7.1-essentials_build/doc/ffmpeg.exe",
    ]);
    assert_eq!(
        installer.step(InstallEvent::Names(members)),
        InstallAction::ExtractMember {
            archive: "ffmpeg.zip".to_string(),
            index: 2,
            into: "ffmpeg.exe.part".to_string()
        }
    );
    assert_eq!(installer.step(InstallEvent::Done), rename("ffmpeg.exe.part", "ffmpeg.exe"));
    assert_eq!(installer.step(InstallEvent::Done), remove("ffmpeg.zip"));
    assert_eq!(installer.step(InstallEvent::Done), remove("ffmpeg.exe.part"));
    assert_eq!(installer.phase, InstallPhase::Clearing);
    assert_eq!(installer.step(InstallEvent::Done), InstallAction::Finish(Ok(())));
}

#[test]
fn a_failed_extraction_leaves_the_executables_name_alone() {
    let plan = plan_install(ManagedTool::Transcoder, Platform::Windows).unwrap();
    let actions = course(
        plan,
        vec![
            InstallEvent::Done,
            InstallEvent::Status(200),
            InstallEvent::Done,
            InstallEvent::Names(names(&["build/bin/ffmpeg.exe"])),
            failed("disk full"),
            InstallEvent::Done,
            InstallEvent::Done,
        ],
    );
    assert_eq!(
        actions[5..],
        [
            remove("ffmpeg.zip"),
            remove("ffmpeg.exe.part"),
            InstallAction::Finish(Err(InstallError::Archive("disk full".to_string()))),
        ]
    );
    for action in &actions {
        assert!(!touches(action, "ffmpeg.exe"));
    }
}

#[test]
fn only_the_last_move_touches_the_executables_name() {
    for tool in [ManagedTool::Downloader, ManagedTool::Transcoder] {
        for platform in
            [Platform::Windows, Platform::Linux, Platform::MacOs, Platform::OtherUnix]
        {
            let plan = match plan_install(tool, platform) {
                Ok(plan) => plan,
                Err(_) => continue,
            };
            let listing = names(&["x/ffmpeg.exe", plan.final_name]);
            let events = vec![
                InstallEvent::Done,
                InstallEvent::Status(200),
                InstallEvent::Done,
                InstallEvent::Names(listing.clone()),
                InstallEvent::Done,
                InstallEvent::Names(listing.clone()),
                InstallEvent::Done,
                InstallEvent::Done,
                InstallEvent::Done,
                InstallEvent::Done,
                InstallEvent::Done,
            ];
            for action in course(plan, events) {
                if touches(&action, plan.final_name) {
                    assert_eq!(action, rename(plan.staged_name, plan.final_name));
                }
            }
        }
    }
}

#[test]
fn a_zip_archive_without_the_executable_is_an_archive_error() {
    let plan = plan_install(ManagedTool::Transcoder, Platform::Windows).unwrap();
    let mut installer = fetched(plan);
    installer.step(InstallEvent::Done);
    assert_eq!(
        installer.step(InstallEvent::Names(names(&["readme.txt", "bin/xffmpeg.exe"]))),
        remove("ffmpeg.zip")
    );
    assert_eq!(installer.step(InstallEvent::Done), remove("ffmpeg.exe.part"));
    assert_eq!(
        installer.step(InstallEvent::Done),
        InstallAction::Finish(Err(InstallError::Archive(
            "ffmpeg.exe not found in the archive".to_string()
        )))
    );
}

#[test]
fn a_damaged_archive_is_an_archive_error() {
    let plan = plan_install(ManagedTool::Transcoder, Platform::Windows).unwrap();
    let mut installer = fetched(plan);
    installer.step(InstallEvent::Done);
    assert_eq!(installer.step(failed("invalid Zip archive")), remove("ffmpeg.zip"));
    installer.step(InstallEvent::Done);
    assert_eq!(
        installer.step(InstallEvent::Done),
        InstallAction::Finish(Err(InstallError::Archive("invalid Zip archive".to_string())))
    );
}

#[test]
fn a_tar_archive_is_unpacked_into_a_directory_of_its_own() {
    let plan = plan_install(ManagedTool::Transcoder, Platform::Linux).unwrap();
    let mut installer = fetched(plan);
    assert_eq!(
        installer.step(InstallEvent::Done),
        InstallAction::Untar {
            archive: "ffmpeg.tar.xz".to_string(),
            into: "ffmpeg.unpacked".to_string(),
            strip_components: 1
        }
    );
    assert_eq!(
        installer.step(InstallEvent::Done),
        InstallAction::ListUnpacked { directory: "ffmpeg.unpacked".to_string() }
    );
    assert_eq!(
        installer.step(InstallEvent::Names(names(&["ffprobe", "ffmpeg", "readme.txt"]))),
        InstallAction::SetMode { file: "ffmpeg.unpacked/ffmpeg".to_string(), mode: 0o755 }
    );
    assert_eq!(installer.step(InstallEvent::Done), rename("ffmpeg.unpacked/ffmpeg", "ffmpeg"));
    assert_eq!(installer.step(InstallEvent::Done), remove("ffmpeg.tar.xz"));
    assert_eq!(
        installer.step(InstallEvent::Done),
        InstallAction::RemoveTree { directory: "ffmpeg.unpacked".to_string() }
    );
    assert_eq!(installer.step(failed("busy")), InstallAction::Finish(Ok(())));
}

#[test]
fn a_tar_archive_that_leaves_no_executable_is_an_archive_error() {
    let plan = plan_install(ManagedTool::Transcoder, Platform::Linux).unwrap();
    let mut installer = fetched(plan);
    installer.step(InstallEvent::Done);
    installer.step(InstallEvent::Done);
    assert_eq!(
        installer.step(InstallEvent::Names(names(&["ffprobe"]))),
        remove("ffmpeg.tar.xz")
    );
    assert_eq!(
        installer.step(failed("busy")),
        InstallAction::RemoveTree { directory: "ffmpeg.unpacked".to_string() }
    );
    assert_eq!(
        installer.step(InstallEvent::Done),
        InstallAction::Finish(Err(InstallError::Archive(
            "ffmpeg not found in the archive".to_string()
        )))
    );
}

#[test]
fn a_failed_unpacking_is_an_archive_error_and_removes_what_was_unpacked() {
    let plan = plan_install(ManagedTool::Transcoder, Platform::Linux).unwrap();
    let mut installer = fetched(plan);
    installer.step(InstallEvent::Done);
    let event = untar_event(&ProcessOutcome::Ended {
        success: false,
        stdout: Vec::new(),
        stderr: b"xz: corrupt input".to_vec(),
    });
    assert_eq!(event, failed("Tar extraction failed: xz: corrupt input"));
    assert_eq!(installer.step(event), remove("ffmpeg.tar.xz"));
    assert_eq!(
        installer.step(InstallEvent::Done),
        InstallAction::RemoveTree { directory: "ffmpeg.unpacked".to_string() }
    );
    assert_eq!(
        installer.step(InstallEvent::Done),
        InstallAction::Finish(Err(InstallError::Archive(
            "Tar extraction failed: xz: corrupt input".to_string()
        )))
    );
}

#[test]
fn what_came_of_tar_is_an_event() {
    assert_eq!(
        untar_event(&ProcessOutcome::Ended {
            success: true,
            stdout: b"ignored".to_vec(),
            stderr: b"tar: warning".to_vec()
        }),
        InstallEvent::Done
    );
    assert_eq!(
        untar_event(&ProcessOutcome::NotStarted("No such file or directory".to_string())),
        failed("Failed to extract tar: No such file or directory")
    );
    assert_eq!(
        untar_event(&ProcessOutcome::Ended {
            success: false,
            stdout: Vec::new(),
            stderr: vec![b'x', 0xff]
        }),
        failed("Tar extraction failed: x\u{fffd}")
    );
}

#[test]
fn a_directory_that_cannot_be_made_is_an_environment_error() {
    let plan = plan_install(ManagedTool::Downloader, Platform::Linux).unwrap();
    let (mut installer, _) = Installer::begin(plan);
    assert_eq!(
        installer.step(failed("read-only file system")),
        InstallAction::Finish(Err(InstallError::Environment(
            "read-only file system".to_string()
        )))
    );
    assert_eq!(installer.phase, InstallPhase::Finished);
    assert_eq!(
        installer.step(InstallEvent::Done),
        InstallAction::Finish(Err(InstallError::Environment(
            "read-only file system".to_string()
        )))
    );
}

#[test]
fn a_status_other_than_success_is_a_network_error() {
    for status in [199u16, 300, 404, 500] {
        let plan = plan_install(ManagedTool::Downloader, Platform::Linux).unwrap();
        let (mut installer, _) = Installer::begin(plan);
        installer.step(InstallEvent::Done);
        assert_eq!(
            installer.step(InstallEvent::Status(status)),
            InstallAction::Finish(Err(InstallError::Network(format!("HTTP status {}", status))))
        );
    }
}

#[test]
fn a_source_that_does_not_answer_is_a_network_error() {
    let plan = plan_install(ManagedTool::Downloader, Platform::Linux).unwrap();
    let (mut installer, _) = Installer::begin(plan);
    installer.step(InstallEvent::Done);
    assert_eq!(
        installer.step(failed("dns error")),
        InstallAction::Finish(Err(InstallError::Network("dns error".to_string())))
    );
}

#[test]
fn a_broken_transfer_removes_the_download_and_is_a_network_error() {
    let plan = plan_install(ManagedTool::Downloader, Platform::Linux).unwrap();
    let mut installer = fetched(plan);
    assert_eq!(installer.step(failed("connection reset")), remove("yt-dlp.part"));
    assert_eq!(
        installer.step(InstallEvent::Done),
        InstallAction::Finish(Err(InstallError::Network("connection reset".to_string())))
    );
}

#[test]
fn a_mode_that_cannot_be_set_ends_before_the_move() {
    let plan = plan_install(ManagedTool::Downloader, Platform::Linux).unwrap();
    let actions = course(
        plan,
        vec![
            InstallEvent::Done,
            InstallEvent::Status(200),
            InstallEvent::Done,
            failed("no chmod"),
            InstallEvent::Done,
        ],
    );
    assert_eq!(
        actions[4..],
        [
            remove("yt-dlp.part"),
            InstallAction::Finish(Err(InstallError::Environment("no chmod".to_string()))),
        ]
    );
    for action in &actions {
        assert!(!touches(action, "yt-dlp"));
    }
}

#[test]
fn a_move_that_fails_is_an_environment_error() {
    let plan = plan_install(ManagedTool::Downloader, Platform::Linux).unwrap();
    let mut installer = fetched(plan);
    installer.step(InstallEvent::Done);
    assert_eq!(installer.step(InstallEvent::Done), rename("yt-dlp.part", "yt-dlp"));
    assert_eq!(installer.step(failed("denied")), remove("yt-dlp.part"));
    assert_eq!(
        installer.step(InstallEvent::Done),
        InstallAction::Finish(Err(InstallError::Environment("denied".to_string())))
    );
}

#[test]
fn an_event_that_is_not_awaited_counts_as_a_silent_failure() {
    let plan = plan_install(ManagedTool::Downloader, Platform::Linux).unwrap();
    let (mut installer, _) = Installer::begin(plan);
    assert_eq!(
        installer.step(InstallEvent::Status(200)),
        InstallAction::Finish(Err(InstallError::Environment(String::new())))
    );
    let mut second = fetched(plan);
    assert_eq!(second.step(InstallEvent::Names(Vec::new())), remove("yt-dlp.part"));
    assert_eq!(
        second.step(InstallEvent::Done),
        InstallAction::Finish(Err(InstallError::Network(String::new())))
    );
}

#[test]
fn the_first_member_with_the_name_is_found() {
    let members = names(&["a/ffmpeg.exe.txt", "b\\ffmpeg.exe", "c/ffmpeg.exe"]);
    assert_eq!(find_member(&members, "ffmpeg.exe"), Some(1));
    assert_eq!(find_member(&members, "ffprobe.exe"), None);
    assert_eq!(find_member(&Vec::new(), "ffmpeg.exe"), None);
}

#[test]
fn tar_is_told_to_leave_out_the_top_directory() {
    assert_eq!(
        tar_arguments("/d/bin/ffmpeg.tar.xz", "/d/bin/ffmpeg.unpacked", 1),
        vec![
            "-xf",
            "/d/bin/ffmpeg.tar.xz",
            "-C",
            "/d/bin/ffmpeg.unpacked",
            "--strip-components=1"
        ]
    );
    assert_eq!(tar_arguments("a", "b", 12)[4], "--strip-components=12");
}
