use metool::binaries::{
    check_binary_exists, executable_file_name, get_bin_dir, locate_tool, plan_install,
    plan_install_by_name, resolve_bin_dir, ManagedTool, Packaging, Platform,
};
use metool::error::InstallError;
use metool::paths::{has_base_name, join_path};

fn names(list: &[&str]) -> Vec<String> {
    let mut out = Vec::new();
    for n in list {
        out.push(n.to_string());
    }
    out
}

#[test]
fn executables_are_named_per_platform() {
    assert_eq!(executable_file_name(ManagedTool::Downloader, Platform::Linux), "yt-dlp");
    assert_eq!(executable_file_name(ManagedTool::Downloader, Platform::MacOs), "yt-dlp");
    assert_eq!(executable_file_name(ManagedTool::Downloader, Platform::Windows), "yt-dlp.exe");
    assert_eq!(executable_file_name(ManagedTool::Transcoder, Platform::Linux), "ffmpeg");
    assert_eq!(executable_file_name(ManagedTool::Transcoder, Platform::Windows), "ffmpeg.exe");
}

#[test]
fn tools_are_named_downloader_and_transcoder() {
    assert_eq!(ManagedTool::from_name("downloader"), Ok(ManagedTool::Downloader));
    assert_eq!(ManagedTool::from_name("transcoder"), Ok(ManagedTool::Transcoder));
    assert_eq!(ManagedTool::Downloader.name(), "downloader");
    assert_eq!(ManagedTool::Transcoder.name(), "transcoder");
}

#[test]
fn other_names_are_unsupported_tools() {
    assert_eq!(ManagedTool::from_name("Downloader"), Err(InstallError::UnsupportedTool));
    assert_eq!(ManagedTool::from_name(""), Err(InstallError::UnsupportedTool));
    assert_eq!(ManagedTool::from_name("curl"), Err(InstallError::UnsupportedTool));
    assert_eq!(
        plan_install_by_name("curl", Platform::Linux),
        Err(InstallError::UnsupportedTool)
    );
}

#[test]
fn a_tool_is_installed_when_its_file_is_listed() {
    let listing = names(&["ffmpeg", "yt-dlp.part"]);
    assert!(check_binary_exists(ManagedTool::Transcoder, Platform::Linux, &listing));
    assert!(!check_binary_exists(ManagedTool::Downloader, Platform::Linux, &listing));
    assert!(!check_binary_exists(ManagedTool::Transcoder, Platform::Windows, &listing));
    assert!(check_binary_exists(
        ManagedTool::Transcoder,
        Platform::Windows,
        &names(&["ffmpeg.exe"])
    ));
}

#[test]
fn nothing_is_installed_in_a_directory_that_does_not_exist() {
    let nothing: Vec<String> = Vec::new();
    assert!(!check_binary_exists(ManagedTool::Downloader, Platform::Linux, &nothing));
    assert!(!check_binary_exists(ManagedTool::Transcoder, Platform::Windows, &nothing));
}

#[test]
fn the_managed_directory_is_the_same_at_every_call() {
    let first = get_bin_dir("/home/u/.local/share/app", Platform::Linux);
    let second = get_bin_dir("/home/u/.local/share/app", Platform::Linux);
    assert_eq!(first, "/home/u/.local/share/app/bin");
    assert_eq!(first, second);
    assert_eq!(
        get_bin_dir("C:\\Users\\u\\AppData\\Roaming\\metool\\app\\data", Platform::Windows),
        "C:\\Users\\u\\AppData\\Roaming\\metool\\app\\data\\bin"
    );
}

#[test]
fn paths_are_joined_with_one_separator() {
    assert_eq!(join_path("/opt/tools", "ffmpeg", Platform::Linux), "/opt/tools/ffmpeg");
    assert_eq!(join_path("/opt/tools/", "ffmpeg", Platform::Linux), "/opt/tools/ffmpeg");
    assert_eq!(join_path("", "ffmpeg", Platform::Linux), "ffmpeg");
    assert_eq!(join_path("C:\\t", "ffmpeg.exe", Platform::Windows), "C:\\t\\ffmpeg.exe");
    assert_eq!(join_path("C:\\t\\", "ffmpeg.exe", Platform::Windows), "C:\\t\\ffmpeg.exe");
    assert_eq!(join_path("C:/t/", "ffmpeg.exe", Platform::Windows), "C:/t/ffmpeg.exe");
    assert_eq!(join_path("a\\", "b", Platform::MacOs), "a\\/b");
    assert_eq!(join_path("/vídeos", "x", Platform::Linux), "/vídeos/x");
}

#[test]
fn a_tool_is_located_in_the_managed_directory() {
    let found = locate_tool(
        ManagedTool::Downloader,
        Platform::Linux,
        "/data/bin",
        &names(&["yt-dlp"]),
    );
    assert_eq!(found.name, ManagedTool::Downloader);
    assert_eq!(found.path, "/data/bin/yt-dlp");
    assert!(found.installed);
    let absent = locate_tool(ManagedTool::Transcoder, Platform::Windows, "C:\\b", &names(&[]));
    assert_eq!(absent.path, "C:\\b\\ffmpeg.exe");
    assert!(!absent.installed);
}

#[test]
fn the_downloader_is_a_plain_executable() {
    let plan = plan_install(ManagedTool::Downloader, Platform::Linux).unwrap();
    assert_eq!(plan.url, "https://github.com/yt-dlp/yt-dlp/releases/latest/download/yt-dlp");
    assert_eq!(plan.download_name, "yt-dlp.part");
    assert_eq!(plan.staged_name, "yt-dlp.part");
    assert_eq!(plan.unpack_dir, "");
    assert_eq!(plan.final_name, "yt-dlp");
    assert_eq!(plan.packaging, Packaging::Plain);
    assert_eq!(plan.mode, Some(0o755));
    let windows = plan_install(ManagedTool::Downloader, Platform::Windows).unwrap();
    assert_eq!(
        windows.url,
        "https://github.com/yt-dlp/yt-dlp/releases/latest/download/yt-dlp.exe"
    );
    assert_eq!(windows.download_name, "yt-dlp.exe.part");
    assert_eq!(windows.final_name, "yt-dlp.exe");
    assert_eq!(windows.mode, None);
    let mac = plan_install_by_name("downloader", Platform::MacOs).unwrap();
    assert_eq!(mac.final_name, "yt-dlp");
    assert_eq!(mac.mode, Some(0o755));
}

#[test]
fn the_transcoder_comes_in_an_archive() {
    let windows = plan_install(ManagedTool::Transcoder, Platform::Windows).unwrap();
    assert_eq!(windows.url, "https://www.gyan.dev/ffmpeg/builds/ffmpeg-release-essentials.zip");
    assert_eq!(windows.download_name, "ffmpeg.zip");
    assert_eq!(windows.staged_name, "ffmpeg.exe.part");
    assert_eq!(windows.unpack_dir, "");
    assert_eq!(windows.final_name, "ffmpeg.exe");
    assert_eq!(windows.packaging, Packaging::Zip);
    assert_eq!(windows.mode, None);
    let linux = plan_install_by_name("transcoder", Platform::Linux).unwrap();
    assert_eq!(
        linux.url,
        "https://johnvansickle.com/ffmpeg/releases/ffmpeg-release-amd64-static.tar.xz"
    );
    assert_eq!(linux.download_name, "ffmpeg.tar.xz");
    assert_eq!(linux.unpack_dir, "ffmpeg.unpacked");
    assert_eq!(linux.staged_name, "ffmpeg.unpacked/ffmpeg");
    assert_eq!(linux.final_name, "ffmpeg");
    assert_eq!(linux.packaging, Packaging::TarXz);
    assert_eq!(linux.mode, Some(0o755));
}

#[test]
fn a_platform_without_a_source_is_unsupported() {
    assert_eq!(
        plan_install(ManagedTool::Transcoder, Platform::MacOs),
        Err(InstallError::UnsupportedPlatform)
    );
    assert_eq!(
        plan_install_by_name("transcoder", Platform::MacOs),
        Err(InstallError::UnsupportedPlatform)
    );
    assert_eq!(
        plan_install(ManagedTool::Transcoder, Platform::OtherUnix),
        Err(InstallError::UnsupportedPlatform)
    );
    let downloader = plan_install(ManagedTool::Downloader, Platform::OtherUnix).unwrap();
    assert_eq!(downloader.final_name, "yt-dlp");
    assert_eq!(downloader.mode, Some(0o755));
}

#[test]
fn the_mode_of_an_installed_tool_lets_its_owner_execute_it() {
    for tool in [ManagedTool::Downloader, ManagedTool::Transcoder] {
        for platform in [Platform::Linux, Platform::MacOs, Platform::OtherUnix] {
            if let Ok(plan) = plan_install(tool, platform) {
                assert_eq!(plan.mode.unwrap() & 0o100, 0o100);
                assert_ne!(plan.download_name, plan.final_name);
                assert_ne!(plan.staged_name, plan.final_name);
                assert_ne!(plan.unpack_dir, plan.final_name);
                assert!(check_binary_exists(tool, platform, &names(&[plan.final_name])));
            }
        }
    }
}

#[test]
fn file_managers_per_platform() {
    assert_eq!(Platform::Windows.file_manager_command(), "explorer");
    assert_eq!(Platform::MacOs.file_manager_command(), "open");
    assert_eq!(Platform::Linux.file_manager_command(), "xdg-open");
    assert_eq!(Platform::OtherUnix.file_manager_command(), "xdg-open");
}

#[test]
fn the_last_component_of_a_path() {
    assert!(has_base_name("ffmpeg-7.1-essentials_build/bin/ffmpeg.exe", "ffmpeg.exe"));
    assert!(has_base_name("ffmpeg.exe", "ffmpeg.exe"));
    assert!(has_base_name("build\\bin\\ffmpeg.exe", "ffmpeg.exe"));
    assert!(!has_base_name("bin/xffmpeg.exe", "ffmpeg.exe"));
    assert!(!has_base_name("bin/ffmpeg.exe/", "ffmpeg.exe"));
    assert!(!has_base_name("bin/ffmpeg.exe.txt", "ffmpeg.exe"));
    assert!(has_base_name("bin/", ""));
    assert!(has_base_name("vídeo/ffmpeg", "ffmpeg"));
}

#[test]
fn the_managed_directory_of_this_user_is_the_same_at_every_call() {
    let first = resolve_bin_dir(Platform::Linux);
    let second = resolve_bin_dir(Platform::Linux);
    assert_eq!(first, second);
    match first {
        Ok(dir) => assert!(dir.ends_with("/bin")),
        Err(e) => assert_eq!(e, InstallError::Environment("no home directory".to_string())),
    }
}

#[test]
fn install_errors_as_text() {
    assert_eq!(InstallError::Environment("denied".to_string()).message(), "denied");
    assert_eq!(InstallError::UnsupportedPlatform.message(), "Platform not supported");
    assert_eq!(InstallError::UnsupportedTool.message(), "Binary not supported");
    assert_eq!(InstallError::Network("HTTP status 404".to_string()).message(), "HTTP status 404");
    assert_eq!(InstallError::Archive("corrupt".to_string()).message(), "corrupt");
}
