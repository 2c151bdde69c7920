use gnirehtet::adb::{EnvVar, TargetOs};
use gnirehtet::adb_setup::{
    adb_binary_name, adb_version, command_lookup, download, download_and_extract_adb, ensure_adb,
    extract_adb, is_command_available, move_adb, permissions, platform_tools_url, AdbSearch,
    AdbSetup, SearchEvent, SetupEvent, SetupStage, ADB_PERMISSIONS, TEMP_DIR_NAME, ZIP_NAME,
};
use gnirehtet::execution_error::ExitStatus;
use gnirehtet::io_error::IoError;

fn ended(code: i32) -> Result<ExitStatus, IoError> {
    Ok(ExitStatus { code: Some(code) })
}

fn not_run() -> Result<ExitStatus, IoError> {
    Err(IoError::other("not found"))
}

fn found(search: AdbSearch) -> String {
    match search {
        AdbSearch::Found(path) => path,
        _ => panic!("adb is still being looked for"),
    }
}

fn setup(os: TargetOs) -> AdbSetup {
    let mut setup = download_and_extract_adb(os, "/tmp/t".to_string(), "/tmp/t/z.zip".to_string());
    assert!(matches!(setup.stage, SetupStage::Locate));
    setup.next(SetupEvent::Located(Ok(Some((
        "/usr/bin".to_string(),
        "/usr/bin/adb".to_string(),
    )))));
    assert!(matches!(setup.stage, SetupStage::FindExisting));
    setup
}

fn error(setup: AdbSetup) -> String {
    match setup.stage {
        SetupStage::Finished(Err(message)) => message,
        _ => panic!("the installation did not fail"),
    }
}

fn path(setup: AdbSetup) -> String {
    match setup.stage {
        SetupStage::Finished(Ok(path)) => path,
        _ => panic!("the installation did not end well"),
    }
}

#[test]
fn a_path_that_was_found_is_kept() {
    assert_eq!(found(ensure_adb(Some("/a/adb".to_string()))), "/a/adb");
}

#[test]
fn a_variable_that_is_set_decides() {
    let search = |env: EnvVar| ensure_adb(None).next(SearchEvent::Environment(env));
    assert_eq!(found(search(EnvVar::Text("/e/adb".to_string()))), "/e/adb");
    assert_eq!(found(search(EnvVar::Invalid)), "adb");
    assert!(matches!(search(EnvVar::Unset), AdbSearch::Version(_)));
}

#[test]
fn adb_in_the_path_is_not_downloaded() {
    let version = AdbSearch::Version(adb_version()).next(SearchEvent::Version(ended(0)));
    assert_eq!(found(version), "adb");
    for outcome in [ended(1), Ok(ExitStatus { code: None }), not_run()] {
        let version = AdbSearch::Version(adb_version()).next(SearchEvent::Version(outcome));
        assert!(matches!(version, AdbSearch::Download));
    }
}

#[test]
fn a_failed_download_leaves_the_bare_name() {
    let ok = SearchEvent::Downloaded(Ok("/usr/bin/adb".to_string()));
    assert_eq!(found(AdbSearch::Download.next(ok)), "/usr/bin/adb");
    let failed = SearchEvent::Downloaded(Err("Download failed".to_string()));
    assert_eq!(found(AdbSearch::Download.next(failed)), "adb");
}

#[test]
fn the_tools_are_called_with_their_arguments() {
    assert_eq!(
        platform_tools_url("darwin"),
        "https://dl.google.com/android/repository/platform-tools-latest-darwin.zip"
    );
    assert_eq!(adb_binary_name(TargetOs::Linux), "adb");
    assert_eq!(adb_binary_name(TargetOs::MacOs), "adb");
    assert_eq!(adb_binary_name(TargetOs::Windows), "adb.exe");
    assert_eq!(TEMP_DIR_NAME, "gnirehtet-adb");
    assert_eq!(ZIP_NAME, "platform-tools-latest.zip");
    assert_eq!(ADB_PERMISSIONS, 0o755);

    let curl = download("http://x/y.zip", "/tmp/y.zip");
    assert_eq!(curl.command, "curl");
    assert_eq!(curl.args, ["-fLo", "/tmp/y.zip", "http://x/y.zip"]);

    let unzip = extract_adb("/tmp/y.zip", "/usr/bin", "linux");
    assert_eq!(unzip.command, "unzip");
    assert_eq!(
        unzip.args,
        ["-o", "/tmp/y.zip", "platform-tools/adb", "-d", "/usr/bin"]
    );
    let unzip = extract_adb("/tmp/y.zip", "C:", "windows");
    assert_eq!(
        unzip.args,
        [
            "-o",
            "/tmp/y.zip",
            "platform-tools/adb.exe",
            "platform-tools/AdbWinApi.dll",
            "platform-tools/AdbWinUsbApi.dll",
            "-d",
            "C:"
        ]
    );
}

#[test]
fn every_extracted_file_is_moved_next_to_the_program() {
    let moves = move_adb("windows");
    let names = ["adb.exe", "AdbWinApi.dll", "AdbWinUsbApi.dll"];
    assert_eq!(moves.len(), names.len());
    for (file, name) in moves.iter().zip(names) {
        assert_eq!(file.to, name);
        assert_eq!(file.from, format!("platform-tools/{}", name));
    }
    assert_eq!(move_adb("darwin").len(), 1);
    let version = adb_version();
    assert_eq!(version.command, "adb");
    assert_eq!(version.args, ["version"]);
}

#[test]
fn a_command_is_available_where_looking_it_up_ends_well() {
    assert!(is_command_available(&ended(0)));
    assert!(!is_command_available(&ended(1)));
    assert!(!is_command_available(&not_run()));
}

#[test]
fn adb_that_is_there_is_not_installed_again() {
    let mut setup = setup(TargetOs::Linux);
    setup.next(SetupEvent::Exists(true));
    assert_eq!(path(setup), "/usr/bin/adb");
}

#[test]
fn adb_is_installed_on_linux() {
    let mut setup = setup(TargetOs::Linux);
    setup.next(SetupEvent::Exists(false));
    assert!(matches!(setup.stage, SetupStage::CreateTempDir));
    setup.next(SetupEvent::Tried(Ok(())));
    match &setup.stage {
        SetupStage::Download(cmd) => {
            assert_eq!(cmd.command, "curl");
            assert_eq!(
                cmd.args,
                [
                    "-fLo",
                    "/tmp/t/z.zip",
                    "https://dl.google.com/android/repository/platform-tools-latest-linux.zip"
                ]
            );
        }
        _ => panic!("nothing is downloaded"),
    }
    setup.next(SetupEvent::Ran(ended(0)));
    match &setup.stage {
        SetupStage::Extract(cmd) => assert_eq!(
            cmd.args,
            ["-o", "/tmp/t/z.zip", "platform-tools/adb", "-d", "/usr/bin"]
        ),
        _ => panic!("nothing is extracted"),
    }
    setup.next(SetupEvent::Ran(ended(0)));
    match &setup.stage {
        SetupStage::Move(moves) => {
            assert_eq!(moves.len(), 1);
            assert_eq!(moves[0].from, "platform-tools/adb");
            assert_eq!(moves[0].to, "adb");
        }
        _ => panic!("nothing is moved"),
    }
    setup.next(SetupEvent::Tried(Ok(())));
    assert!(matches!(setup.stage, SetupStage::CleanUp));
    setup.next(SetupEvent::Done);
    assert!(matches!(setup.stage, SetupStage::FindExtracted));
    setup.next(SetupEvent::Exists(true));
    assert!(matches!(setup.stage, SetupStage::SetPermissions));
    assert_eq!(permissions(&setup.stage), Some(0o755));
    assert_eq!(setup.announcement(), None);
    setup.next(SetupEvent::Tried(Ok(())));
    assert!(matches!(setup.stage, SetupStage::Report));
    assert_eq!(permissions(&setup.stage), None);
    assert_eq!(
        setup.announcement(),
        Some("ADB extracted to /usr/bin/adb".to_string())
    );
    setup.next(SetupEvent::Done);
    match &setup.stage {
        SetupStage::LookUpApt(cmd) => {
            assert_eq!(cmd.command, "which");
            assert_eq!(cmd.args, ["apt"]);
        }
        _ => panic!("apt is not looked up"),
    }
    setup.next(SetupEvent::Ran(ended(0)));
    assert!(matches!(setup.stage, SetupStage::Tip));
    assert_eq!(
        setup.announcement(),
        Some("Tip: install system-wide with `sudo apt install adb`".to_string())
    );
    setup.next(SetupEvent::Done);
    assert_eq!(path(setup), "/usr/bin/adb");
}

#[test]
fn the_tip_is_for_linux_with_apt() {
    let mut linux = setup(TargetOs::Linux);
    linux.stage = SetupStage::LookUpApt(command_lookup("apt"));
    linux.next(SetupEvent::Ran(ended(1)));
    assert_eq!(path(linux), "/usr/bin/adb");

    let mut mac = setup(TargetOs::MacOs);
    mac.stage = SetupStage::Report;
    mac.next(SetupEvent::Done);
    assert_eq!(path(mac), "/usr/bin/adb");
}

#[test]
fn permissions_are_not_for_windows() {
    for (os, windows) in [
        (TargetOs::Linux, false),
        (TargetOs::MacOs, false),
        (TargetOs::Windows, true),
    ] {
        let mut setup = setup(os);
        setup.stage = SetupStage::FindExtracted;
        setup.next(SetupEvent::Exists(true));
        assert_eq!(matches!(setup.stage, SetupStage::Report), windows);
        assert_eq!(matches!(setup.stage, SetupStage::SetPermissions), !windows);
    }
}

#[test]
fn every_failure_has_its_message() {
    let start = || download_and_extract_adb(TargetOs::Linux, "/tmp/t".into(), "/tmp/z".into());
    let mut setup_run = start();
    setup_run.next(SetupEvent::Located(Err(IoError::other("gone"))));
    assert_eq!(error(setup_run), "Cannot determine binary path: gone");

    let mut setup_run = start();
    setup_run.next(SetupEvent::Located(Ok(None)));
    assert_eq!(error(setup_run), "Cannot get binary directory");

    let mut setup_run = setup(TargetOs::Linux);
    setup_run.stage = SetupStage::CreateTempDir;
    setup_run.next(SetupEvent::Tried(Err(IoError::other("read-only"))));
    assert_eq!(error(setup_run), "Failed to create temp dir /tmp/t: read-only");

    let cmd = || download("u", "d");
    for (stage, outcome, message) in [
        (SetupStage::Download(cmd()), not_run(), "Failed to run curl: not found"),
        (SetupStage::Download(cmd()), ended(22), "Download failed"),
        (SetupStage::Extract(cmd()), not_run(), "Failed to run unzip: not found"),
        (SetupStage::Extract(cmd()), ended(9), "Extraction failed"),
    ] {
        let mut setup_run = setup(TargetOs::Linux);
        setup_run.stage = stage;
        setup_run.next(SetupEvent::Ran(outcome));
        assert_eq!(error(setup_run), message);
    }

    let mut setup_run = setup(TargetOs::Linux);
    setup_run.stage = SetupStage::Move(move_adb("linux"));
    setup_run.next(SetupEvent::Tried(Err(IoError::other("denied"))));
    assert_eq!(error(setup_run), "Failed to move ADB: denied");

    let mut setup_run = setup(TargetOs::Linux);
    setup_run.stage = SetupStage::FindExtracted;
    setup_run.next(SetupEvent::Exists(false));
    assert_eq!(
        error(setup_run),
        "ADB binary not found at /usr/bin/adb after extraction"
    );

    let mut setup_run = setup(TargetOs::Linux);
    setup_run.stage = SetupStage::SetPermissions;
    setup_run.next(SetupEvent::Tried(Err(IoError::other("denied"))));
    assert_eq!(error(setup_run), "Failed to set permissions: denied");
}
