use gnirehtet::adb::{
    adb_variable, apk_variable, client_is_outdated, client_query, create_adb_args, exec_adb,
    exec_adb_result, get_adb_path, get_apk_path, get_platform, must_install_client, EnvVar,
    TargetOs, REQUIRED_APK_VERSION_CODE,
};
use gnirehtet::execution_error::{Cmd, CommandExecutionError, ExitStatus, Output};
use gnirehtet::io_error::{ErrorKind, IoError};

fn query() -> Cmd {
    client_query("/opt/adb", Some("emulator-5554"))
}

fn wrote(code: Option<i32>, stdout: &[u8]) -> Output {
    Output {
        status: ExitStatus { code },
        stdout: stdout.to_vec(),
        stderr: Vec::new(),
    }
}

#[test]
fn platforms_have_their_names() {
    assert_eq!(get_platform(TargetOs::Linux), "linux");
    assert_eq!(get_platform(TargetOs::MacOs), "darwin");
    assert_eq!(get_platform(TargetOs::Windows), "windows");
}

#[test]
fn a_resolved_adb_comes_before_the_environment() {
    let env = || EnvVar::Text("/env/adb".to_string());
    assert_eq!(get_adb_path(Some("/found/adb"), env()), "/found/adb");
    assert_eq!(get_adb_path(None, env()), "/env/adb");
    assert_eq!(get_adb_path(None, EnvVar::Invalid), "adb");
    assert_eq!(get_adb_path(None, EnvVar::Unset), "adb");
}

#[test]
fn the_package_path_has_a_default() {
    assert_eq!(get_apk_path(EnvVar::Text("x.apk".to_string())), "x.apk");
    assert_eq!(get_apk_path(EnvVar::Text("".to_string())), "");
    assert_eq!(get_apk_path(EnvVar::Invalid), "gnirehtet.apk");
    assert_eq!(get_apk_path(EnvVar::Unset), "gnirehtet.apk");
    assert_eq!(adb_variable(), "ADB");
    assert_eq!(apk_variable(), "GNIREHTET_APK");
}

#[test]
fn a_device_is_picked_before_the_arguments() {
    assert_eq!(
        create_adb_args(Some("S1"), vec!["shell", "ls"]),
        ["-s", "S1", "shell", "ls"]
    );
    assert_eq!(
        create_adb_args(None, vec!["shell".to_string(), "ls".to_string()]),
        ["shell", "ls"]
    );
    assert_eq!(create_adb_args(Some("S1"), Vec::<String>::new()), ["-s", "S1"]);
    assert!(create_adb_args(None, Vec::<&str>::new()).is_empty());
}

#[test]
fn adb_is_called_by_its_path() {
    let cmd = exec_adb("/opt/adb", Some("S1"), vec!["devices"]);
    assert_eq!(cmd.command, "/opt/adb");
    assert_eq!(cmd.args, ["-s", "S1", "devices"]);
}

#[test]
fn the_client_is_asked_about() {
    assert_eq!(query().command, "/opt/adb");
    assert_eq!(
        query().args,
        [
            "-s",
            "emulator-5554",
            "shell",
            "dumpsys",
            "package",
            "com.genymobile.gnirehtet"
        ]
    );
}

#[test]
fn only_the_exit_code_zero_is_success() {
    assert!(exec_adb_result(query(), Ok(ExitStatus { code: Some(0) })).is_ok());
    for code in [Some(1), Some(-1), None] {
        match exec_adb_result(query(), Ok(ExitStatus { code })) {
            Err(CommandExecutionError::ProcessStatus(e)) => {
                assert_eq!(e.status.code, code);
                assert_eq!(e.cmd.args, query().args);
            }
            _ => panic!("the exit code {:?} is not success", code),
        }
    }
}

#[test]
fn a_process_that_cannot_be_run_is_told_apart() {
    let failure = || Err(IoError::new(ErrorKind::Other, "no such file"));
    match exec_adb_result(query(), failure()) {
        Err(CommandExecutionError::ProcessIo(e)) => {
            assert_eq!(e.cmd.command, "/opt/adb");
            assert_eq!(e.error.kind, ErrorKind::Other);
            assert_eq!(e.error.message, "no such file");
        }
        _ => panic!("the process was not run"),
    }
    match must_install_client(query(), Err(IoError::other("no such file"))) {
        Err(CommandExecutionError::ProcessIo(e)) => assert_eq!(e.error.message, "no such file"),
        _ => panic!("the process was not run"),
    }
}

#[test]
fn the_required_version_is_not_installed_again() {
    assert_eq!(REQUIRED_APK_VERSION_CODE, "11");
    assert!(!client_is_outdated("    versionCode=11 minSdk=21"));
    assert!(!client_is_outdated("x\n    versionCode=11 \n    versionCode=3 "));
    assert!(client_is_outdated("    versionCode=10 minSdk=21"));
    assert!(client_is_outdated("    versionCode=110 minSdk=21"));
    assert!(client_is_outdated("    versionCode=1 1"));
    assert!(client_is_outdated("    versionCode= 11"));
    assert!(client_is_outdated("    versionCode=11"));
    assert!(client_is_outdated("   versionCode=11 "));
    assert!(client_is_outdated("\u{e9}    versionCode=9 "));
    assert!(!client_is_outdated("\u{e9}\u{1f600}    versionCode=11 "));
    assert!(client_is_outdated(""));
}

#[test]
fn the_answer_of_a_device_decides() {
    let answer = |stdout: &[u8]| must_install_client(query(), Ok(wrote(Some(0), stdout)));
    assert!(matches!(answer(b"    versionCode=11 minSdk=21"), Ok(false)));
    assert!(matches!(answer(b"    versionCode=12 minSdk=21"), Ok(true)));
    assert!(matches!(answer(b""), Ok(true)));
    // what is not valid text does not hide the rest
    assert!(matches!(answer(b"\xff\xfe    versionCode=11 \xff"), Ok(false)));
    assert!(matches!(answer(b"    versionCode=11\xff "), Ok(true)));
    match must_install_client(query(), Ok(wrote(Some(1), b"    versionCode=11 "))) {
        Err(CommandExecutionError::ProcessStatus(e)) => assert_eq!(e.status.code, Some(1)),
        _ => panic!("the query did not end well"),
    }
}
