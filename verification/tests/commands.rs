use gnirehtet::commands::{
    cmd_autorun, cmd_autostart, cmd_install, cmd_reinstall, cmd_relay, cmd_relay_result,
    cmd_restart, cmd_run, cmd_start, cmd_stop, cmd_tunnel, cmd_uninstall, pause_millis,
    proxy_to_use, start_args, CommandRun, Event, RunEvent, RunStage, Stage, StartOptions,
    INSTALL_PAUSE_MILLIS,
};
use gnirehtet::execution_error::{Cmd, CommandExecutionError, ExitStatus, Output};
use gnirehtet::io_error::{ErrorKind, IoError};

const INSTALLED: &[u8] = b"    versionCode=11 minSdk=21";

fn options(port: u16) -> StartOptions {
    StartOptions {
        dns_servers: None,
        routes: None,
        port,
        proxy: None,
        proxy_exclusions: None,
        mtu: 16384,
        allow_apps: Vec::new(),
        deny_apps: Vec::new(),
        socks5: None,
    }
}

fn ran(code: i32) -> Event {
    Event::Ran(Ok(ExitStatus { code: Some(code) }))
}

fn wrote(code: i32, stdout: &[u8], stderr: &[u8]) -> Event {
    Event::Wrote(Ok(Output {
        status: ExitStatus { code: Some(code) },
        stdout: stdout.to_vec(),
        stderr: stderr.to_vec(),
    }))
}

fn command(run: &CommandRun) -> (&'static str, &Cmd) {
    match &run.stage {
        Stage::CheckClient(cmd) => ("check", cmd),
        Stage::Install(cmd) => ("install", cmd),
        Stage::ListDevices(cmd) => ("list", cmd),
        Stage::Tunnel(cmd) => ("tunnel", cmd),
        Stage::Launch(cmd) => ("launch", cmd),
        Stage::Uninstall(cmd) => ("uninstall", cmd),
        Stage::Stop(cmd) => ("stop", cmd),
        _ => panic!("the stage runs no command"),
    }
}

fn expect(run: &CommandRun, name: &str, args: &[&str]) {
    let (stage, cmd) = command(run);
    assert_eq!(stage, name);
    assert_eq!(cmd.command, run.adb);
    assert_eq!(cmd.args, args);
}

fn is_done(run: &CommandRun) -> bool {
    matches!(run.stage, Stage::Finished(Ok(())))
}

const STOP: [&str; 7] = [
    "shell",
    "am",
    "start",
    "-a",
    "com.genymobile.gnirehtet.STOP",
    "-n",
    "com.genymobile.gnirehtet/.GnirehtetActivity",
];

const START: [&str; 10] = [
    "shell",
    "am",
    "start",
    "-a",
    "com.genymobile.gnirehtet.START",
    "-n",
    "com.genymobile.gnirehtet/.GnirehtetActivity",
    "--ei",
    "mtu",
    "16384",
];

#[test]
fn plain_options_start_with_a_packet_size() {
    assert_eq!(start_args(&options(31416)), START);
}

#[test]
fn every_option_is_passed_to_the_client() {
    let all = StartOptions {
        dns_servers: Some("8.8.8.8,1.1.1.1".to_string()),
        routes: Some("10.0.0.0/8".to_string()),
        port: 31416,
        proxy: Some("proxy:3128".to_string()),
        proxy_exclusions: Some("*.lan".to_string()),
        mtu: 1500,
        allow_apps: vec!["a.b".to_string(), "c.d".to_string()],
        deny_apps: vec!["e.f".to_string()],
        socks5: Some("127.0.0.1:1080".to_string()),
    };
    assert_eq!(
        start_args(&all)[7..],
        [
            "--esa",
            "dnsServers",
            "8.8.8.8,1.1.1.1",
            "--esa",
            "routes",
            "10.0.0.0/8",
            "--es",
            "proxyHostPort",
            "proxy:3128",
            "--esa",
            "proxyExclusionList",
            "*.lan",
            "--es",
            "socks5Proxy",
            "127.0.0.1:1080",
            "--ei",
            "mtu",
            "1500",
            "--esa",
            "allowApps",
            "a.b,c.d",
            "--esa",
            "denyApps",
            "e.f"
        ]
    );
}

#[test]
fn the_client_is_installed() {
    let mut run = cmd_install(Some("S1"), "adb", "g.apk");
    expect(&run, "install", &["-s", "S1", "install", "-r", "g.apk"]);
    run.next(wrote(0, b"Success", b""));
    assert!(is_done(&run));
    assert!(!run.tip);
}

#[test]
fn a_refused_installation_gives_a_tip() {
    for (stderr, tip) in [
        (&b"Failure [INSTALL_FAILED_USER_RESTRICTED]"[..], true),
        (&b"\xffINSTALL_FAILED"[..], true),
        (&b"error: no devices"[..], false),
    ] {
        let mut run = cmd_install(None, "adb", "g.apk");
        expect(&run, "install", &["install", "-r", "g.apk"]);
        run.next(wrote(1, b"", stderr));
        assert_eq!(run.tip, tip);
        assert_eq!(
            run.advice(),
            tip.then_some(
                "Tip: Make sure USB debugging is enabled on your device and check for a \
                 confirmation dialog on the device screen."
            )
        );
        match run.stage {
            Stage::Finished(Err(CommandExecutionError::ProcessStatus(e))) => {
                assert_eq!(e.status.code, Some(1));
                assert_eq!(e.cmd.args, ["install", "-r", "g.apk"]);
            }
            _ => panic!("the installation failed"),
        }
    }
    let mut run = cmd_install(None, "adb", "g.apk");
    run.next(wrote(0, b"", b"INSTALL_FAILED"));
    assert!(is_done(&run));
    assert!(!run.tip);
}

#[test]
fn an_installation_that_cannot_be_run_fails() {
    let mut run = cmd_install(None, "adb", "g.apk");
    run.next(Event::Wrote(Err(IoError::other("not found"))));
    assert!(!run.tip);
    match run.stage {
        Stage::Finished(Err(CommandExecutionError::ProcessIo(e))) => {
            assert_eq!(e.error.message, "not found");
        }
        _ => panic!("the installation was not run"),
    }
}

#[test]
fn the_client_is_uninstalled() {
    let mut run = cmd_uninstall(Some("S1"), "adb");
    expect(&run, "uninstall", &["-s", "S1", "uninstall", "com.genymobile.gnirehtet"]);
    run.next(ran(0));
    assert!(is_done(&run));
}

#[test]
fn reinstalling_uninstalls_first() {
    let mut run = cmd_reinstall(None, "adb", "g.apk");
    expect(&run, "uninstall", &["uninstall", "com.genymobile.gnirehtet"]);
    run.next(ran(0));
    expect(&run, "install", &["install", "-r", "g.apk"]);
    run.next(wrote(0, b"", b""));
    assert!(is_done(&run));
}

#[test]
fn the_first_failure_ends_a_run() {
    let mut run = cmd_reinstall(None, "adb", "g.apk");
    run.next(ran(1));
    assert!(matches!(
        run.stage,
        Stage::Finished(Err(CommandExecutionError::ProcessStatus(_)))
    ));
    let mut run = cmd_restart(None, "adb", "g.apk", None, None, 31416);
    run.next(Event::Ran(Err(IoError::other("not found"))));
    assert!(matches!(
        run.stage,
        Stage::Finished(Err(CommandExecutionError::ProcessIo(_)))
    ));
    let mut run = cmd_start(None, "adb", "g.apk", options(31416));
    run.next(Event::AdbReady("adb".to_string()));
    run.next(wrote(1, INSTALLED, b""));
    assert!(matches!(
        run.stage,
        Stage::Finished(Err(CommandExecutionError::ProcessStatus(_)))
    ));
}

#[test]
fn the_client_is_stopped() {
    let mut run = cmd_stop(None, "adb");
    expect(&run, "stop", &STOP);
    run.next(ran(0));
    assert!(is_done(&run));
}

#[test]
fn the_tunnel_is_opened() {
    let mut run = cmd_tunnel(Some("S1"), "adb", 31416);
    expect(
        &run,
        "tunnel",
        &["-s", "S1", "reverse", "localabstract:gnirehtet", "tcp:31416"],
    );
    run.next(ran(0));
    assert!(is_done(&run));
}

#[test]
fn starting_an_installed_client_goes_straight_to_the_tunnel() {
    let mut run = cmd_start(Some("S1"), "adb", "g.apk", options(31416));
    assert!(matches!(run.stage, Stage::EnsureAdb));
    assert_eq!(pause_millis(&run.stage), None);
    run.next(Event::AdbReady("/opt/adb".to_string()));
    expect(
        &run,
        "check",
        &["-s", "S1", "shell", "dumpsys", "package", "com.genymobile.gnirehtet"],
    );
    run.next(wrote(0, INSTALLED, b""));
    match &run.stage {
        Stage::Register(serial) => assert_eq!(serial, "S1"),
        _ => panic!("the serial is not registered"),
    }
    run.next(Event::Done);
    expect(
        &run,
        "tunnel",
        &["-s", "S1", "reverse", "localabstract:gnirehtet", "tcp:31416"],
    );
    run.next(ran(0));
    let mut args = vec!["-s", "S1"];
    args.extend(START);
    expect(&run, "launch", &args);
    assert_eq!(run.adb, "/opt/adb");
    run.next(ran(0));
    assert!(is_done(&run));
}

#[test]
fn starting_installs_an_outdated_client_and_looks_for_the_device() {
    assert_eq!(INSTALL_PAUSE_MILLIS, 500);
    let mut run = cmd_start(None, "adb", "g.apk", options(1));
    run.next(Event::AdbReady("adb".to_string()));
    run.next(wrote(0, b"", b""));
    expect(&run, "install", &["install", "-r", "g.apk"]);
    run.next(wrote(0, b"", b""));
    assert!(matches!(run.stage, Stage::Pause));
    assert_eq!(pause_millis(&run.stage), Some(500));
    run.next(Event::Done);
    expect(&run, "list", &["devices"]);
    run.next(wrote(0, b"List of devices attached\nS7\tdevice\n", b""));
    match &run.stage {
        Stage::Register(serial) => assert_eq!(serial, "S7"),
        _ => panic!("the serial is not registered"),
    }
    run.next(Event::Done);
    // the device is registered, but not picked
    expect(&run, "tunnel", &["reverse", "localabstract:gnirehtet", "tcp:1"]);
    run.next(ran(0));
    expect(&run, "launch", &START);
    run.next(ran(3));
    match run.stage {
        Stage::Finished(Err(CommandExecutionError::ProcessStatus(e))) => {
            assert_eq!(e.status.code, Some(3));
        }
        _ => panic!("the launch failed"),
    }
}

#[test]
fn an_unknown_device_is_not_registered() {
    for listing in [
        wrote(0, b"List of devices attached\nS1\tdevice\nS2\tdevice\n", b""),
        wrote(1, b"", b""),
        Event::Wrote(Err(IoError::other("not found"))),
    ] {
        let mut run = cmd_start(None, "adb", "g.apk", options(1));
        run.next(Event::AdbReady("adb".to_string()));
        run.next(wrote(0, INSTALLED, b""));
        expect(&run, "list", &["devices"]);
        run.next(listing);
        expect(&run, "tunnel", &["reverse", "localabstract:gnirehtet", "tcp:1"]);
    }
}

#[test]
fn restarting_stops_first() {
    let mut run = cmd_restart(None, "adb", "g.apk", Some("9.9.9.9"), Some("0.0.0.0/0"), 31416);
    expect(&run, "stop", &STOP);
    run.next(ran(0));
    assert!(matches!(run.stage, Stage::EnsureAdb));
    assert_eq!(run.options.dns_servers, Some("9.9.9.9".to_string()));
    assert_eq!(run.options.routes, Some("0.0.0.0/0".to_string()));
    assert_eq!(run.options.port, 31416);
    assert_eq!(run.options.mtu, 0x4000);
    assert_eq!(run.options.socks5, None);
}

#[test]
fn attached_devices_are_started() {
    let auto = cmd_autostart(Some("9.9.9.9"), None, 31416, 1500, false, Some("h:1"));
    assert!(auto.is_usb_only());
    let run = auto.attached("S5", "adb", "g.apk");
    assert!(matches!(run.stage, Stage::EnsureAdb));
    assert_eq!(run.serial, Some("S5".to_string()));
    assert_eq!(run.options.dns_servers, Some("9.9.9.9".to_string()));
    assert_eq!(run.options.routes, None);
    assert_eq!(run.options.mtu, 1500);
    assert_eq!(run.options.socks5, Some("h:1".to_string()));
    assert_eq!(run.options.proxy, None);
    assert!(run.options.allow_apps.is_empty());
    assert!(!cmd_autostart(None, None, 1, 1500, true, None).is_usb_only());
}

#[test]
fn the_relay_command_runs_a_server() {
    assert_eq!(cmd_relay(31416).address(), "0.0.0.0:31416");
    assert!(cmd_relay_result(Ok(())).is_ok());
    match cmd_relay_result(Err(IoError::other("in use"))) {
        Err(CommandExecutionError::Io(e)) => assert_eq!(e.message, "in use"),
        _ => panic!("the server failed"),
    }
}

#[test]
fn running_starts_a_device_and_a_server() {
    let plan = cmd_run(Some("S1"), "adb", "g.apk", options(31416), None::<u16>, None);
    assert_eq!(plan.proxy, None);
    assert_eq!(plan.start.serial, Some("S1".to_string()));
    assert!(matches!(plan.start.stage, Stage::EnsureAdb));
    assert_eq!(plan.serial, Some("S1".to_string()));
    assert_eq!(plan.relay.address(), "0.0.0.0:31416");

    let stage = plan.stage.next(RunEvent::Done);
    assert!(matches!(stage, RunStage::StartRuntime));
    let stage = stage.next(RunEvent::Runtime(Ok(())));
    assert!(matches!(stage, RunStage::Serve));
    let ended = RunStage::Serve.next(RunEvent::RelayEnded(Ok(Ok(()))));
    assert!(matches!(ended, RunStage::Finished(Ok(()))));
    let stage = stage.next(RunEvent::Interrupted);
    assert!(matches!(stage, RunStage::StopClient));
    assert!(matches!(stage.next(RunEvent::Done), RunStage::Exit));
}

#[test]
fn a_proxy_that_was_set_stays() {
    assert_eq!(proxy_to_use(Some(1), Some(2)), Some(1));
    assert_eq!(proxy_to_use(Some(1), None), Some(1));
    assert_eq!(proxy_to_use(None, Some(2)), Some(2));
    assert_eq!(proxy_to_use(None::<u16>, None), None);
    let run = |set: Option<u16>, parsed: Option<u16>| {
        let mut with_proxy = options(1);
        with_proxy.socks5 = Some("no address".to_string());
        cmd_run(None, "adb", "g.apk", with_proxy, set, parsed)
    };
    assert_eq!(run(None, Some(2)).proxy, Some(2));
    assert_eq!(run(Some(1), Some(2)).proxy, Some(1));
    let unreadable = run(None, None);
    assert_eq!(unreadable.proxy, None);
    // the client is told what was asked for, as it is
    assert_eq!(unreadable.start.options.socks5, Some("no address".to_string()));
    let auto = cmd_autorun(None, None, 1, 1500, false, Some("h:1"), None, Some(5));
    assert_eq!(auto.proxy, Some(5));
}

#[test]
fn running_fails_with_the_runtime_or_the_task() {
    let failures = [
        RunStage::StartRuntime.next(RunEvent::Runtime(Err(IoError::new(
            ErrorKind::WouldBlock,
            "no threads",
        )))),
        RunStage::Serve.next(RunEvent::RelayEnded(Err(IoError::other("no threads")))),
    ];
    for failure in failures {
        match failure {
            RunStage::Finished(Err(CommandExecutionError::Io(e))) => {
                assert_eq!(e.kind, ErrorKind::Other);
                assert_eq!(e.message, "no threads");
            }
            _ => panic!("the command did not fail"),
        }
    }
}

#[test]
fn running_for_every_device() {
    let plan = cmd_autorun(None, Some("10.0.0.0/8"), 99, 1280, true, None, None, Some(3));
    assert_eq!(plan.proxy, None);
    assert!(!plan.auto.is_usb_only());
    assert_eq!(plan.relay.address(), "0.0.0.0:99");
    let run = plan.auto.attached("S1", "adb", "g.apk");
    assert_eq!(run.options.routes, Some("10.0.0.0/8".to_string()));
    assert_eq!(run.options.port, 99);
}
