//! The commands: what each asks of `adb`, and in which order.
//!
//! A command is a run from stage to stage. A stage tells what to do next; its
//! outcome takes the run to the next stage. The first failure ends the run.

use vstd::prelude::*;

use crate::adb::{
    client_query, exec_adb_result, exec_adb_strings, exec_adb_words, must_install_client,
};
use crate::detect::effective_serial;
use crate::execution_error::{
    Cmd, CommandExecutionError, CommandLine, ExitStatus, Output, ProcessIoError, ProcessStatusError,
};
use crate::io_error::IoError;
use crate::relay::relay::Relay;
use crate::text::{
    as_optional_str, find, from_utf8_lossy, join, push_decimal, to_chars, to_optional_text,
};
#[allow(unused_imports)]
use crate::adb::{adb_args, adb_command, outdated, query_result};
#[allow(unused_imports)]
use crate::detect::{only_device, target_serial};
#[allow(unused_imports)]
use crate::execution_error::status_result;
#[allow(unused_imports)]
use crate::io_error::ErrorKind;
#[allow(unused_imports)]
use crate::text::{
    decimal, first_match, first_match_is_first, joined, optional_str, optional_text, texts,
    utf8_lossy,
};

verus! {

/// How long to wait after the client was installed, in milliseconds.
pub const INSTALL_PAUSE_MILLIS: u64 = 500;

/// What a device is started with.
pub struct StartOptions {
    pub dns_servers: Option<String>,
    pub routes: Option<String>,
    /// The port of the relay.
    pub port: u16,
    pub proxy: Option<String>,
    pub proxy_exclusions: Option<String>,
    pub mtu: u16,
    /// The applications that the tunnel is for; all of them where this is empty.
    pub allow_apps: Vec<String>,
    /// The applications that the tunnel is not for.
    pub deny_apps: Vec<String>,
    pub socks5: Option<String>,
}

/// What the options say.
#[verifier::ext_equal]
pub struct StartText {
    pub dns_servers: Option<Seq<char>>,
    pub routes: Option<Seq<char>>,
    pub port: u16,
    pub proxy: Option<Seq<char>>,
    pub proxy_exclusions: Option<Seq<char>>,
    pub mtu: u16,
    pub allow_apps: Seq<Seq<char>>,
    pub deny_apps: Seq<Seq<char>>,
    pub socks5: Option<Seq<char>>,
}

impl View for StartOptions {
    type V = StartText;

    open spec fn view(&self) -> StartText {
        StartText {
            dns_servers: optional_text(self.dns_servers),
            routes: optional_text(self.routes),
            port: self.port,
            proxy: optional_text(self.proxy),
            proxy_exclusions: optional_text(self.proxy_exclusions),
            mtu: self.mtu,
            allow_apps: texts(self.allow_apps@),
            deny_apps: texts(self.deny_apps@),
            socks5: optional_text(self.socks5),
        }
    }
}

/// The three words that pass a value to the client, where there is one.
pub open spec fn extra(kind: Seq<char>, name: Seq<char>, value: Option<Seq<char>>) -> Seq<
    Seq<char>,
> {
    match value {
        Some(v) => seq![kind, name, v],
        None => Seq::empty(),
    }
}

/// The names of applications in one word, where there are any.
pub open spec fn listed(apps: Seq<Seq<char>>) -> Option<Seq<char>> {
    if apps.len() > 0 {
        Some(joined(apps, ","@))
    } else {
        None
    }
}

/// The words that start the client on a device.
pub open spec fn start_words(options: StartText) -> Seq<Seq<char>> {
    seq![
        "shell"@,
        "am"@,
        "start"@,
        "-a"@,
        "com.genymobile.gnirehtet.START"@,
        "-n"@,
        "com.genymobile.gnirehtet/.GnirehtetActivity"@,
    ] + extra("--esa"@, "dnsServers"@, options.dns_servers) + extra(
        "--esa"@,
        "routes"@,
        options.routes,
    ) + extra("--es"@, "proxyHostPort"@, options.proxy) + extra(
        "--esa"@,
        "proxyExclusionList"@,
        options.proxy_exclusions,
    ) + extra("--es"@, "socks5Proxy"@, options.socks5) + extra(
        "--ei"@,
        "mtu"@,
        Some(decimal(options.mtu as nat)),
    ) + extra("--esa"@, "allowApps"@, listed(options.allow_apps)) + extra(
        "--esa"@,
        "denyApps"@,
        listed(options.deny_apps),
    )
}

/// The words that stop the client on a device.
pub open spec fn stop_words() -> Seq<Seq<char>> {
    seq![
        "shell"@,
        "am"@,
        "start"@,
        "-a"@,
        "com.genymobile.gnirehtet.STOP"@,
        "-n"@,
        "com.genymobile.gnirehtet/.GnirehtetActivity"@,
    ]
}

/// The words that open the tunnel from a device to the relay.
pub open spec fn tunnel_words(port: u16) -> Seq<Seq<char>> {
    seq!["reverse"@, "localabstract:gnirehtet"@, "tcp:"@ + decimal(port as nat)]
}

/// The words that install the client.
pub open spec fn install_words(apk: Seq<char>) -> Seq<Seq<char>> {
    seq!["install"@, "-r"@, apk]
}

/// The words that uninstall the client.
pub open spec fn uninstall_words() -> Seq<Seq<char>> {
    seq!["uninstall"@, "com.genymobile.gnirehtet"@]
}

fn push_extra(args: &mut Vec<String>, kind: &str, name: &str, value: Option<&str>)
    ensures
        texts(final(args)@) == texts(old(args)@) + extra(kind@, name@, optional_str(value)),
{
    if let Some(value) = value {
        args.push(kind.to_string());
        args.push(name.to_string());
        args.push(value.to_string());
    }
    assert(texts(args@) =~= texts(old(args)@) + extra(kind@, name@, optional_str(value)));
}

fn push_apps(args: &mut Vec<String>, name: &str, apps: &Vec<String>)
    ensures
        texts(final(args)@) == texts(old(args)@) + extra("--esa"@, name@, listed(texts(apps@))),
{
    if apps.len() > 0 {
        let all = join(apps.as_slice(), ",");
        push_extra(args, "--esa", name, Some(all.as_str()));
    } else {
        assert(texts(args@) =~= texts(args@) + Seq::<Seq<char>>::empty());
    }
}

/// Makes the words that start the client on a device.
pub fn start_args(options: &StartOptions) -> (args: Vec<String>)
    ensures
        texts(args@) == start_words(options@),
{
    let mut args: Vec<String> = Vec::new();
    args.push("shell".to_string());
    args.push("am".to_string());
    args.push("start".to_string());
    args.push("-a".to_string());
    args.push("com.genymobile.gnirehtet.START".to_string());
    args.push("-n".to_string());
    args.push("com.genymobile.gnirehtet/.GnirehtetActivity".to_string());
    assert(texts(args@) =~= seq![
        "shell"@,
        "am"@,
        "start"@,
        "-a"@,
        "com.genymobile.gnirehtet.START"@,
        "-n"@,
        "com.genymobile.gnirehtet/.GnirehtetActivity"@,
    ]);
    push_extra(&mut args, "--esa", "dnsServers", as_optional_str(&options.dns_servers));
    push_extra(&mut args, "--esa", "routes", as_optional_str(&options.routes));
    push_extra(&mut args, "--es", "proxyHostPort", as_optional_str(&options.proxy));
    push_extra(
        &mut args,
        "--esa",
        "proxyExclusionList",
        as_optional_str(&options.proxy_exclusions),
    );
    push_extra(&mut args, "--es", "socks5Proxy", as_optional_str(&options.socks5));
    let mut mtu = String::new();
    push_decimal(&mut mtu, options.mtu as u64);
    assert(mtu@ =~= decimal(options.mtu as nat));
    push_extra(&mut args, "--ei", "mtu", Some(mtu.as_str()));
    push_apps(&mut args, "allowApps", &options.allow_apps);
    push_apps(&mut args, "denyApps", &options.deny_apps);
    args
}

/// What a run is after.
#[derive(Clone, Copy, Debug, PartialEq, Eq, Structural)]
pub enum Goal {
    Install,
    Uninstall,
    Reinstall,
    Stop,
    Tunnel,
    Start,
    Restart,
}

/// What is done next in a run.
pub enum Stage {
    /// Make sure that there is an `adb`.
    EnsureAdb,
    /// Ask the device about the client.
    CheckClient(Cmd),
    /// Install the client.
    Install(Cmd),
    /// Wait a little for the installation to settle.
    Pause,
    /// List the devices, to find out which one is meant.
    ListDevices(Cmd),
    /// Register the serial for the next connection to the relay.
    Register(String),
    /// Open the tunnel.
    Tunnel(Cmd),
    /// Start the client on the device.
    Launch(Cmd),
    /// Uninstall the client.
    Uninstall(Cmd),
    /// Stop the client on the device.
    Stop(Cmd),
    /// The run is over.
    Finished(Result<(), CommandExecutionError>),
}

/// How long to wait in a stage, in milliseconds.
pub fn pause_millis(stage: &Stage) -> (r: Option<u64>)
    ensures
        r == (if stage is Pause {
            Some(500u64)
        } else {
            None
        }),
{
    match stage {
        Stage::Pause => Some(INSTALL_PAUSE_MILLIS),
        _ => None,
    }
}

/// What came of a stage.
pub enum Event {
    /// The path to call `adb` by.
    AdbReady(String),
    /// The stage was done.
    Done,
    /// How a process ended, or that it could not be run.
    Ran(Result<ExitStatus, IoError>),
    /// How a process ended and what it wrote, or that it could not be run.
    Wrote(Result<Output, IoError>),
}

/// A command that is being carried out.
pub struct CommandRun {
    pub goal: Goal,
    /// The device that was asked for.
    pub serial: Option<String>,
    /// The path to call `adb` by.
    pub adb: String,
    /// The path to the client's package.
    pub apk: String,
    pub options: StartOptions,
    /// Whether a tip about failed installations is to be given.
    pub tip: bool,
    pub stage: Stage,
}

/// Whether the run goes on to start the client.
pub open spec fn starts(goal: Goal) -> bool {
    goal == Goal::Start || goal == Goal::Restart
}

/// Whether the event is an answer to the stage.
pub open spec fn awaits(stage: Stage, event: Event) -> bool {
    match stage {
        Stage::EnsureAdb => event is AdbReady,
        Stage::CheckClient(_) | Stage::Install(_) | Stage::ListDevices(_) => event is Wrote,
        Stage::Pause | Stage::Register(_) => event is Done,
        Stage::Tunnel(_) | Stage::Launch(_) | Stage::Uninstall(_) | Stage::Stop(_) => event is Ran,
        Stage::Finished(_) => false,
    }
}

/// The result of an installation.
pub open spec fn install_result(cmd: Cmd, outcome: Result<Output, IoError>) -> Result<
    (),
    CommandExecutionError,
> {
    match outcome {
        Ok(output) => status_result(cmd, Ok(output.status)),
        Err(e) => status_result(cmd, Err(e)),
    }
}

/// Whether a tip is to be given about a failed installation: where the device
/// refused it.
pub open spec fn refused(outcome: Result<Output, IoError>) -> bool {
    outcome matches Ok(output) && !output.status.succeeded() && first_match(
        utf8_lossy(output.stderr@),
        "INSTALL_FAILED"@,
    ) is Some
}

impl CommandRun {
    /// The command line that the run would call `adb` with.
    pub open spec fn line(&self, words: Seq<Seq<char>>) -> CommandLine {
        adb_command(self.adb@, optional_text(self.serial), words)
    }

    /// Whether this is the stage that opens the tunnel.
    pub open spec fn opens_tunnel(&self, next: Stage) -> bool {
        next matches Stage::Tunnel(cmd) && cmd@ == self.line(tunnel_words(self.options.port))
    }

    /// Whether this is the stage that installs the client.
    pub open spec fn installs(&self, next: Stage) -> bool {
        next matches Stage::Install(cmd) && cmd@ == self.line(install_words(self.apk@))
    }

    /// Whether this is the stage that comes once the client is there: its serial
    /// is registered where it was asked for, and found out elsewhere.
    pub open spec fn identifies(&self, next: Stage) -> bool {
        match self.serial {
            Some(s) => next matches Stage::Register(t) && t@ == s@,
            None => next matches Stage::ListDevices(cmd) && cmd@ == (CommandLine {
                command: self.adb@,
                args: seq!["devices"@],
            }),
        }
    }

    /// Whether two runs are the same but for their stage.
    pub open spec fn same_run(&self, other: CommandRun) -> bool {
        &&& self.goal == other.goal
        &&& self.serial == other.serial
        &&& self.adb == other.adb
        &&& self.apk == other.apk
        &&& self.options == other.options
    }
}

/// Where a run goes from a stage.
pub open spec fn continues(run: CommandRun, event: Event, next: CommandRun) -> bool {
    match (run.stage, event) {
        (Stage::EnsureAdb, Event::AdbReady(adb)) => {
            &&& (CommandRun { adb, ..run }).same_run(next)
            &&& next.tip == run.tip
            &&& next.stage matches Stage::CheckClient(cmd)
            &&& cmd@ == next.line(
                seq!["shell"@, "dumpsys"@, "package"@, "com.genymobile.gnirehtet"@],
            )
        },
        (Stage::CheckClient(cmd), Event::Wrote(outcome)) => {
            &&& run.same_run(next)
            &&& next.tip == run.tip
            &&& match query_result(cmd, outcome) {
                Ok(install) => if install {
                    run.installs(next.stage)
                } else {
                    run.identifies(next.stage)
                },
                Err(e) => next.stage == Stage::Finished(Err(e)),
            }
        },
        (Stage::Install(cmd), Event::Wrote(outcome)) => {
            &&& run.same_run(next)
            &&& next.tip == refused(outcome)
            &&& match install_result(cmd, outcome) {
                Ok(_) => if starts(run.goal) {
                    next.stage is Pause
                } else {
                    next.stage == Stage::Finished(Ok(()))
                },
                Err(e) => next.stage == Stage::Finished(Err(e)),
            }
        },
        (Stage::Pause, Event::Done) => {
            &&& run.same_run(next)
            &&& next.tip == run.tip
            &&& run.identifies(next.stage)
        },
        (Stage::ListDevices(_), Event::Wrote(listing)) => {
            &&& run.same_run(next)
            &&& next.tip == run.tip
            &&& match target_serial(optional_text(run.serial), listing) {
                Some(s) => next.stage matches Stage::Register(t) && t@ == s,
                None => run.opens_tunnel(next.stage),
            }
        },
        (Stage::Register(_), Event::Done) => {
            &&& run.same_run(next)
            &&& next.tip == run.tip
            &&& run.opens_tunnel(next.stage)
        },
        (Stage::Tunnel(cmd), Event::Ran(outcome)) => {
            &&& run.same_run(next)
            &&& next.tip == run.tip
            &&& match status_result(cmd, outcome) {
                Ok(_) => if starts(run.goal) {
                    &&& next.stage matches Stage::Launch(launch)
                    &&& launch@ == run.line(start_words(run.options@))
                } else {
                    next.stage == Stage::Finished(Ok(()))
                },
                Err(e) => next.stage == Stage::Finished(Err(e)),
            }
        },
        (Stage::Uninstall(cmd), Event::Ran(outcome)) => {
            &&& run.same_run(next)
            &&& next.tip == run.tip
            &&& match status_result(cmd, outcome) {
                Ok(_) => if run.goal == Goal::Reinstall {
                    run.installs(next.stage)
                } else {
                    next.stage == Stage::Finished(Ok(()))
                },
                Err(e) => next.stage == Stage::Finished(Err(e)),
            }
        },
        (Stage::Stop(cmd), Event::Ran(outcome)) => {
            &&& run.same_run(next)
            &&& next.tip == run.tip
            &&& match status_result(cmd, outcome) {
                Ok(_) => if run.goal == Goal::Restart {
                    next.stage is EnsureAdb
                } else {
                    next.stage == Stage::Finished(Ok(()))
                },
                Err(e) => next.stage == Stage::Finished(Err(e)),
            }
        },
        (Stage::Launch(cmd), Event::Ran(outcome)) => {
            &&& run.same_run(next)
            &&& next.tip == run.tip
            &&& next.stage == Stage::Finished(status_result(cmd, outcome))
        },
        _ => false,
    }
}

impl CommandRun {
    fn tunnel_stage(&self) -> (stage: Stage)
        ensures
            self.opens_tunnel(stage),
    {
        let mut target = String::new();
        target.append("tcp:");
        push_decimal(&mut target, self.options.port as u64);
        assert(target@ =~= "tcp:"@ + decimal(self.options.port as nat));
        let cmd = exec_adb_words(
            self.adb.as_str(),
            as_optional_str(&self.serial),
            vec!["reverse", "localabstract:gnirehtet", target.as_str()],
        );
        assert(cmd@.args =~= self.line(tunnel_words(self.options.port)).args);
        Stage::Tunnel(cmd)
    }

    fn install_stage(&self) -> (stage: Stage)
        ensures
            self.installs(stage),
    {
        let cmd = exec_adb_words(
            self.adb.as_str(),
            as_optional_str(&self.serial),
            vec!["install", "-r", self.apk.as_str()],
        );
        assert(cmd@.args =~= self.line(install_words(self.apk@)).args);
        Stage::Install(cmd)
    }

    fn identify_stage(&self) -> (stage: Stage)
        ensures
            self.identifies(stage),
    {
        match &self.serial {
            Some(s) => Stage::Register(s.clone()),
            None => {
                let cmd = exec_adb_words(self.adb.as_str(), None, vec!["devices"]);
                assert(cmd@.args =~= seq!["devices"@]);
                Stage::ListDevices(cmd)
            },
        }
    }

    /// The tip to give to the user, where there is one.
    pub fn advice(&self) -> (r: Option<&'static str>)
        ensures
            optional_str(r) == (if self.tip {
                Some(
                    "Tip: Make sure USB debugging is enabled on your device and check for a confirmation dialog on the device screen."@,
                )
            } else {
                None
            }),
    {
        if self.tip {
            Some(
                "Tip: Make sure USB debugging is enabled on your device and check for a confirmation dialog on the device screen.",
            )
        } else {
            None
        }
    }

    /// Whether the run is after starting the client.
    fn is_starting(&self) -> (r: bool)
        ensures
            r == starts(self.goal),
    {
        match self.goal {
            Goal::Start => true,
            Goal::Restart => true,
            _ => false,
        }
    }
}

/// The result of an installation, and whether a tip is to be given.
fn install_outcome(cmd: Cmd, outcome: Result<Output, IoError>) -> (r: (
    Result<(), CommandExecutionError>,
    bool,
))
    ensures
        r.0 == install_result(cmd, outcome),
        r.1 == refused(outcome),
{
    match outcome {
        Ok(output) => if output.status.success() {
            (Ok(()), false)
        } else {
            let stderr = from_utf8_lossy(output.stderr.as_slice());
            let chars = to_chars(stderr.as_str());
            let tip = find(chars.as_slice(), "INSTALL_FAILED").is_some();
            let error = ProcessStatusError { cmd, status: output.status };
            (Err(CommandExecutionError::ProcessStatus(error)), tip)
        },
        Err(error) => (Err(CommandExecutionError::ProcessIo(ProcessIoError { cmd, error })), false),
    }
}

impl CommandRun {
    /// Goes on with what came of the current stage.
    pub fn next(&mut self, event: Event)
        requires
            awaits(old(self).stage, event),
        ensures
            continues(*old(self), event, *final(self)),
    {
        let mut stage = Stage::Pause;
        std::mem::swap(&mut stage, &mut self.stage);
        let next = match event {
            Event::AdbReady(adb) => {
                self.adb = adb;
                Stage::CheckClient(client_query(self.adb.as_str(), as_optional_str(&self.serial)))
            },
            Event::Done => match stage {
                Stage::Register(_) => self.tunnel_stage(),
                _ => self.identify_stage(),
            },
            Event::Wrote(outcome) => match stage {
                Stage::CheckClient(cmd) => match must_install_client(cmd, outcome) {
                    Ok(install) => if install {
                        self.install_stage()
                    } else {
                        self.identify_stage()
                    },
                    Err(e) => Stage::Finished(Err(e)),
                },
                Stage::Install(cmd) => {
                    let (result, tip) = install_outcome(cmd, outcome);
                    self.tip = tip;
                    match result {
                        Ok(_) => if self.is_starting() {
                            Stage::Pause
                        } else {
                            Stage::Finished(Ok(()))
                        },
                        Err(e) => Stage::Finished(Err(e)),
                    }
                },
                _ => match effective_serial(as_optional_str(&self.serial), &outcome) {
                    Some(s) => Stage::Register(s),
                    None => self.tunnel_stage(),
                },
            },
            Event::Ran(outcome) => match stage {
                Stage::Tunnel(cmd) => match exec_adb_result(cmd, outcome) {
                    Ok(_) => if self.is_starting() {
                        Stage::Launch(
                            exec_adb_strings(
                                self.adb.as_str(),
                                as_optional_str(&self.serial),
                                start_args(&self.options),
                            ),
                        )
                    } else {
                        Stage::Finished(Ok(()))
                    },
                    Err(e) => Stage::Finished(Err(e)),
                },
                Stage::Uninstall(cmd) => match exec_adb_result(cmd, outcome) {
                    Ok(_) => if self.goal == Goal::Reinstall {
                        self.install_stage()
                    } else {
                        Stage::Finished(Ok(()))
                    },
                    Err(e) => Stage::Finished(Err(e)),
                },
                Stage::Stop(cmd) => match exec_adb_result(cmd, outcome) {
                    Ok(_) => if self.goal == Goal::Restart {
                        Stage::EnsureAdb
                    } else {
                        Stage::Finished(Ok(()))
                    },
                    Err(e) => Stage::Finished(Err(e)),
                },
                Stage::Launch(cmd) => Stage::Finished(exec_adb_result(cmd, outcome)),
                other => other,
            },
        };
        self.stage = next;
    }
}

impl StartOptions {
    /// The options of a run that starts nothing.
    fn for_port(port: u16) -> (options: StartOptions)
        ensures
            options@ == plain_options(None, None, port),
    {
        StartOptions {
            dns_servers: None,
            routes: None,
            port,
            proxy: None,
            proxy_exclusions: None,
            mtu: 0x4000,
            allow_apps: Vec::new(),
            deny_apps: Vec::new(),
            socks5: None,
        }
    }
}

/// The options without a proxy, with the default packet size, for all
/// applications.
pub open spec fn plain_options(
    dns_servers: Option<Seq<char>>,
    routes: Option<Seq<char>>,
    port: u16,
) -> StartText {
    StartText {
        dns_servers,
        routes,
        port,
        proxy: None,
        proxy_exclusions: None,
        mtu: 0x4000,
        allow_apps: Seq::empty(),
        deny_apps: Seq::empty(),
        socks5: None,
    }
}

/// Whether a run begins with this goal, for this device, with these paths.
pub open spec fn begins(
    run: CommandRun,
    goal: Goal,
    serial: Option<Seq<char>>,
    adb: Seq<char>,
    apk: Seq<char>,
) -> bool {
    &&& run.goal == goal
    &&& optional_text(run.serial) == serial
    &&& run.adb@ == adb
    &&& run.apk@ == apk
    &&& !run.tip
}

fn new_run(goal: Goal, serial: Option<&str>, adb: &str, apk: &str, options: StartOptions) -> (run:
    CommandRun)
    ensures
        begins(run, goal, optional_str(serial), adb@, apk@),
        run.options == options,
        run.stage is EnsureAdb,
{
    CommandRun {
        goal,
        serial: to_optional_text(serial),
        adb: adb.to_string(),
        apk: apk.to_string(),
        options,
        tip: false,
        stage: Stage::EnsureAdb,
    }
}

/// Installs the client.
pub fn cmd_install(serial: Option<&str>, adb: &str, apk: &str) -> (run: CommandRun)
    ensures
        begins(run, Goal::Install, optional_str(serial), adb@, apk@),
        run.installs(run.stage),
{
    let mut run = new_run(Goal::Install, serial, adb, apk, StartOptions::for_port(0));
    run.stage = run.install_stage();
    run
}

/// Uninstalls the client.
pub fn cmd_uninstall(serial: Option<&str>, adb: &str) -> (run: CommandRun)
    ensures
        begins(run, Goal::Uninstall, optional_str(serial), adb@, ""@),
        run.stage matches Stage::Uninstall(cmd) && cmd@ == run.line(uninstall_words()),
{
    let mut run = new_run(Goal::Uninstall, serial, adb, "", StartOptions::for_port(0));
    run.stage = run.uninstall_stage();
    run
}

/// Uninstalls the client, then installs it.
pub fn cmd_reinstall(serial: Option<&str>, adb: &str, apk: &str) -> (run: CommandRun)
    ensures
        begins(run, Goal::Reinstall, optional_str(serial), adb@, apk@),
        run.stage matches Stage::Uninstall(cmd) && cmd@ == run.line(uninstall_words()),
{
    let mut run = new_run(Goal::Reinstall, serial, adb, apk, StartOptions::for_port(0));
    run.stage = run.uninstall_stage();
    run
}

/// Stops the client on the device.
pub fn cmd_stop(serial: Option<&str>, adb: &str) -> (run: CommandRun)
    ensures
        begins(run, Goal::Stop, optional_str(serial), adb@, ""@),
        run.stage matches Stage::Stop(cmd) && cmd@ == run.line(stop_words()),
{
    let mut run = new_run(Goal::Stop, serial, adb, "", StartOptions::for_port(0));
    run.stage = run.stop_stage();
    run
}

/// Opens the tunnel from the device to the relay.
pub fn cmd_tunnel(serial: Option<&str>, adb: &str, port: u16) -> (run: CommandRun)
    ensures
        begins(run, Goal::Tunnel, optional_str(serial), adb@, ""@),
        run.options.port == port,
        run.opens_tunnel(run.stage),
{
    let mut run = new_run(Goal::Tunnel, serial, adb, "", StartOptions::for_port(port));
    run.stage = run.tunnel_stage();
    run
}

/// Starts the client on the device, after installing it where needed.
pub fn cmd_start(serial: Option<&str>, adb: &str, apk: &str, options: StartOptions) -> (run:
    CommandRun)
    ensures
        begins(run, Goal::Start, optional_str(serial), adb@, apk@),
        run.options == options,
        run.stage is EnsureAdb,
{
    new_run(Goal::Start, serial, adb, apk, options)
}

/// Stops the client on the device, then starts it.
pub fn cmd_restart(
    serial: Option<&str>,
    adb: &str,
    apk: &str,
    dns_servers: Option<&str>,
    routes: Option<&str>,
    port: u16,
) -> (run: CommandRun)
    ensures
        begins(run, Goal::Restart, optional_str(serial), adb@, apk@),
        run.options@ == plain_options(optional_str(dns_servers), optional_str(routes), port),
        run.stage matches Stage::Stop(cmd) && cmd@ == run.line(stop_words()),
{
    let mut options = StartOptions::for_port(port);
    options.dns_servers = to_optional_text(dns_servers);
    options.routes = to_optional_text(routes);
    let mut run = new_run(Goal::Restart, serial, adb, apk, options);
    run.stage = run.stop_stage();
    run
}

impl CommandRun {
    fn uninstall_stage(&self) -> (stage: Stage)
        ensures
            stage matches Stage::Uninstall(cmd) && cmd@ == self.line(uninstall_words()),
    {
        let cmd = exec_adb_words(
            self.adb.as_str(),
            as_optional_str(&self.serial),
            vec!["uninstall", "com.genymobile.gnirehtet"],
        );
        assert(cmd@.args =~= self.line(uninstall_words()).args);
        Stage::Uninstall(cmd)
    }

    fn stop_stage(&self) -> (stage: Stage)
        ensures
            stage matches Stage::Stop(cmd) && cmd@ == self.line(stop_words()),
    {
        let cmd = exec_adb_words(
            self.adb.as_str(),
            as_optional_str(&self.serial),
            vec![
                "shell",
                "am",
                "start",
                "-a",
                "com.genymobile.gnirehtet.STOP",
                "-n",
                "com.genymobile.gnirehtet/.GnirehtetActivity",
            ],
        );
        assert(cmd@.args =~= self.line(stop_words()).args);
        Stage::Stop(cmd)
    }
}

/// The relay server that the relay command runs.
pub fn cmd_relay(port: u16) -> (relay: Relay)
    ensures
        relay@ == port,
{
    Relay::new(port)
}

/// The result of the relay command, once its server ended.
pub open spec fn relay_result(ended: Result<(), IoError>) -> Result<(), CommandExecutionError> {
    match ended {
        Ok(_) => Ok(()),
        Err(e) => Err(CommandExecutionError::Io(e)),
    }
}

/// The result of the relay command, once its server ended.
pub fn cmd_relay_result(ended: Result<(), IoError>) -> (r: Result<(), CommandExecutionError>)
    ensures
        r == relay_result(ended),
{
    match ended {
        Ok(_) => Ok(()),
        Err(e) => Err(CommandExecutionError::Io(e)),
    }
}

/// The options that devices are started with when they get attached.
pub open spec fn auto_options(
    dns_servers: Option<Seq<char>>,
    routes: Option<Seq<char>>,
    port: u16,
    mtu: u16,
    socks5: Option<Seq<char>>,
) -> StartText {
    StartText { mtu, socks5, ..plain_options(dns_servers, routes, port) }
}

/// Starts every device that gets attached.
pub struct AutoStart {
    dns_servers: Option<String>,
    routes: Option<String>,
    port: u16,
    mtu: u16,
    socks5: Option<String>,
    usb_only: bool,
}

impl AutoStart {
    /// The options that every device is started with.
    pub closed spec fn options(&self) -> StartText {
        auto_options(
            optional_text(self.dns_servers),
            optional_text(self.routes),
            self.port,
            self.mtu,
            optional_text(self.socks5),
        )
    }

    /// Whether only devices on USB are started.
    pub closed spec fn on_usb_only(&self) -> bool {
        self.usb_only
    }

    /// Whether only devices on USB are started.
    pub fn is_usb_only(&self) -> (r: bool)
        ensures
            r == self.on_usb_only(),
    {
        self.usb_only
    }

    /// Starts a device that was attached.
    pub fn attached(&self, serial: &str, adb: &str, apk: &str) -> (run: CommandRun)
        ensures
            begins(run, Goal::Start, Some(serial@), adb@, apk@),
            run.options@ == self.options(),
            run.stage is EnsureAdb,
    {
        let mut options = StartOptions::for_port(self.port);
        options.dns_servers = to_optional_text(as_optional_str(&self.dns_servers));
        options.routes = to_optional_text(as_optional_str(&self.routes));
        options.mtu = self.mtu;
        options.socks5 = to_optional_text(as_optional_str(&self.socks5));
        cmd_start(Some(serial), adb, apk, options)
    }
}

/// Starts every device that gets attached, over USB or, where that is allowed,
/// over the network too.
pub fn cmd_autostart(
    dns_servers: Option<&str>,
    routes: Option<&str>,
    port: u16,
    mtu: u16,
    allow_wifi: bool,
    socks5: Option<&str>,
) -> (auto: AutoStart)
    ensures
        auto.options() == auto_options(
            optional_str(dns_servers),
            optional_str(routes),
            port,
            mtu,
            optional_str(socks5),
        ),
        auto.on_usb_only() == !allow_wifi,
{
    AutoStart {
        dns_servers: to_optional_text(dns_servers),
        routes: to_optional_text(routes),
        port,
        mtu,
        socks5: to_optional_text(socks5),
        usb_only: !allow_wifi,
    }
}

/// What the run command does next.
pub enum RunStage {
    /// Start the client in the background.
    StartClient,
    /// Start the runtime that waits for the server and for an interruption.
    StartRuntime,
    /// Run the relay server until it ends or the user interrupts it.
    Serve,
    /// Stop the client on the device that was to be started.
    StopClient,
    /// Leave the program, with success.
    Exit,
    /// The command is over.
    Finished(Result<(), CommandExecutionError>),
}

/// What came of a stage of the run command.
pub enum RunEvent {
    /// The stage was done, well or not.
    Done,
    /// The runtime was started.
    Runtime(Result<(), IoError>),
    /// The server ended, with the result of the relay command; or the task that
    /// ran it failed.
    RelayEnded(Result<Result<(), CommandExecutionError>, IoError>),
    /// The user interrupted the program.
    Interrupted,
}

/// Whether the event is an answer to the stage.
pub open spec fn run_awaits(stage: RunStage, event: RunEvent) -> bool {
    match stage {
        RunStage::StartClient | RunStage::StopClient => event is Done,
        RunStage::StartRuntime => event is Runtime,
        RunStage::Serve => event is RelayEnded || event is Interrupted,
        RunStage::Exit | RunStage::Finished(_) => false,
    }
}

/// Whether the command ended with an error of input or output like this.
pub open spec fn failed_like(stage: RunStage, e: IoError) -> bool {
    stage matches RunStage::Finished(Err(CommandExecutionError::Io(f))) && f.says(
        ErrorKind::Other,
        e.message@,
    )
}

/// Where the run command goes from a stage.
pub open spec fn run_continues(stage: RunStage, event: RunEvent, next: RunStage) -> bool {
    match event {
        RunEvent::Done => if stage is StartClient {
            next is StartRuntime
        } else {
            next is Exit
        },
        RunEvent::Runtime(Ok(_)) => next is Serve,
        RunEvent::Runtime(Err(e)) => failed_like(next, e),
        RunEvent::RelayEnded(Ok(result)) => next == RunStage::Finished(result),
        RunEvent::RelayEnded(Err(e)) => failed_like(next, e),
        RunEvent::Interrupted => next is StopClient,
    }
}

/// The proxy of a run: one that was set before stays, and else it is the one that
/// was asked for, where one was and could be read.
pub open spec fn proxy_of_run<Address>(
    set: Option<Address>,
    asked: bool,
    parsed: Option<Address>,
) -> Option<Address> {
    if set is Some {
        set
    } else if asked {
        parsed
    } else {
        None
    }
}

/// The proxy that TCP connections go through: one that was set before stays, and
/// else it is the one that was asked for, where that could be read.
pub fn proxy_to_use<Address>(set: Option<Address>, parsed: Option<Address>) -> (r: Option<Address>)
    ensures
        r == (if set is Some {
            set
        } else {
            parsed
        }),
{
    if set.is_some() {
        set
    } else {
        parsed
    }
}

/// A relay server, with a device that is started along with it.
pub struct RunPlan<Address> {
    /// The proxy that is set before anything is started.
    pub proxy: Option<Address>,
    /// How the device is started.
    pub start: CommandRun,
    /// The device to stop, should the user interrupt the server.
    pub serial: Option<String>,
    pub relay: Relay,
    pub stage: RunStage,
}

/// Starts the client on the device and runs the relay server. `set` is the proxy
/// that was set before; `parsed` is the address that the `socks5` option spells,
/// where it spells one.
pub fn cmd_run<Address>(
    serial: Option<&str>,
    adb: &str,
    apk: &str,
    options: StartOptions,
    set: Option<Address>,
    parsed: Option<Address>,
) -> (plan: RunPlan<Address>)
    ensures
        plan.proxy == proxy_of_run(set, options.socks5 is Some, parsed),
        begins(plan.start, Goal::Start, optional_str(serial), adb@, apk@),
        plan.start.options == options,
        plan.start.stage is EnsureAdb,
        optional_text(plan.serial) == optional_str(serial),
        plan.relay@ == options.port,
        plan.stage is StartClient,
{
    let relay = cmd_relay(options.port);
    let asked = match &options.socks5 {
        Some(_) => parsed,
        None => None,
    };
    RunPlan {
        proxy: proxy_to_use(set, asked),
        start: cmd_start(serial, adb, apk, options),
        serial: to_optional_text(serial),
        relay,
        stage: RunStage::StartClient,
    }
}

impl RunStage {
    /// Goes on with what came of the stage. An interruption stops the client and
    /// leaves the program, however that went.
    pub fn next(self, event: RunEvent) -> (next: RunStage)
        requires
            run_awaits(self, event),
        ensures
            run_continues(self, event, next),
    {
        match event {
            RunEvent::Done => match self {
                RunStage::StartClient => RunStage::StartRuntime,
                _ => RunStage::Exit,
            },
            RunEvent::Runtime(outcome) => match outcome {
                Ok(_) => RunStage::Serve,
                Err(e) => RunStage::Finished(
                    Err(CommandExecutionError::Io(IoError::other(e.message.as_str()))),
                ),
            },
            RunEvent::RelayEnded(ended) => match ended {
                Ok(result) => RunStage::Finished(result),
                Err(e) => RunStage::Finished(
                    Err(CommandExecutionError::Io(IoError::other(e.message.as_str()))),
                ),
            },
            RunEvent::Interrupted => RunStage::StopClient,
        }
    }
}

/// A relay server, with every device started that gets attached.
pub struct AutoRunPlan<Address> {
    /// The proxy that is set before anything is started.
    pub proxy: Option<Address>,
    /// How devices are started, in the background.
    pub auto: AutoStart,
    pub relay: Relay,
}

/// Starts every device that gets attached, and runs the relay server. `set` is
/// the proxy that was set before; `parsed` is the address that `socks5` spells,
/// where it spells one.
pub fn cmd_autorun<Address>(
    dns_servers: Option<&str>,
    routes: Option<&str>,
    port: u16,
    mtu: u16,
    allow_wifi: bool,
    socks5: Option<&str>,
    set: Option<Address>,
    parsed: Option<Address>,
) -> (plan: AutoRunPlan<Address>)
    ensures
        plan.proxy == proxy_of_run(set, socks5 is Some, parsed),
        plan.auto.options() == auto_options(
            optional_str(dns_servers),
            optional_str(routes),
            port,
            mtu,
            optional_str(socks5),
        ),
        plan.auto.on_usb_only() == !allow_wifi,
        plan.relay@ == port,
{
    let asked = match socks5 {
        Some(_) => parsed,
        None => None,
    };
    AutoRunPlan {
        proxy: proxy_to_use(set, asked),
        auto: cmd_autostart(dns_servers, routes, port, mtu, allow_wifi, socks5),
        relay: cmd_relay(port),
    }
}

/// How many stages a run may still go through.
pub open spec fn stages_left(run: CommandRun) -> nat {
    match run.stage {
        Stage::Stop(_) => 9,
        Stage::EnsureAdb => 8,
        Stage::CheckClient(_) => 7,
        Stage::Uninstall(_) => 7,
        Stage::Install(_) => 6,
        Stage::Pause => 5,
        Stage::ListDevices(_) => 4,
        Stage::Register(_) => 3,
        Stage::Tunnel(_) => 2,
        Stage::Launch(_) => 1,
        Stage::Finished(_) => 0,
    }
}

/// Every stage brings a run closer to its end.
pub proof fn law_runs_end(run: CommandRun, event: Event, next: CommandRun)
    requires
        awaits(run.stage, event),
        continues(run, event, next),
    ensures
        stages_left(next) < stages_left(run) <= 9,
        stages_left(next) == 0 <==> next.stage is Finished,
{
}

/// The command that a stage runs and that has to end well for the run to go on.
pub open spec fn essential(stage: Stage) -> Option<Cmd> {
    match stage {
        Stage::CheckClient(cmd) => Some(cmd),
        Stage::Install(cmd) => Some(cmd),
        Stage::Tunnel(cmd) => Some(cmd),
        Stage::Launch(cmd) => Some(cmd),
        Stage::Uninstall(cmd) => Some(cmd),
        Stage::Stop(cmd) => Some(cmd),
        _ => None,
    }
}

/// How the process of a stage ended.
pub open spec fn ended(event: Event) -> Result<ExitStatus, IoError> {
    match event {
        Event::Ran(outcome) => outcome,
        Event::Wrote(Ok(output)) => Ok(output.status),
        Event::Wrote(Err(e)) => Err(e),
        _ => Ok(ExitStatus { code: Some(0) }),
    }
}

/// Whether the process of a stage ended well.
pub open spec fn ended_well(event: Event) -> bool {
    ended(event) matches Ok(status) && status.succeeded()
}

/// The first command that fails ends the run with its own error, and a run ends
/// with an error only then.
pub proof fn law_first_failure_ends(run: CommandRun, event: Event, next: CommandRun)
    requires
        awaits(run.stage, event),
        continues(run, event, next),
    ensures
        match essential(run.stage) {
            Some(cmd) => match status_result(cmd, ended(event)) {
                Err(e) => next.stage == Stage::Finished(Err(e)),
                Ok(_) => !(next.stage matches Stage::Finished(Err(_))),
            },
            None => !(next.stage is Finished),
        },
{
}

/// The client is started only right after the tunnel was opened, and the tunnel
/// only once the installed client was found to be the required one, or was
/// installed: a start goes through these stages in this order. A serial that was
/// asked for is registered before the tunnel is opened.
pub proof fn law_start_in_order(run: CommandRun, event: Event, next: CommandRun)
    requires
        awaits(run.stage, event),
        continues(run, event, next),
    ensures
        next.stage is Launch ==> run.stage is Tunnel && ended_well(event),
        next.stage is Tunnel ==> run.stage is Register || run.stage is ListDevices,
        next.stage is Tunnel && run.serial is Some ==> run.stage is Register,
        next.stage is Register ==> run.stage is ListDevices || run.stage is Pause
            || run.stage is CheckClient,
        next.stage is ListDevices ==> run.stage is Pause || run.stage is CheckClient,
        next.stage is Pause ==> run.stage is Install && ended_well(event),
        run.stage is CheckClient && !(next.stage is Finished) ==> (next.stage is Install <==> (
        event matches Event::Wrote(Ok(output)) && outdated(utf8_lossy(output.stdout@)))),
        next.stage is CheckClient ==> run.stage is EnsureAdb,
{
}

/// Whether a run with this goal can be at this stage.
pub open spec fn on_track(goal: Goal, stage: Stage) -> bool {
    match stage {
        Stage::Install(_) => goal == Goal::Install || goal == Goal::Reinstall || starts(goal),
        Stage::Tunnel(_) => goal == Goal::Tunnel || starts(goal),
        Stage::Uninstall(_) => goal == Goal::Uninstall || goal == Goal::Reinstall,
        Stage::Stop(_) => goal == Goal::Stop || goal == Goal::Restart,
        Stage::Finished(_) => true,
        _ => starts(goal),
    }
}

/// Whether this is the last stage on the way to the goal.
pub open spec fn is_last(goal: Goal, stage: Stage) -> bool {
    match goal {
        Goal::Install | Goal::Reinstall => stage is Install,
        Goal::Uninstall => stage is Uninstall,
        Goal::Stop => stage is Stop,
        Goal::Tunnel => stage is Tunnel,
        Goal::Start | Goal::Restart => stage is Launch,
    }
}

/// A run that is on the way to its goal stays on it, and is a success exactly
/// where the last command on that way ended well.
pub proof fn law_success_reaches_the_goal(run: CommandRun, event: Event, next: CommandRun)
    requires
        on_track(run.goal, run.stage),
        awaits(run.stage, event),
        continues(run, event, next),
    ensures
        next.goal == run.goal,
        on_track(next.goal, next.stage),
        next.stage == Stage::Finished(Ok(())) <==> is_last(run.goal, run.stage) && ended_well(
            event,
        ),
{
}

/// Without a device to pick, the arguments are passed on as they are; with one,
/// they follow the two that pick it.
pub proof fn law_device_is_picked_first(serial: Seq<char>, args: Seq<Seq<char>>)
    ensures
        adb_args(None, args) == args,
        adb_args(Some(serial), args).take(2) == seq!["-s"@, serial],
        adb_args(Some(serial), args).skip(2) == args,
{
    assert(adb_args(None, args) =~= args);
    assert(adb_args(Some(serial), args).take(2) =~= seq!["-s"@, serial]);
    assert(adb_args(Some(serial), args).skip(2) =~= args);
}

/// Whether three words stand next to each other among others.
pub open spec fn passes(
    words: Seq<Seq<char>>,
    kind: Seq<char>,
    name: Seq<char>,
    value: Seq<char>,
) -> bool {
    exists|i: int|
        {
            &&& 0 <= i <= words.len() - 3
            &&& #[trigger] words[i] == kind
            &&& words[i + 1] == name
            &&& words[i + 2] == value
        }
}

proof fn passed_words_stay(words: Seq<Seq<char>>, more: Seq<Seq<char>>)
    ensures
        forall|kind: Seq<char>, name: Seq<char>, value: Seq<char>|
            passes(words, kind, name, value) ==> #[trigger] passes(words + more, kind, name, value),
{
    assert forall|kind: Seq<char>, name: Seq<char>, value: Seq<char>|
        passes(words, kind, name, value) implies #[trigger] passes(
        words + more,
        kind,
        name,
        value,
    ) by {
        let i = choose|i: int|
            {
                &&& 0 <= i <= words.len() - 3
                &&& #[trigger] words[i] == kind
                &&& words[i + 1] == name
                &&& words[i + 2] == value
            };
        assert((words + more)[i] == kind);
    }
}

proof fn added_words_pass(
    words: Seq<Seq<char>>,
    kind: Seq<char>,
    name: Seq<char>,
    value: Option<Seq<char>>,
)
    ensures
        value is Some ==> passes(words + extra(kind, name, value), kind, name, value->0),
        forall|k: Seq<char>, n: Seq<char>, v: Seq<char>|
            passes(words, k, n, v) ==> #[trigger] passes(words + extra(kind, name, value), k, n, v),
{
    passed_words_stay(words, extra(kind, name, value));
    if value is Some {
        assert((words + extra(kind, name, value))[words.len() as int] == kind);
    }
}

/// Every option that was given is passed to the client, whatever the others are:
/// its kind, its name and its value stand next to each other.
pub proof fn law_every_option_is_passed(options: StartText)
    ensures
        options.dns_servers is Some ==> passes(
            start_words(options),
            "--esa"@,
            "dnsServers"@,
            options.dns_servers->0,
        ),
        options.routes is Some ==> passes(
            start_words(options),
            "--esa"@,
            "routes"@,
            options.routes->0,
        ),
        options.proxy is Some ==> passes(
            start_words(options),
            "--es"@,
            "proxyHostPort"@,
            options.proxy->0,
        ),
        options.proxy_exclusions is Some ==> passes(
            start_words(options),
            "--esa"@,
            "proxyExclusionList"@,
            options.proxy_exclusions->0,
        ),
        options.socks5 is Some ==> passes(
            start_words(options),
            "--es"@,
            "socks5Proxy"@,
            options.socks5->0,
        ),
        passes(start_words(options), "--ei"@, "mtu"@, decimal(options.mtu as nat)),
        options.allow_apps.len() > 0 ==> passes(
            start_words(options),
            "--esa"@,
            "allowApps"@,
            joined(options.allow_apps, ","@),
        ),
        options.deny_apps.len() > 0 ==> passes(
            start_words(options),
            "--esa"@,
            "denyApps"@,
            joined(options.deny_apps, ","@),
        ),
{
    let words = start_words(options);
    let base = seq![
        "shell"@,
        "am"@,
        "start"@,
        "-a"@,
        "com.genymobile.gnirehtet.START"@,
        "-n"@,
        "com.genymobile.gnirehtet/.GnirehtetActivity"@,
    ];
    let w1 = base + extra("--esa"@, "dnsServers"@, options.dns_servers);
    let w2 = w1 + extra("--esa"@, "routes"@, options.routes);
    let w3 = w2 + extra("--es"@, "proxyHostPort"@, options.proxy);
    let w4 = w3 + extra("--esa"@, "proxyExclusionList"@, options.proxy_exclusions);
    let w5 = w4 + extra("--es"@, "socks5Proxy"@, options.socks5);
    let w6 = w5 + extra("--ei"@, "mtu"@, Some(decimal(options.mtu as nat)));
    let w7 = w6 + extra("--esa"@, "allowApps"@, listed(options.allow_apps));
    added_words_pass(base, "--esa"@, "dnsServers"@, options.dns_servers);
    added_words_pass(w1, "--esa"@, "routes"@, options.routes);
    added_words_pass(w2, "--es"@, "proxyHostPort"@, options.proxy);
    added_words_pass(w3, "--esa"@, "proxyExclusionList"@, options.proxy_exclusions);
    added_words_pass(w4, "--es"@, "socks5Proxy"@, options.socks5);
    added_words_pass(w5, "--ei"@, "mtu"@, Some(decimal(options.mtu as nat)));
    added_words_pass(w6, "--esa"@, "allowApps"@, listed(options.allow_apps));
    added_words_pass(w7, "--esa"@, "denyApps"@, listed(options.deny_apps));
    assert(words == w7 + extra("--esa"@, "denyApps"@, listed(options.deny_apps)));
}

/// Nothing but the options that were given is passed to the client: three words
/// for each, three for the packet size, and the seven that start it, in front.
pub proof fn law_nothing_else_is_passed(options: StartText)
    ensures
        start_words(options).len() == 10 + (if options.dns_servers is Some {
            3int
        } else {
            0
        }) + (if options.routes is Some {
            3int
        } else {
            0
        }) + (if options.proxy is Some {
            3int
        } else {
            0
        }) + (if options.proxy_exclusions is Some {
            3int
        } else {
            0
        }) + (if options.socks5 is Some {
            3int
        } else {
            0
        }) + (if options.allow_apps.len() > 0 {
            3int
        } else {
            0
        }) + (if options.deny_apps.len() > 0 {
            3int
        } else {
            0
        }),
        start_words(options).take(7) == seq![
            "shell"@,
            "am"@,
            "start"@,
            "-a"@,
            "com.genymobile.gnirehtet.START"@,
            "-n"@,
            "com.genymobile.gnirehtet/.GnirehtetActivity"@,
        ],
{
    assert(start_words(options).take(7) =~= seq![
        "shell"@,
        "am"@,
        "start"@,
        "-a"@,
        "com.genymobile.gnirehtet.START"@,
        "-n"@,
        "com.genymobile.gnirehtet/.GnirehtetActivity"@,
    ]);
}

/// A run keeps its goal, its device, its package and its options from beginning to
/// end, and calls `adb` by the same path but where a path was made sure of.
pub proof fn law_run_keeps_its_settings(run: CommandRun, event: Event, next: CommandRun)
    requires
        awaits(run.stage, event),
        continues(run, event, next),
    ensures
        next.goal == run.goal,
        next.serial == run.serial,
        next.apk == run.apk,
        next.options == run.options,
        event matches Event::AdbReady(adb) ==> next.adb == adb,
        !(event is AdbReady) ==> next.adb == run.adb,
{
}

/// Every command that a run comes to calls the run's `adb`, picks the run's device
/// where one was asked for, and says exactly what its stage is for; only the list
/// of devices is asked for without picking one.
pub proof fn law_commands_are_for_the_device(run: CommandRun, event: Event, next: CommandRun)
    requires
        awaits(run.stage, event),
        continues(run, event, next),
    ensures
        ({
            let picked = match run.serial {
                Some(s) => seq!["-s"@, s@],
                None => Seq::empty(),
            };
            &&& next.stage matches Stage::CheckClient(cmd) ==> cmd@.command == next.adb@
                && cmd@.args == picked + seq![
                "shell"@,
                "dumpsys"@,
                "package"@,
                "com.genymobile.gnirehtet"@,
            ]
            &&& next.stage matches Stage::Install(cmd) ==> cmd@.command == next.adb@ && cmd@.args
                == picked + seq!["install"@, "-r"@, run.apk@]
            &&& next.stage matches Stage::Tunnel(cmd) ==> cmd@.command == next.adb@ && cmd@.args
                == picked + seq![
                "reverse"@,
                "localabstract:gnirehtet"@,
                "tcp:"@ + decimal(run.options.port as nat),
            ]
            &&& next.stage matches Stage::Launch(cmd) ==> cmd@.command == next.adb@ && cmd@.args
                == picked + start_words(run.options@)
            &&& next.stage matches Stage::ListDevices(cmd) ==> cmd@.command == next.adb@
                && cmd@.args == seq!["devices"@] && run.serial is None
            &&& !(next.stage is Stop) && !(next.stage is Uninstall)
        }),
{
}

/// The serial that is registered is the one that was asked for, or else the only
/// device that is ready; where neither is known, none is registered and the start
/// goes on all the same.
pub proof fn law_right_serial_is_registered(run: CommandRun, event: Event, next: CommandRun)
    requires
        awaits(run.stage, event),
        continues(run, event, next),
    ensures
        next.stage is Register && run.serial is Some ==> next.stage->Register_0@ == run.serial->0@,
        next.stage is Register && run.serial is None ==> run.stage is ListDevices && (
        event matches Event::Wrote(Ok(output)) && output.status.code == Some(0i32) && only_device(
            utf8_lossy(output.stdout@),
        ) == Some(next.stage->Register_0@)),
        run.stage is ListDevices && run.serial is None ==> next.stage is Register || next.stage
            is Tunnel,
        run.stage is ListDevices && run.serial is None && (event matches Event::Wrote(Ok(output))
            && output.status.code == Some(0i32) && only_device(utf8_lossy(output.stdout@)) is Some)
            ==> next.stage is Register,
        run.stage is Pause && run.serial is None ==> next.stage is ListDevices,
        run.stage is Pause && run.serial is Some ==> next.stage is Register,
        run.stage is Register ==> next.stage is Tunnel,
{
}

/// A device is asked about its client first, and the client is installed exactly
/// where the answer says that it is missing or of another version; after that
/// installation a start waits a little, and other commands are done.
pub proof fn law_client_is_installed_where_needed(run: CommandRun, event: Event, next: CommandRun)
    requires
        awaits(run.stage, event),
        continues(run, event, next),
    ensures
        run.stage is EnsureAdb ==> next.stage is CheckClient,
        run.stage is CheckClient && ended_well(event) ==> (next.stage is Install <==> outdated(
            utf8_lossy(event->Wrote_0->Ok_0.stdout@),
        )),
        run.stage is CheckClient && ended_well(event) && !(next.stage is Install) ==> next.stage
            is Register || next.stage is ListDevices,
        run.stage is Install && ended_well(event) && (run.goal == Goal::Start || run.goal
            == Goal::Restart) ==> next.stage is Pause,
        run.stage is Install && ended_well(event) && run.goal != Goal::Start && run.goal
            != Goal::Restart ==> next.stage == Stage::Finished(Ok(())),
        run.stage is Tunnel && ended_well(event) && (run.goal == Goal::Start || run.goal
            == Goal::Restart) ==> next.stage is Launch,
        run.stage is Uninstall && ended_well(event) && run.goal == Goal::Reinstall ==> next.stage
            is Install,
        run.stage is Stop && ended_well(event) && run.goal == Goal::Restart ==> next.stage
            is EnsureAdb,
{
}

/// How a process ended is its own exit status, also where its output was read, and
/// it ended well exactly with the exit code zero.
pub proof fn law_ends_are_read_right(output: Output, status: ExitStatus, error: IoError)
    ensures
        ended(Event::Wrote(Ok(output))) == Ok::<ExitStatus, IoError>(output.status),
        ended(Event::Wrote(Err(error))) == Err::<ExitStatus, IoError>(error),
        ended(Event::Ran(Ok(status))) == Ok::<ExitStatus, IoError>(status),
        ended(Event::Ran(Err(error))) == Err::<ExitStatus, IoError>(error),
        ended_well(Event::Ran(Ok(status))) <==> status.code == Some(0i32),
        ended_well(Event::Wrote(Ok(output))) <==> output.status.code == Some(0i32),
        !ended_well(Event::Ran(Err(error))),
        !ended_well(Event::Wrote(Err(error))),
{
}

/// A tip is given exactly about an installation that was run, did not end well,
/// and wrote `INSTALL_FAILED` anywhere among its errors; other stages leave the
/// tip as it is.
pub proof fn law_tip_is_about_refused_installations(
    run: CommandRun,
    event: Event,
    next: CommandRun,
    output: Output,
    error: IoError,
)
    requires
        awaits(run.stage, event),
        continues(run, event, next),
    ensures
        run.stage is Install && event == Event::Wrote(Ok(output)) ==> (next.tip
            <==> output.status.code != Some(0i32) && exists|i: int|
            0 <= i <= utf8_lossy(output.stderr@).len() - 14 && #[trigger] utf8_lossy(
                output.stderr@,
            ).subrange(i, i + 14) == "INSTALL_FAILED"@),
        run.stage is Install && event == Event::Wrote(Err(error)) ==> !next.tip,
        !(run.stage is Install) ==> next.tip == run.tip,
{
    reveal_strlit("INSTALL_FAILED");
    first_match_is_first(utf8_lossy(output.stderr@), "INSTALL_FAILED"@);
    let stderr = utf8_lossy(output.stderr@);
    if let Some(i) = first_match(stderr, "INSTALL_FAILED"@) {
        assert(stderr.subrange(i, i + 14) == "INSTALL_FAILED"@);
    }
}

/// A run begins with exactly what was asked for, and without a tip.
pub proof fn law_runs_begin_as_asked(
    run: CommandRun,
    goal: Goal,
    serial: Option<Seq<char>>,
    adb: Seq<char>,
    apk: Seq<char>,
)
    requires
        begins(run, goal, serial, adb, apk),
    ensures
        run.goal == goal,
        serial is Some ==> run.serial is Some && run.serial->0@ == serial->0,
        serial is None ==> run.serial is None,
        run.adb@ == adb,
        run.apk@ == apk,
        !run.tip,
{
}

/// A stage that installs, opens the tunnel or finds out the device says exactly
/// that.
pub proof fn law_stages_say_what_they_do(run: CommandRun, stage: Stage)
    ensures
        ({
            let picked = match run.serial {
                Some(s) => seq!["-s"@, s@],
                None => Seq::empty(),
            };
            &&& run.installs(stage) ==> (stage matches Stage::Install(cmd) && cmd@.command
                == run.adb@ && cmd@.args == picked + seq!["install"@, "-r"@, run.apk@])
            &&& run.opens_tunnel(stage) ==> (stage matches Stage::Tunnel(cmd) && cmd@.command
                == run.adb@ && cmd@.args == picked + seq![
                "reverse"@,
                "localabstract:gnirehtet"@,
                "tcp:"@ + decimal(run.options.port as nat),
            ])
            &&& run.line(uninstall_words()).args == picked + seq![
                "uninstall"@,
                "com.genymobile.gnirehtet"@,
            ]
            &&& run.line(stop_words()).args == picked + seq![
                "shell"@,
                "am"@,
                "start"@,
                "-a"@,
                "com.genymobile.gnirehtet.STOP"@,
                "-n"@,
                "com.genymobile.gnirehtet/.GnirehtetActivity"@,
            ]
            &&& run.line(stop_words()).command == run.adb@
        }),
{
}

/// A restart, and a device that gets attached, pass on what was asked for, each
/// field whatever the others are, and nothing that was not.
pub proof fn law_options_are_kept(
    dns_servers: Option<Seq<char>>,
    routes: Option<Seq<char>>,
    port: u16,
    mtu: u16,
    socks5: Option<Seq<char>>,
)
    ensures
        ({
            let plain = plain_options(dns_servers, routes, port);
            let auto = auto_options(dns_servers, routes, port, mtu, socks5);
            &&& plain.dns_servers == dns_servers && auto.dns_servers == dns_servers
            &&& plain.routes == routes && auto.routes == routes
            &&& plain.port == port && auto.port == port
            &&& plain.mtu == 16384 && auto.mtu == mtu
            &&& plain.socks5 is None && auto.socks5 == socks5
            &&& plain.proxy is None && auto.proxy is None
            &&& plain.proxy_exclusions is None && auto.proxy_exclusions is None
            &&& plain.allow_apps.len() == 0 && auto.allow_apps.len() == 0
            &&& plain.deny_apps.len() == 0 && auto.deny_apps.len() == 0
        }),
{
}

/// The run command ends like its server: with the server's own error where the
/// server failed, and as a success only where it did not. A runtime that cannot be
/// started, or a task that fails, is an error too, and an interruption always
/// stops the client and then leaves the program.
pub proof fn law_run_ends_like_its_server(
    stage: RunStage,
    next: RunStage,
    error: CommandExecutionError,
    failure: IoError,
)
    ensures
        run_continues(stage, RunEvent::RelayEnded(Ok(Err(error))), next) ==> next
            == RunStage::Finished(Err(error)),
        run_continues(stage, RunEvent::RelayEnded(Ok(Ok(()))), next) ==> next
            == RunStage::Finished(Ok(())),
        run_continues(stage, RunEvent::RelayEnded(Err(failure)), next) ==> (next
            matches RunStage::Finished(Err(CommandExecutionError::Io(e))) && e.message@
            == failure.message@ && e.kind == ErrorKind::Other),
        run_continues(stage, RunEvent::Runtime(Err(failure)), next) ==> (next
            matches RunStage::Finished(Err(CommandExecutionError::Io(e))) && e.message@
            == failure.message@ && e.kind == ErrorKind::Other),
        run_continues(stage, RunEvent::Runtime(Ok(())), next) ==> next is Serve,
        run_continues(stage, RunEvent::Interrupted, next) ==> next is StopClient,
        stage is StartClient && run_continues(stage, RunEvent::Done, next) ==> next is StartRuntime,
        stage is StopClient && run_continues(stage, RunEvent::Done, next) ==> next is Exit,
{
}

/// The run command is a success only where its server ended without an error.
pub proof fn law_run_succeeds_with_its_server(stage: RunStage, event: RunEvent, next: RunStage)
    requires
        run_awaits(stage, event),
        run_continues(stage, event, next),
    ensures
        next == RunStage::Finished(Ok(())) <==> event == RunEvent::RelayEnded(Ok(Ok(()))),
        next is Finished ==> event is RelayEnded || event is Runtime,
        next is Exit <==> stage is StopClient,
        next is StopClient <==> event is Interrupted,
{
}

/// The relay command is a success exactly where its server was, and else fails
/// with the server's error.
pub proof fn law_relay_command_passes_errors_on(error: IoError)
    ensures
        relay_result(Ok(())) is Ok,
        relay_result(Err(error)) == Err::<(), CommandExecutionError>(
            CommandExecutionError::Io(error),
        ),
{
}

/// A proxy that was set stays whatever is asked for; else the one that was asked
/// for is set, where it could be read; and none is set that nobody asked for.
pub proof fn law_proxy_is_set_once<Address>(address: Address, parsed: Option<Address>, asked: bool)
    ensures
        proxy_of_run(Some(address), asked, parsed) == Some(address),
        proxy_of_run(None, true, parsed) == parsed,
        proxy_of_run(None, false, parsed) is None,
        proxy_of_run(
            proxy_of_run(None, true, Some(address)),
            asked,
            parsed,
        ) == Some(address),
{
}

/// Every outcome of a stage is an answer to it: a run does not get stuck on one.
pub proof fn law_every_outcome_is_an_answer(
    adb: String,
    serial: String,
    cmd: Cmd,
    ran: Result<ExitStatus, IoError>,
    wrote: Result<Output, IoError>,
    runtime: Result<(), IoError>,
    relay: Result<Result<(), CommandExecutionError>, IoError>,
)
    ensures
        awaits(Stage::EnsureAdb, Event::AdbReady(adb)),
        awaits(Stage::CheckClient(cmd), Event::Wrote(wrote)),
        awaits(Stage::Install(cmd), Event::Wrote(wrote)),
        awaits(Stage::Pause, Event::Done),
        awaits(Stage::ListDevices(cmd), Event::Wrote(wrote)),
        awaits(Stage::Register(serial), Event::Done),
        awaits(Stage::Tunnel(cmd), Event::Ran(ran)),
        awaits(Stage::Launch(cmd), Event::Ran(ran)),
        awaits(Stage::Uninstall(cmd), Event::Ran(ran)),
        awaits(Stage::Stop(cmd), Event::Ran(ran)),
        run_awaits(RunStage::StartClient, RunEvent::Done),
        run_awaits(RunStage::StartRuntime, RunEvent::Runtime(runtime)),
        run_awaits(RunStage::Serve, RunEvent::RelayEnded(relay)),
        run_awaits(RunStage::Serve, RunEvent::Interrupted),
        run_awaits(RunStage::StopClient, RunEvent::Done),
{
}

/// The words that pick a device, where one was asked for.
pub open spec fn picks(serial: Option<&str>) -> Seq<Seq<char>> {
    match serial {
        Some(s) => seq!["-s"@, s@],
        None => Seq::empty(),
    }
}

/// Whether a run is for the device that was asked for.
pub open spec fn is_for(run: CommandRun, serial: Option<&str>) -> bool {
    match serial {
        Some(s) => run.serial is Some && run.serial->0@ == s@,
        None => run.serial is None,
    }
}

/// Installing, uninstalling, reinstalling, stopping and tunnelling begin with
/// their own command, called by the given path, for the device that was asked for.
pub proof fn law_commands_begin_for_the_device(
    serial: Option<&str>,
    adb: &str,
    apk: &str,
    port: u16,
    run: CommandRun,
)
    ensures
        call_ensures(cmd_install, (serial, adb, apk), run) ==> {
            &&& run.goal == Goal::Install && is_for(run, serial) && run.adb@ == adb@ && !run.tip
            &&& run.stage matches Stage::Install(cmd) && cmd@.command == adb@ && cmd@.args == picks(
                serial,
            ) + seq!["install"@, "-r"@, apk@]
        },
        call_ensures(cmd_uninstall, (serial, adb), run) ==> {
            &&& run.goal == Goal::Uninstall && is_for(run, serial) && run.adb@ == adb@ && !run.tip
            &&& run.stage matches Stage::Uninstall(cmd) && cmd@.command == adb@ && cmd@.args
                == picks(serial) + seq!["uninstall"@, "com.genymobile.gnirehtet"@]
        },
        call_ensures(cmd_reinstall, (serial, adb, apk), run) ==> {
            &&& run.goal == Goal::Reinstall && is_for(run, serial) && run.adb@ == adb@ && run.apk@
                == apk@ && !run.tip
            &&& run.stage matches Stage::Uninstall(cmd) && cmd@.command == adb@ && cmd@.args
                == picks(serial) + seq!["uninstall"@, "com.genymobile.gnirehtet"@]
        },
        call_ensures(cmd_stop, (serial, adb), run) ==> {
            &&& run.goal == Goal::Stop && is_for(run, serial) && run.adb@ == adb@ && !run.tip
            &&& run.stage matches Stage::Stop(cmd) && cmd@.command == adb@ && cmd@.args == picks(
                serial,
            ) + stop_words()
        },
        call_ensures(cmd_tunnel, (serial, adb, port), run) ==> {
            &&& run.goal == Goal::Tunnel && is_for(run, serial) && run.adb@ == adb@ && !run.tip
            &&& run.stage matches Stage::Tunnel(cmd) && cmd@.command == adb@ && cmd@.args == picks(
                serial,
            ) + seq!["reverse"@, "localabstract:gnirehtet"@, "tcp:"@ + decimal(port as nat)]
        },
{
}

/// Starting and restarting begin for the device that was asked for, with all the
/// options that were asked for, whatever they are; a restart stops the client
/// first.
pub proof fn law_starts_begin_as_asked(
    serial: Option<&str>,
    adb: &str,
    apk: &str,
    options: StartOptions,
    dns_servers: Option<&str>,
    routes: Option<&str>,
    port: u16,
    run: CommandRun,
)
    ensures
        call_ensures(cmd_start, (serial, adb, apk, options), run) ==> {
            &&& run.goal == Goal::Start && is_for(run, serial) && run.adb@ == adb@ && run.apk@
                == apk@ && !run.tip
            &&& run.options == options
            &&& run.stage is EnsureAdb
        },
        call_ensures(cmd_restart, (serial, adb, apk, dns_servers, routes, port), run) ==> {
            &&& run.goal == Goal::Restart && is_for(run, serial) && run.adb@ == adb@ && run.apk@
                == apk@ && !run.tip
            &&& run.options@ == plain_options(optional_str(dns_servers), optional_str(routes), port)
            &&& run.stage matches Stage::Stop(cmd) && cmd@.command == adb@ && cmd@.args == picks(
                serial,
            ) + stop_words()
        },
{
}

/// The run commands start what they were asked to, with what they were asked for,
/// and run their server on the given port; the device to stop is the one that was
/// started.
pub proof fn law_run_commands_plan_as_asked<Address>(
    serial: Option<&str>,
    adb: &str,
    apk: &str,
    options: StartOptions,
    dns_servers: Option<&str>,
    routes: Option<&str>,
    port: u16,
    mtu: u16,
    allow_wifi: bool,
    socks5: Option<&str>,
    set: Option<Address>,
    parsed: Option<Address>,
    plan: RunPlan<Address>,
    auto_plan: AutoRunPlan<Address>,
)
    ensures
        call_ensures(cmd_run::<Address>, (serial, adb, apk, options, set, parsed), plan) ==> {
            &&& plan.start.goal == Goal::Start && is_for(plan.start, serial)
            &&& plan.start.adb@ == adb@ && plan.start.apk@ == apk@
            &&& plan.start.options == options && plan.start.stage is EnsureAdb
            &&& serial is Some ==> plan.serial is Some && plan.serial->0@ == serial->0@
            &&& serial is None ==> plan.serial is None
            &&& plan.relay@ == options.port
            &&& plan.stage is StartClient
            &&& set is Some ==> plan.proxy == set
            &&& set is None && options.socks5 is Some ==> plan.proxy == parsed
            &&& set is None && options.socks5 is None ==> plan.proxy is None
        },
        call_ensures(
            cmd_autorun::<Address>,
            (dns_servers, routes, port, mtu, allow_wifi, socks5, set, parsed),
            auto_plan,
        ) ==> {
            &&& auto_plan.auto.options() == auto_options(
                optional_str(dns_servers),
                optional_str(routes),
                port,
                mtu,
                optional_str(socks5),
            )
            &&& auto_plan.auto.on_usb_only() == !allow_wifi
            &&& auto_plan.relay@ == port
            &&& set is Some ==> auto_plan.proxy == set
            &&& set is None && socks5 is Some ==> auto_plan.proxy == parsed
            &&& set is None && socks5 is None ==> auto_plan.proxy is None
        },
{
}

/// A device that gets attached is started itself, by its own serial and with the
/// options of the command; only devices on USB are, unless others are allowed; and
/// the relay command's server has the given port.
pub proof fn law_attached_devices_are_started(
    dns_servers: Option<&str>,
    routes: Option<&str>,
    port: u16,
    mtu: u16,
    allow_wifi: bool,
    socks5: Option<&str>,
    auto: AutoStart,
    serial: &str,
    adb: &str,
    apk: &str,
    run: CommandRun,
    relay: Relay,
    usb_only: bool,
)
    ensures
        call_ensures(
            cmd_autostart,
            (dns_servers, routes, port, mtu, allow_wifi, socks5),
            auto,
        ) ==> {
            &&& auto.options() == auto_options(
                optional_str(dns_servers),
                optional_str(routes),
                port,
                mtu,
                optional_str(socks5),
            )
            &&& auto.on_usb_only() == !allow_wifi
        },
        call_ensures(AutoStart::attached, (&auto, serial, adb, apk), run) ==> {
            &&& run.goal == Goal::Start && run.serial is Some && run.serial->0@ == serial@
            &&& run.adb@ == adb@ && run.apk@ == apk@ && run.stage is EnsureAdb
            &&& run.options@ == auto.options()
        },
        call_ensures(AutoStart::is_usb_only, (&auto,), usb_only) ==> usb_only
            == auto.on_usb_only(),
        call_ensures(cmd_relay, (port,), relay) ==> relay@ == port,
{
}

/// A run goes on as its stages say, on every call; the words of a start are those
/// of its options; and the waits, tips and results are the ones that belong to the
/// stage.
pub proof fn law_calls_carry_a_run_on(
    run: &mut CommandRun,
    event: Event,
    options: StartOptions,
    args: Vec<String>,
    stage: RunStage,
    run_event: RunEvent,
    next: RunStage,
    ended: Result<(), IoError>,
    result: Result<(), CommandExecutionError>,
    waiting: Stage,
    pause: Option<u64>,
)
    ensures
        call_ensures(CommandRun::next, (run, event), ()) ==> continues(
            *old(run),
            event,
            *final(run),
        ),
        call_ensures(start_args, (&options,), args) ==> texts(args@) == start_words(options@),
        call_ensures(RunStage::next, (stage, run_event), next) ==> run_continues(
            stage,
            run_event,
            next,
        ),
        call_ensures(cmd_relay_result, (ended,), result) ==> (ended is Ok ==> result is Ok) && (
        ended is Err ==> result == Err::<(), CommandExecutionError>(
            CommandExecutionError::Io(ended->Err_0),
        )),
        call_ensures(pause_millis, (&waiting,), pause) ==> (pause is Some <==> waiting is Pause)
            && (pause is Some ==> pause->0 == 500),
{
}

/// Advice is given with the tip only, and says what to do; a proxy that is set
/// stays, on every call.
pub proof fn law_calls_advise<Address>(
    run: CommandRun,
    tip: Option<&'static str>,
    set: Option<Address>,
    parsed: Option<Address>,
    used: Option<Address>,
)
    ensures
        call_ensures(CommandRun::advice, (&run,), tip) ==> {
            &&& tip is Some <==> run.tip
            &&& tip is Some ==> tip->0@
                == "Tip: Make sure USB debugging is enabled on your device and check for a confirmation dialog on the device screen."@
        },
        call_ensures(proxy_to_use::<Address>, (set, parsed), used) ==> {
            &&& set is Some ==> used == set
            &&& set is None ==> used == parsed
        },
{
}

} // verus!
