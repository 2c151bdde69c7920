//! The `adb` tool: where it is, and how it is called.

use vstd::prelude::*;

use crate::execution_error::{
    Cmd, CommandExecutionError, CommandLine, ExitStatus, Output, ProcessIoError, ProcessStatusError,
};
use crate::io_error::IoError;
use crate::text::{count_before, find, from_utf8_lossy, same_text, to_chars};
#[allow(unused_imports)]
use crate::execution_error::status_result;
#[allow(unused_imports)]
use crate::text::{
    first_match, first_match_is_first, length_before, length_before_is_first, optional_str, texts,
    utf8_lossy,
};

verus! {

/// The version of the client that goes with this relay.
pub const REQUIRED_APK_VERSION_CODE: &'static str = "11";

/// The systems that the relay runs on.
#[derive(Clone, Copy, Debug, PartialEq, Eq, Structural)]
pub enum TargetOs {
    Linux,
    MacOs,
    Windows,
}

/// The value of an environment variable.
pub enum EnvVar {
    /// The variable is not set.
    Unset,
    /// The value is not valid Unicode.
    Invalid,
    /// The value.
    Text(String),
}

/// What an environment variable says.
pub enum EnvText {
    Unset,
    Invalid,
    Text(Seq<char>),
}

impl View for EnvVar {
    type V = EnvText;

    open spec fn view(&self) -> EnvText {
        match self {
            EnvVar::Unset => EnvText::Unset,
            EnvVar::Invalid => EnvText::Invalid,
            EnvVar::Text(s) => EnvText::Text(s@),
        }
    }
}

/// The value of a variable that is set to a valid one, or `default`.
pub open spec fn value_or(env: EnvText, default: Seq<char>) -> Seq<char> {
    match env {
        EnvText::Text(s) => s,
        _ => default,
    }
}

fn env_or(env: EnvVar, default: &str) -> (r: String)
    ensures
        r@ == value_or(env@, default@),
{
    match env {
        EnvVar::Text(s) => s,
        _ => default.to_string(),
    }
}

/// The name of a system in the address of its platform tools.
pub open spec fn platform(os: TargetOs) -> Seq<char> {
    match os {
        TargetOs::Linux => "linux"@,
        TargetOs::MacOs => "darwin"@,
        TargetOs::Windows => "windows"@,
    }
}

/// The name of a system in the address of its platform tools.
pub fn get_platform(os: TargetOs) -> (r: &'static str)
    ensures
        r@ == platform(os),
{
    match os {
        TargetOs::Linux => "linux",
        TargetOs::MacOs => "darwin",
        TargetOs::Windows => "windows",
    }
}

/// The environment variable that tells the path to `adb`.
pub fn adb_variable() -> (name: &'static str)
    ensures
        name@ == "ADB"@,
{
    "ADB"
}

/// The environment variable that tells the path to the client's package.
pub fn apk_variable() -> (name: &'static str)
    ensures
        name@ == "GNIREHTET_APK"@,
{
    "GNIREHTET_APK"
}

/// The path to `adb` for one that was resolved, or not, and its variable.
pub open spec fn adb_path(resolved: Option<Seq<char>>, env: EnvText) -> Seq<char> {
    match resolved {
        Some(path) => path,
        None => value_or(env, "adb"@),
    }
}

/// The path to `adb`: the one that was resolved, or else the one in the
/// environment, or else the bare name.
pub fn get_adb_path(resolved: Option<&str>, env: EnvVar) -> (path: String)
    ensures
        path@ == adb_path(optional_str(resolved), env@),
{
    match resolved {
        Some(p) => p.to_string(),
        None => env_or(env, "adb"),
    }
}

/// The path to the client's package: the one in the environment, or else the
/// bare name.
pub fn get_apk_path(env: EnvVar) -> (path: String)
    ensures
        path@ == value_or(env@, "gnirehtet.apk"@),
{
    env_or(env, "gnirehtet.apk")
}

/// The arguments that pick a device.
pub open spec fn device_args(serial: Option<Seq<char>>) -> Seq<Seq<char>> {
    match serial {
        Some(s) => seq!["-s"@, s],
        None => Seq::empty(),
    }
}

/// The arguments of `adb` for a device.
pub open spec fn adb_args(serial: Option<Seq<char>>, args: Seq<Seq<char>>) -> Seq<Seq<char>> {
    device_args(serial) + args
}

/// Whether `converted` is what the conversion of each argument into a string
/// gives.
pub open spec fn conversions<S: Into<String>>(args: Seq<S>, converted: Seq<String>) -> bool {
    &&& converted.len() == args.len()
    &&& forall|i: int|
        0 <= i < args.len() ==> call_ensures(
            <S as Into<String>>::into,
            (args[i],),
            #[trigger] converted[i],
        )
}

/// Whether `command` holds the arguments of `adb` for a device: those that pick
/// it, where one is to be picked, before the converted others.
pub open spec fn arguments_made<S: Into<String>>(
    serial: Option<Seq<char>>,
    args: Seq<S>,
    command: Seq<String>,
) -> bool {
    let n = device_args(serial).len() as int;
    &&& command.len() == n + args.len()
    &&& texts(command.take(n)) == device_args(serial)
    &&& conversions(args, command.skip(n))
}

/// Makes the arguments of `adb` for a device.
pub fn create_adb_args<S: Into<String>>(serial: Option<&str>, args: Vec<S>) -> (command: Vec<
    String,
>)
    ensures
        arguments_made(optional_str(serial), args@, command@),
{
    let mut command: Vec<String> = Vec::new();
    if let Some(serial) = serial {
        command.push("-s".into());
        command.push(serial.to_string());
    }
    let ghost n = command@.len() as int;
    let ghost prefix = command@;
    for arg in it: args
        invariant
            it.seq() == args@,
            command@.len() == n + it.index(),
            command@.take(n) == prefix,
            prefix.len() == n,
            forall|i: int|
                0 <= i < it.index() ==> call_ensures(
                    <S as Into<String>>::into,
                    (args@[i],),
                    #[trigger] command@.skip(n)[i],
                ),
    {
        let ghost before = command@;
        command.push(arg.into());
        assert(command@.take(n) =~= before.take(n));
        assert forall|i: int| 0 <= i < it.index() + 1 implies call_ensures(
            <S as Into<String>>::into,
            (args@[i],),
            #[trigger] command@.skip(n)[i],
        ) by {
            if i < it.index() {
                assert(command@.skip(n)[i] == before.skip(n)[i]);
            }
        }
    }
    assert(texts(command@.take(n)) =~= device_args(optional_str(serial)));
    command
}

/// The command line that calls `adb` for a device.
pub open spec fn adb_command(
    adb: Seq<char>,
    serial: Option<Seq<char>>,
    args: Seq<Seq<char>>,
) -> CommandLine {
    CommandLine { command: adb, args: adb_args(serial, args) }
}

/// Where each conversion keeps the text, the command has the texts of the
/// arguments.
proof fn made_of_texts<S: Into<String>>(
    serial: Option<Seq<char>>,
    args: Seq<S>,
    words: Seq<Seq<char>>,
    command: Seq<String>,
)
    requires
        arguments_made(serial, args, command),
        words.len() == args.len(),
        forall|i: int, s: String|
            0 <= i < args.len() && #[trigger] call_ensures(
                <S as Into<String>>::into,
                (args[i],),
                s,
            ) ==> s@ == words[i],
    ensures
        texts(command) == adb_args(serial, words),
{
    let n = device_args(serial).len() as int;
    let made = texts(command);
    assert forall|i: int| 0 <= i < made.len() implies made[i] == adb_args(serial, words)[i] by {
        if i < n {
            assert(texts(command.take(n))[i] == command.take(n)[i]@);
        } else {
            assert(call_ensures(
                <S as Into<String>>::into,
                (args[i - n],),
                command.skip(n)[i - n],
            ));
        }
    }
    assert(made =~= adb_args(serial, words));
}

/// The texts of string slices.
pub open spec fn str_texts(args: Seq<&str>) -> Seq<Seq<char>> {
    Seq::new(args.len(), |i: int| args[i]@)
}

/// The command line that calls `adb` for a device.
pub fn exec_adb<S: Into<String>>(adb: &str, serial: Option<&str>, args: Vec<S>) -> (cmd: Cmd)
    ensures
        cmd.command@ == adb@,
        arguments_made(optional_str(serial), args@, cmd.args@),
{
    let adb_args = create_adb_args(serial, args);
    Cmd::new(adb.to_string(), adb_args)
}

/// The command line that calls `adb` for a device with these words.
pub(crate) fn exec_adb_words(adb: &str, serial: Option<&str>, args: Vec<&str>) -> (cmd: Cmd)
    ensures
        cmd@ == adb_command(adb@, optional_str(serial), str_texts(args@)),
{
    let ghost given = args@;
    let cmd = exec_adb(adb, serial, args);
    proof {
        made_of_texts(optional_str(serial), given, str_texts(given), cmd.args@);
    }
    cmd
}

/// The command line that calls `adb` for a device with these strings.
pub(crate) fn exec_adb_strings(adb: &str, serial: Option<&str>, args: Vec<String>) -> (cmd: Cmd)
    ensures
        cmd@ == adb_command(adb@, optional_str(serial), texts(args@)),
{
    let ghost given = args@;
    let cmd = exec_adb(adb, serial, args);
    proof {
        made_of_texts(optional_str(serial), given, texts(given), cmd.args@);
    }
    cmd
}

/// What came of calling `adb`: well unless it could not be run, or did not end
/// well.
pub fn exec_adb_result(cmd: Cmd, outcome: Result<ExitStatus, IoError>) -> (r: Result<
    (),
    CommandExecutionError,
>)
    ensures
        r == status_result(cmd, outcome),
{
    match outcome {
        Ok(status) => if status.success() {
            Ok(())
        } else {
            Err(CommandExecutionError::ProcessStatus(ProcessStatusError { cmd, status }))
        },
        Err(error) => Err(CommandExecutionError::ProcessIo(ProcessIoError { cmd, error })),
    }
}

/// The command line that asks a device about the client that is installed.
pub fn client_query(adb: &str, serial: Option<&str>) -> (cmd: Cmd)
    ensures
        cmd@ == adb_command(
            adb@,
            optional_str(serial),
            seq!["shell"@, "dumpsys"@, "package"@, "com.genymobile.gnirehtet"@],
        ),
{
    let cmd = exec_adb_words(
        adb,
        serial,
        vec!["shell", "dumpsys", "package", "com.genymobile.gnirehtet"],
    );
    assert(cmd@.args =~= adb_args(
        optional_str(serial),
        seq!["shell"@, "dumpsys"@, "package"@, "com.genymobile.gnirehtet"@],
    ));
    cmd
}

/// The version of the client in the description of its package: what stands
/// between the first `versionCode=` and the next space.
pub open spec fn installed_version(dumpsys: Seq<char>) -> Option<Seq<char>> {
    match first_match(dumpsys, "    versionCode="@) {
        Some(index) => {
            let rest = dumpsys.skip(index + 16);
            let end = length_before(rest, ' ');
            if end < rest.len() {
                Some(rest.take(end))
            } else {
                None
            }
        },
        None => None,
    }
}

/// Whether a device with this description of the client's package needs the
/// client installed: it does unless the required version is there.
pub open spec fn outdated(dumpsys: Seq<char>) -> bool {
    installed_version(dumpsys) != Some(REQUIRED_APK_VERSION_CODE@)
}

/// Whether a device with this description of the client's package needs the
/// client installed.
pub fn client_is_outdated(dumpsys: &str) -> (r: bool)
    ensures
        r == outdated(dumpsys@),
{
    proof {
        reveal_strlit("    versionCode=");
    }
    let chars = to_chars(dumpsys);
    let n: usize = chars.len();
    match find(chars.as_slice(), "    versionCode=") {
        Some(index) => {
            let start: usize = index + 16;
            let rest = vstd::slice::slice_subrange(chars.as_slice(), start, n);
            assert(rest@ =~= chars@.skip(index + 16));
            let end: usize = count_before(rest, ' ');
            if end < rest.len() {
                let installed_version_code = vstd::slice::slice_subrange(rest, 0, end);
                assert(installed_version_code@ =~= rest@.take(end as int));
                !same_text(installed_version_code, REQUIRED_APK_VERSION_CODE)
            } else {
                true
            }
        },
        None => true,
    }
}

/// The answer of a device about the client: whether it is to be installed.
pub open spec fn query_result(cmd: Cmd, outcome: Result<Output, IoError>) -> Result<
    bool,
    CommandExecutionError,
> {
    match outcome {
        Ok(output) => if output.status.succeeded() {
            Ok(outdated(utf8_lossy(output.stdout@)))
        } else {
            Err(
                CommandExecutionError::ProcessStatus(
                    ProcessStatusError { cmd, status: output.status },
                ),
            )
        },
        Err(error) => Err(CommandExecutionError::ProcessIo(ProcessIoError { cmd, error })),
    }
}

/// Tells from the answer of a device whether the client is to be installed.
pub fn must_install_client(cmd: Cmd, outcome: Result<Output, IoError>) -> (r: Result<
    bool,
    CommandExecutionError,
>)
    ensures
        r == query_result(cmd, outcome),
{
    match outcome {
        Ok(output) => if output.status.success() {
            let dumpsys = from_utf8_lossy(output.stdout.as_slice());
            Ok(client_is_outdated(dumpsys.as_str()))
        } else {
            Err(
                CommandExecutionError::ProcessStatus(
                    ProcessStatusError { cmd, status: output.status },
                ),
            )
        },
        Err(error) => Err(CommandExecutionError::ProcessIo(ProcessIoError { cmd, error })),
    }
}

/// A path that was resolved comes before the environment, a variable that is set
/// to valid text before the bare name, and nothing else matters.
pub proof fn law_paths_have_an_order(path: Seq<char>, text: Seq<char>, env: EnvText)
    ensures
        adb_path(Some(path), env) == path,
        adb_path(None, EnvText::Text(text)) == text,
        adb_path(None, EnvText::Unset) == "adb"@,
        adb_path(None, EnvText::Invalid) == "adb"@,
        value_or(EnvText::Text(text), path) == text,
        value_or(EnvText::Unset, path) == path,
        value_or(EnvText::Invalid, path) == path,
{
}

/// The client is to be installed unless the text between the first `versionCode=`
/// that four spaces precede and the next space is 11; a description without that,
/// or in which no space follows, tells no version.
pub proof fn law_version_decides(before: Seq<char>, version: Seq<char>, after: Seq<char>)
    requires
        !version.contains(' '),
        ({
            let dumpsys = before + "    versionCode="@ + (version + after);
            forall|j: int|
                0 <= j < before.len() ==> #[trigger] dumpsys.subrange(j, j + 16)
                    != "    versionCode="@
        }),
        after.len() > 0 ==> after[0] == ' ',
    ensures
        after.len() > 0 ==> (outdated(before + "    versionCode="@ + (version + after))
            <==> version != seq!['1', '1']),
        after.len() == 0 ==> outdated(before + "    versionCode="@ + (version + after)),
{
    let pattern = "    versionCode="@;
    assert(pattern.len() == 16) by {
        reveal_strlit("    versionCode=");
    }
    assert(REQUIRED_APK_VERSION_CODE@ == seq!['1', '1']) by {
        reveal_strlit("11");
        assert("11"@ =~= seq!['1', '1']);
    }
    let dumpsys = before + pattern + (version + after);
    let n = before.len() as int;
    assert(dumpsys.subrange(n, n + pattern.len()) =~= pattern);
    first_match_at(dumpsys, pattern, n);
    let rest = dumpsys.skip(before.len() as int + 16);
    assert(rest =~= version + after);
    version_ends(version, after);
}

proof fn first_match_at(s: Seq<char>, pattern: Seq<char>, n: int)
    requires
        0 <= n <= s.len() - pattern.len(),
        s.subrange(n, n + pattern.len()) == pattern,
        forall|j: int| 0 <= j < n ==> #[trigger] s.subrange(j, j + pattern.len()) != pattern,
    ensures
        first_match(s, pattern) == Some(n),
{
    first_match_is_first(s, pattern);
    match first_match(s, pattern) {
        Some(i) => {
            if i < n {
                assert(s.subrange(i, i + pattern.len()) != pattern);
            } else if i > n {
                assert(s.subrange(n, n + pattern.len()) != pattern);
            }
        },
        None => {
            assert(s.subrange(n, n + pattern.len()) != pattern);
        },
    }
}

proof fn version_ends(version: Seq<char>, after: Seq<char>)
    requires
        !version.contains(' '),
        after.len() > 0 ==> after[0] == ' ',
    ensures
        length_before(version + after, ' ') == version.len(),
        (version + after).take(version.len() as int) == version,
{
    let rest = version + after;
    length_before_is_first(rest, ' ');
    let end = length_before(rest, ' ');
    assert forall|i: int| 0 <= i < version.len() implies rest[i] != ' ' by {
        assert(rest[i] == version[i]);
        assert(version.contains(version[i]));
    }
    if after.len() > 0 {
        assert(rest[version.len() as int] == ' ');
    }
    assert(rest.take(version.len() as int) =~= version);
}

/// Without the version anywhere in the description, the client is to be installed.
pub proof fn law_missing_version_is_outdated(dumpsys: Seq<char>)
    requires
        forall|j: int|
            0 <= j <= dumpsys.len() - 16 ==> #[trigger] dumpsys.subrange(j, j + 16)
                != "    versionCode="@,
    ensures
        outdated(dumpsys),
{
    reveal_strlit("    versionCode=");
    first_match_is_first(dumpsys, "    versionCode="@);
}

/// A device's answer counts only where the query was run and ended with the exit
/// code zero, and then it is read from all of the output; else the error tells
/// what was run and what came of it.
pub proof fn law_query_answers(cmd: Cmd, output: Output, error: IoError)
    ensures
        output.status.code == Some(0i32) ==> query_result(cmd, Ok(output)) == Ok::<
            bool,
            CommandExecutionError,
        >(outdated(utf8_lossy(output.stdout@))),
        output.status.code != Some(0i32) ==> query_result(cmd, Ok(output)) == Err::<
            bool,
            CommandExecutionError,
        >(
            CommandExecutionError::ProcessStatus(
                ProcessStatusError { cmd, status: output.status },
            ),
        ),
        query_result(cmd, Err(error)) == Err::<bool, CommandExecutionError>(
            CommandExecutionError::ProcessIo(ProcessIoError { cmd, error }),
        ),
{
}

/// The paths, the platform and the variables are read as they should be on every
/// call.
pub proof fn law_calls_tell_the_paths(
    resolved: Option<&str>,
    env: EnvVar,
    path: String,
    os: TargetOs,
    name: &'static str,
)
    ensures
        call_ensures(get_adb_path, (resolved, env), path) ==> path@ == adb_path(
            optional_str(resolved),
            env@,
        ),
        call_ensures(get_apk_path, (env,), path) ==> path@ == (if env is Text {
            env->Text_0@
        } else {
            "gnirehtet.apk"@
        }),
        call_ensures(get_platform, (os,), name) ==> name@ == (match os {
            TargetOs::Linux => "linux"@,
            TargetOs::MacOs => "darwin"@,
            TargetOs::Windows => "windows"@,
        }),
        call_ensures(adb_variable, (), name) ==> name@ == "ADB"@,
        call_ensures(apk_variable, (), name) ==> name@ == "GNIREHTET_APK"@,
{
}

/// The arguments that a call makes are the two that pick the device, where one was
/// asked for, and then those that were given, all of them and in order.
pub proof fn law_calls_keep_the_arguments(
    adb: &str,
    serial: Option<&str>,
    args: Vec<&str>,
    command: Vec<String>,
    cmd: Cmd,
)
    ensures
        call_ensures(create_adb_args::<&str>, (serial, args), command) ==> texts(command@) == (
        match serial {
            Some(s) => seq!["-s"@, s@],
            None => Seq::empty(),
        }) + str_texts(args@),
        call_ensures(exec_adb::<&str>, (adb, serial, args), cmd) ==> cmd@.command == adb@
            && cmd@.args == (match serial {
            Some(s) => seq!["-s"@, s@],
            None => Seq::empty(),
        }) + str_texts(args@),
        call_ensures(client_query, (adb, serial), cmd) ==> cmd@.command == adb@ && cmd@.args == (
        match serial {
            Some(s) => seq!["-s"@, s@],
            None => Seq::empty(),
        }) + seq!["shell"@, "dumpsys"@, "package"@, "com.genymobile.gnirehtet"@],
{
    if call_ensures(create_adb_args::<&str>, (serial, args), command) {
        made_of_texts(optional_str(serial), args@, str_texts(args@), command@);
    }
    if call_ensures(exec_adb::<&str>, (adb, serial, args), cmd) {
        made_of_texts(optional_str(serial), args@, str_texts(args@), cmd.args@);
    }
}

/// What came of `adb`, and what a device answers, is read as it should be on every
/// call.
pub proof fn law_calls_read_the_answers(
    cmd: Cmd,
    ran: Result<ExitStatus, IoError>,
    result: Result<(), CommandExecutionError>,
    dumpsys: &str,
    install: bool,
    wrote: Result<Output, IoError>,
    answer: Result<bool, CommandExecutionError>,
)
    ensures
        call_ensures(exec_adb_result, (cmd, ran), result) ==> result == status_result(cmd, ran),
        call_ensures(client_is_outdated, (dumpsys,), install) ==> install == outdated(dumpsys@),
        call_ensures(must_install_client, (cmd, wrote), answer) ==> answer == query_result(
            cmd,
            wrote,
        ),
{
}

} // verus!
