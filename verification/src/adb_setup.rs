//! Getting hold of `adb`: from the environment, from the path, or by download.

use vstd::prelude::*;

use crate::adb::{get_platform, EnvVar, TargetOs};
use crate::execution_error::{Cmd, CommandLine, ExitStatus};
use crate::io_error::IoError;
use crate::text::{concatenated, same_text, to_chars};
#[allow(unused_imports)]
use crate::adb::platform;
#[allow(unused_imports)]
use crate::text::optional_text;

verus! {

/// Where the search for `adb` stands: what to look at next, or what was found.
pub enum AdbSearch {
    /// Look at the `ADB` environment variable.
    Environment,
    /// Try to run `adb version`, with this command.
    Version(Cmd),
    /// Download the platform tools.
    Download,
    /// The path to call `adb` by.
    Found(String),
}

/// Where a search stands.
pub enum SearchState {
    Environment,
    Version(CommandLine),
    Download,
    Found(Seq<char>),
}

/// What a step of the search gave.
pub enum SearchEvent {
    /// The `ADB` environment variable.
    Environment(EnvVar),
    /// How `adb version` ended, or that it could not be run.
    Version(Result<ExitStatus, IoError>),
    /// The path of the `adb` that was downloaded, or why there is none.
    Downloaded(Result<String, String>),
}

impl View for AdbSearch {
    type V = SearchState;

    open spec fn view(&self) -> SearchState {
        match self {
            AdbSearch::Environment => SearchState::Environment,
            AdbSearch::Version(cmd) => SearchState::Version(cmd@),
            AdbSearch::Download => SearchState::Download,
            AdbSearch::Found(path) => SearchState::Found(path@),
        }
    }
}

/// Whether the event is an answer to the step.
pub open spec fn search_fits(state: SearchState, event: SearchEvent) -> bool {
    match state {
        SearchState::Environment => event is Environment,
        SearchState::Version(_) => event is Version,
        SearchState::Download => event is Downloaded,
        SearchState::Found(_) => false,
    }
}

/// The command line that shows whether there is an `adb` in the path.
pub open spec fn version_line() -> CommandLine {
    CommandLine { command: "adb"@, args: seq!["version"@] }
}

/// The command line that shows whether there is an `adb` in the path.
pub fn adb_version() -> (cmd: Cmd)
    ensures
        cmd@ == version_line(),
{
    let mut args: Vec<String> = Vec::new();
    args.push("version".to_string());
    let cmd = Cmd::new("adb".to_string(), args);
    assert(cmd@.args =~= seq!["version"@]);
    cmd
}

/// Where the search goes from here. A variable that is set decides; a failed
/// download leaves the bare name, for a proper error to surface later.
pub open spec fn search_goes_on(event: SearchEvent) -> SearchState {
    match event {
        SearchEvent::Environment(env) => match env {
            EnvVar::Unset => SearchState::Version(version_line()),
            EnvVar::Invalid => SearchState::Found("adb"@),
            EnvVar::Text(path) => SearchState::Found(path@),
        },
        SearchEvent::Version(outcome) => if outcome matches Ok(status) && status.succeeded() {
            SearchState::Found("adb"@)
        } else {
            SearchState::Download
        },
        SearchEvent::Downloaded(outcome) => match outcome {
            Ok(path) => SearchState::Found(path@),
            Err(_) => SearchState::Found("adb"@),
        },
    }
}

/// Where the search starts, for a path that was resolved before or not.
pub open spec fn search_starts(resolved: Option<Seq<char>>) -> SearchState {
    match resolved {
        Some(path) => SearchState::Found(path),
        None => SearchState::Environment,
    }
}

/// Starts the search for `adb`. A path that was resolved before is kept.
pub fn ensure_adb(resolved: Option<String>) -> (search: AdbSearch)
    ensures
        search@ == search_starts(optional_text(resolved)),
{
    match resolved {
        Some(path) => AdbSearch::Found(path),
        None => AdbSearch::Environment,
    }
}

impl AdbSearch {
    /// Goes on with what the current step gave.
    pub fn next(self, event: SearchEvent) -> (search: AdbSearch)
        requires
            search_fits(self@, event),
        ensures
            search@ == search_goes_on(event),
    {
        match event {
            SearchEvent::Environment(env) => match env {
                EnvVar::Unset => AdbSearch::Version(adb_version()),
                EnvVar::Invalid => AdbSearch::Found("adb".to_string()),
                EnvVar::Text(path) => AdbSearch::Found(path),
            },
            SearchEvent::Version(outcome) => {
                let there = match outcome {
                    Ok(status) => status.success(),
                    Err(_) => false,
                };
                if there {
                    AdbSearch::Found("adb".to_string())
                } else {
                    AdbSearch::Download
                }
            },
            SearchEvent::Downloaded(outcome) => match outcome {
                Ok(path) => AdbSearch::Found(path),
                Err(_) => AdbSearch::Found("adb".to_string()),
            },
        }
    }
}

/// How many steps a search may still take.
pub open spec fn steps_left(state: SearchState) -> nat {
    match state {
        SearchState::Environment => 3,
        SearchState::Version(_) => 2,
        SearchState::Download => 1,
        SearchState::Found(_) => 0,
    }
}

/// Every step brings the search closer to its end, and at the end there is a
/// path: after three steps at most, whatever they give.
pub proof fn law_search_ends(state: SearchState, event: SearchEvent)
    requires
        search_fits(state, event),
    ensures
        steps_left(search_goes_on(event)) < steps_left(state) <= 3,
        steps_left(search_goes_on(event)) == 0 <==> search_goes_on(event) is Found,
{
}

/// The address of the platform tools for a system.
pub open spec fn platform_tools_address(platform: Seq<char>) -> Seq<char> {
    "https://dl.google.com/android/repository/platform-tools-latest-"@ + platform + ".zip"@
}

/// The address of the platform tools for a system.
pub fn platform_tools_url(platform: &str) -> (url: String)
    ensures
        url@ == platform_tools_address(platform@),
{
    let start = concatenated(
        "https://dl.google.com/android/repository/platform-tools-latest-",
        platform,
    );
    concatenated(start.as_str(), ".zip")
}

/// The name of the `adb` program on a system.
pub open spec fn adb_binary(os: TargetOs) -> Seq<char> {
    if os == TargetOs::Windows {
        "adb.exe"@
    } else {
        "adb"@
    }
}

/// The name of the `adb` program on a system.
pub fn adb_binary_name(os: TargetOs) -> (name: &'static str)
    ensures
        name@ == adb_binary(os),
{
    match os {
        TargetOs::Windows => "adb.exe",
        _ => "adb",
    }
}

/// The command line that downloads a file.
pub fn download(url: &str, dest: &str) -> (cmd: Cmd)
    ensures
        cmd@ == (CommandLine { command: "curl"@, args: seq!["-fLo"@, dest@, url@] }),
{
    let mut args: Vec<String> = Vec::new();
    args.push("-fLo".to_string());
    args.push(dest.to_string());
    args.push(url.to_string());
    let cmd = Cmd::new("curl".to_string(), args);
    assert(cmd@.args =~= seq!["-fLo"@, dest@, url@]);
    cmd
}

/// The files of the platform tools that make up `adb` on a system.
pub open spec fn adb_files(platform: Seq<char>) -> Seq<Seq<char>> {
    if platform == "windows"@ {
        seq![
            "platform-tools/adb.exe"@,
            "platform-tools/AdbWinApi.dll"@,
            "platform-tools/AdbWinUsbApi.dll"@,
        ]
    } else {
        seq!["platform-tools/adb"@]
    }
}

/// A file to move, both paths relative to the directory of this program.
#[derive(Debug)]
pub struct FileMove {
    pub from: String,
    pub to: String,
}

/// What a move of a file says.
pub struct MovedFile {
    pub from: Seq<char>,
    pub to: Seq<char>,
}

impl View for FileMove {
    type V = MovedFile;

    open spec fn view(&self) -> MovedFile {
        MovedFile { from: self.from@, to: self.to@ }
    }
}

/// The names of the files that make up `adb` on a system.
pub open spec fn adb_file_names(platform: Seq<char>) -> Seq<Seq<char>> {
    if platform == "windows"@ {
        seq!["adb.exe"@, "AdbWinApi.dll"@, "AdbWinUsbApi.dll"@]
    } else {
        seq!["adb"@]
    }
}

/// The moves that bring every extracted file from the directory of the platform
/// tools to the directory of this program.
pub open spec fn adb_moves(platform: Seq<char>) -> Seq<MovedFile> {
    Seq::new(
        adb_files(platform).len(),
        |i: int| MovedFile { from: adb_files(platform)[i], to: adb_file_names(platform)[i] },
    )
}

/// What the moves say.
pub open spec fn moves_of(moves: Seq<FileMove>) -> Seq<MovedFile> {
    Seq::new(moves.len(), |i: int| moves[i]@)
}

fn file_move(from: &str, to: &str) -> (r: FileMove)
    ensures
        r@ == (MovedFile { from: from@, to: to@ }),
{
    FileMove { from: from.to_string(), to: to.to_string() }
}

/// Makes the moves that bring every extracted file next to this program.
pub fn move_adb(platform: &str) -> (moves: Vec<FileMove>)
    ensures
        moves_of(moves@) == adb_moves(platform@),
{
    let mut moves: Vec<FileMove> = Vec::new();
    let chars = to_chars(platform);
    if same_text(chars.as_slice(), "windows") {
        moves.push(file_move("platform-tools/adb.exe", "adb.exe"));
        moves.push(file_move("platform-tools/AdbWinApi.dll", "AdbWinApi.dll"));
        moves.push(file_move("platform-tools/AdbWinUsbApi.dll", "AdbWinUsbApi.dll"));
    } else {
        moves.push(file_move("platform-tools/adb", "adb"));
    }
    assert(moves_of(moves@) =~= adb_moves(platform@));
    moves
}

/// The extracted files are moved, each under its own name and no other, and the
/// one that is called as `adb` is among them.
pub proof fn law_every_extracted_file_is_moved(os: TargetOs)
    ensures
        adb_moves(platform(os)).len() == adb_files(platform(os)).len(),
        forall|i: int|
            0 <= i < adb_files(platform(os)).len() ==> {
                &&& (#[trigger] adb_moves(platform(os))[i]).from == adb_files(platform(os))[i]
                &&& adb_files(platform(os))[i] == "platform-tools/"@ + adb_moves(
                    platform(os),
                )[i].to
            },
        adb_moves(platform(os))[0].to == adb_binary(os),
{
    reveal_strlit("windows");
    reveal_strlit("linux");
    reveal_strlit("darwin");
    reveal_strlit("platform-tools/");
    reveal_strlit("adb");
    reveal_strlit("adb.exe");
    reveal_strlit("AdbWinApi.dll");
    reveal_strlit("AdbWinUsbApi.dll");
    reveal_strlit("platform-tools/adb");
    reveal_strlit("platform-tools/adb.exe");
    reveal_strlit("platform-tools/AdbWinApi.dll");
    reveal_strlit("platform-tools/AdbWinUsbApi.dll");
    assert("linux"@.len() == 5 && "darwin"@.len() == 6 && "windows"@.len() == 7);
    assert("platform-tools/adb"@ =~= "platform-tools/"@ + "adb"@);
    assert("platform-tools/adb.exe"@ =~= "platform-tools/"@ + "adb.exe"@);
    assert("platform-tools/AdbWinApi.dll"@ =~= "platform-tools/"@ + "AdbWinApi.dll"@);
    assert("platform-tools/AdbWinUsbApi.dll"@ =~= "platform-tools/"@ + "AdbWinUsbApi.dll"@);
}

/// The command line that extracts `adb` from the platform tools.
pub fn extract_adb(zip_path: &str, dest_dir: &str, platform: &str) -> (cmd: Cmd)
    ensures
        cmd@ == (CommandLine {
            command: "unzip"@,
            args: seq!["-o"@, zip_path@] + adb_files(platform@) + seq!["-d"@, dest_dir@],
        }),
{
    let mut args: Vec<String> = Vec::new();
    args.push("-o".to_string());
    args.push(zip_path.to_string());
    let chars = to_chars(platform);
    if same_text(chars.as_slice(), "windows") {
        args.push("platform-tools/adb.exe".to_string());
        args.push("platform-tools/AdbWinApi.dll".to_string());
        args.push("platform-tools/AdbWinUsbApi.dll".to_string());
    } else {
        args.push("platform-tools/adb".to_string());
    }
    args.push("-d".to_string());
    args.push(dest_dir.to_string());
    let cmd = Cmd::new("unzip".to_string(), args);
    assert(cmd@.args =~= seq!["-o"@, zip_path@] + adb_files(platform@) + seq!["-d"@, dest_dir@]);
    cmd
}

/// What came of a tool: an error with one of the two messages where it could
/// not be run, or did not end well.
pub open spec fn tool_error(
    outcome: Result<ExitStatus, IoError>,
    not_run: Seq<char>,
    failed: Seq<char>,
) -> Option<Seq<char>> {
    match outcome {
        Ok(status) => if status.succeeded() {
            None
        } else {
            Some(failed)
        },
        Err(e) => Some(not_run + e.message@),
    }
}

fn tool_result(outcome: &Result<ExitStatus, IoError>, not_run: &str, failed: &str) -> (r: Result<
    (),
    String,
>)
    ensures
        match r {
            Ok(_) => tool_error(*outcome, not_run@, failed@) is None,
            Err(message) => tool_error(*outcome, not_run@, failed@) == Some(message@),
        },
{
    match outcome {
        Ok(status) => if status.success() {
            Ok(())
        } else {
            Err(failed.to_string())
        },
        Err(e) => Err(concatenated(not_run, e.message.as_str())),
    }
}

/// The command line that looks a command up.
pub open spec fn lookup_line(name: Seq<char>) -> CommandLine {
    CommandLine { command: "which"@, args: seq![name] }
}

/// The command line that looks a command up.
pub fn command_lookup(name: &str) -> (cmd: Cmd)
    ensures
        cmd@ == lookup_line(name@),
{
    let mut args: Vec<String> = Vec::new();
    args.push(name.to_string());
    let cmd = Cmd::new("which".to_string(), args);
    assert(cmd@.args =~= seq![name@]);
    cmd
}

/// Whether a command is there, going by how looking it up ended.
pub fn is_command_available(outcome: &Result<ExitStatus, IoError>) -> (r: bool)
    ensures
        r == (*outcome matches Ok(status) && status.succeeded()),
{
    match outcome {
        Ok(status) => status.success(),
        Err(_) => false,
    }
}

/// The name of the directory for the download, among the temporary ones.
pub const TEMP_DIR_NAME: &'static str = "gnirehtet-adb";

/// The name of the download.
pub const ZIP_NAME: &'static str = "platform-tools-latest.zip";

/// The permissions of the extracted `adb`: all for its owner, to read and to
/// execute for everybody else.
pub const ADB_PERMISSIONS: u32 = 0o755;

/// What is done next to install `adb` next to this program.
pub enum SetupStage {
    /// Find the directory of this program.
    Locate,
    /// See whether `adb` is there already.
    FindExisting,
    /// Create the temporary directory.
    CreateTempDir,
    /// Download the platform tools with this command.
    Download(Cmd),
    /// Extract `adb` from them with this command.
    Extract(Cmd),
    /// Move what was extracted next to this program.
    Move(Vec<FileMove>),
    /// Remove what is temporary, as far as that goes.
    CleanUp,
    /// See whether `adb` is there now.
    FindExtracted,
    /// Make it executable.
    SetPermissions,
    /// Say where it is.
    Report,
    /// See whether `apt` is there with this command, to give a tip.
    LookUpApt(Cmd),
    /// Give the tip to install `adb` with `apt`.
    Tip,
    /// The path of `adb`, or why there is none.
    Finished(Result<String, String>),
}

/// The permissions to set in a stage.
pub fn permissions(stage: &SetupStage) -> (mode: Option<u32>)
    ensures
        mode == (if stage is SetPermissions {
            Some(0o755u32)
        } else {
            None
        }),
{
    match stage {
        SetupStage::SetPermissions => Some(ADB_PERMISSIONS),
        _ => None,
    }
}

/// What came of a stage.
pub enum SetupEvent {
    /// The stage was done.
    Done,
    /// The stage was tried.
    Tried(Result<(), IoError>),
    /// The directory of this program and the path of `adb` in it; nothing where
    /// the program has no directory.
    Located(Result<Option<(String, String)>, IoError>),
    /// Whether the file is there.
    Exists(bool),
    /// How a tool ended, or that it could not be run.
    Ran(Result<ExitStatus, IoError>),
}

/// The installation of `adb` next to this program.
pub struct AdbSetup {
    pub os: TargetOs,
    /// The directory of this program.
    pub dir: String,
    /// The path of `adb` in it.
    pub binary: String,
    /// The directory for the download.
    pub temp_dir: String,
    /// The path of the download.
    pub zip_path: String,
    pub stage: SetupStage,
}

/// Whether the event is an answer to the stage.
pub open spec fn setup_fits(stage: SetupStage, event: SetupEvent) -> bool {
    match stage {
        SetupStage::Locate => event is Located,
        SetupStage::FindExisting | SetupStage::FindExtracted => event is Exists,
        SetupStage::CreateTempDir | SetupStage::Move(_) | SetupStage::SetPermissions => event
            is Tried,
        SetupStage::Download(_) | SetupStage::Extract(_) | SetupStage::LookUpApt(_) => event is Ran,
        SetupStage::CleanUp | SetupStage::Report | SetupStage::Tip => event is Done,
        SetupStage::Finished(_) => false,
    }
}

/// Whether the installation ended with this message.
pub open spec fn ended_with(stage: SetupStage, message: Seq<char>) -> bool {
    stage matches SetupStage::Finished(Err(e)) && e@ == message
}

/// Whether the installation ended with this path.
pub open spec fn ended_at(stage: SetupStage, path: String) -> bool {
    stage == SetupStage::Finished(Ok(path))
}

/// Where the installation goes from a stage. The first error ends it.
pub open spec fn setup_goes_on(setup: AdbSetup, event: SetupEvent, next: SetupStage) -> bool {
    let dir = setup.dir@;
    let binary = setup.binary@;
    match (setup.stage, event) {
        (SetupStage::Locate, SetupEvent::Located(Ok(Some(_)))) => next is FindExisting,
        (SetupStage::Locate, SetupEvent::Located(Ok(None))) => ended_with(
            next,
            "Cannot get binary directory"@,
        ),
        (SetupStage::Locate, SetupEvent::Located(Err(e))) => ended_with(
            next,
            "Cannot determine binary path: "@ + e.message@,
        ),
        (SetupStage::FindExisting, SetupEvent::Exists(there)) => if there {
            ended_at(next, setup.binary)
        } else {
            next is CreateTempDir
        },
        (SetupStage::CreateTempDir, SetupEvent::Tried(Ok(_))) => {
            &&& next matches SetupStage::Download(cmd)
            &&& cmd@ == (CommandLine {
                command: "curl"@,
                args: seq![
                    "-fLo"@,
                    setup.zip_path@,
                    platform_tools_address(platform(setup.os)),
                ],
            })
        },
        (SetupStage::CreateTempDir, SetupEvent::Tried(Err(e))) => ended_with(
            next,
            "Failed to create temp dir "@ + setup.temp_dir@ + ": "@ + e.message@,
        ),
        (SetupStage::Download(_), SetupEvent::Ran(outcome)) => match tool_error(
            outcome,
            "Failed to run curl: "@,
            "Download failed"@,
        ) {
            Some(message) => ended_with(next, message),
            None => {
                &&& next matches SetupStage::Extract(cmd)
                &&& cmd@ == (CommandLine {
                    command: "unzip"@,
                    args: seq!["-o"@, setup.zip_path@] + adb_files(platform(setup.os))
                        + seq!["-d"@, dir],
                })
            },
        },
        (SetupStage::Extract(_), SetupEvent::Ran(outcome)) => match tool_error(
            outcome,
            "Failed to run unzip: "@,
            "Extraction failed"@,
        ) {
            Some(message) => ended_with(next, message),
            None => {
                &&& next matches SetupStage::Move(moves)
                &&& moves_of(moves@) == adb_moves(platform(setup.os))
            },
        },
        (SetupStage::Move(_), SetupEvent::Tried(Ok(_))) => next is CleanUp,
        (SetupStage::Move(_), SetupEvent::Tried(Err(e))) => ended_with(
            next,
            "Failed to move ADB: "@ + e.message@,
        ),
        (SetupStage::CleanUp, SetupEvent::Done) => next is FindExtracted,
        (SetupStage::FindExtracted, SetupEvent::Exists(there)) => if !there {
            ended_with(next, "ADB binary not found at "@ + binary + " after extraction"@)
        } else if setup.os == TargetOs::Windows {
            next is Report
        } else {
            next is SetPermissions
        },
        (SetupStage::SetPermissions, SetupEvent::Tried(Ok(_))) => next is Report,
        (SetupStage::SetPermissions, SetupEvent::Tried(Err(e))) => ended_with(
            next,
            "Failed to set permissions: "@ + e.message@,
        ),
        (SetupStage::Report, SetupEvent::Done) => if setup.os == TargetOs::Linux {
            next matches SetupStage::LookUpApt(cmd) && cmd@ == lookup_line("apt"@)
        } else {
            ended_at(next, setup.binary)
        },
        (SetupStage::LookUpApt(_), SetupEvent::Ran(outcome)) => if outcome matches Ok(status)
            && status.succeeded() {
            next is Tip
        } else {
            ended_at(next, setup.binary)
        },
        _ => ended_at(next, setup.binary),
    }
}

/// What a stage does to the installation.
pub open spec fn setup_step(before: AdbSetup, event: SetupEvent, after: AdbSetup) -> bool {
    &&& after.os == before.os
    &&& after.temp_dir == before.temp_dir
    &&& after.zip_path == before.zip_path
    &&& setup_goes_on(before, event, after.stage)
    &&& match event {
        SetupEvent::Located(Ok(Some((dir, binary)))) => {
            &&& after.dir == dir
            &&& after.binary == binary
        },
        _ => {
            &&& after.dir == before.dir
            &&& after.binary == before.binary
        },
    }
}

/// Starts to install `adb`, with the given paths for what is temporary.
pub fn download_and_extract_adb(os: TargetOs, temp_dir: String, zip_path: String) -> (setup:
    AdbSetup)
    ensures
        setup.os == os,
        setup.dir@.len() == 0,
        setup.binary@.len() == 0,
        setup.temp_dir == temp_dir,
        setup.zip_path == zip_path,
        setup.stage is Locate,
{
    AdbSetup {
        os,
        dir: String::new(),
        binary: String::new(),
        temp_dir,
        zip_path,
        stage: SetupStage::Locate,
    }
}

impl AdbSetup {
    /// What to say to the user in the current stage.
    pub fn announcement(&self) -> (text: Option<String>)
        ensures
            optional_text(text) == (match self.stage {
                SetupStage::Report => Some("ADB extracted to "@ + self.binary@),
                SetupStage::Tip => Some("Tip: install system-wide with `sudo apt install adb`"@),
                _ => None,
            }),
    {
        match &self.stage {
            SetupStage::Report => Some(concatenated("ADB extracted to ", self.binary.as_str())),
            SetupStage::Tip => Some(
                "Tip: install system-wide with `sudo apt install adb`".to_string(),
            ),
            _ => None,
        }
    }

    fn found(&self) -> (stage: SetupStage)
        ensures
            ended_at(stage, self.binary),
    {
        SetupStage::Finished(Ok(self.binary.clone()))
    }

    fn located(&mut self, place: Result<Option<(String, String)>, IoError>)
        requires
            old(self).stage is Locate,
        ensures
            setup_step(*old(self), SetupEvent::Located(place), *final(self)),
    {
        match place {
            Ok(Some((dir, binary))) => {
                self.dir = dir;
                self.binary = binary;
                self.stage = SetupStage::FindExisting;
            },
            Ok(None) => {
                self.stage = SetupStage::Finished(Err("Cannot get binary directory".to_string()));
            },
            Err(e) => {
                self.stage =
                SetupStage::Finished(
                    Err(concatenated("Cannot determine binary path: ", e.message.as_str())),
                );
            },
        }
    }

    /// Goes on with what came of the current stage. The first error ends the
    /// installation.
    pub fn next(&mut self, event: SetupEvent)
        requires
            setup_fits(old(self).stage, event),
        ensures
            setup_step(*old(self), event, *final(self)),
    {
        match event {
            SetupEvent::Located(place) => {
                self.located(place);
            },
            SetupEvent::Exists(there) => {
                let existing = match &self.stage {
                    SetupStage::FindExisting => true,
                    _ => false,
                };
                self.stage = if existing {
                    if there {
                        self.found()
                    } else {
                        SetupStage::CreateTempDir
                    }
                } else if there {
                    match self.os {
                        TargetOs::Windows => SetupStage::Report,
                        _ => SetupStage::SetPermissions,
                    }
                } else {
                    let start = concatenated("ADB binary not found at ", self.binary.as_str());
                    SetupStage::Finished(Err(concatenated(start.as_str(), " after extraction")))
                };
            },
            SetupEvent::Tried(outcome) => {
                let next = match &self.stage {
                    SetupStage::CreateTempDir => match outcome {
                        Ok(_) => {
                            let url = platform_tools_url(get_platform(self.os));
                            SetupStage::Download(download(url.as_str(), self.zip_path.as_str()))
                        },
                        Err(e) => {
                            let start = concatenated(
                                "Failed to create temp dir ",
                                self.temp_dir.as_str(),
                            );
                            let middle = concatenated(start.as_str(), ": ");
                            SetupStage::Finished(
                                Err(concatenated(middle.as_str(), e.message.as_str())),
                            )
                        },
                    },
                    SetupStage::Move(_) => match outcome {
                        Ok(_) => SetupStage::CleanUp,
                        Err(e) => SetupStage::Finished(
                            Err(concatenated("Failed to move ADB: ", e.message.as_str())),
                        ),
                    },
                    _ => match outcome {
                        Ok(_) => SetupStage::Report,
                        Err(e) => SetupStage::Finished(
                            Err(concatenated("Failed to set permissions: ", e.message.as_str())),
                        ),
                    },
                };
                self.stage = next;
            },
            SetupEvent::Ran(outcome) => {
                let next = match &self.stage {
                    SetupStage::Download(_) => match tool_result(
                        &outcome,
                        "Failed to run curl: ",
                        "Download failed",
                    ) {
                        Ok(_) => SetupStage::Extract(
                            extract_adb(
                                self.zip_path.as_str(),
                                self.dir.as_str(),
                                get_platform(self.os),
                            ),
                        ),
                        Err(message) => SetupStage::Finished(Err(message)),
                    },
                    SetupStage::Extract(_) => match tool_result(
                        &outcome,
                        "Failed to run unzip: ",
                        "Extraction failed",
                    ) {
                        Ok(_) => SetupStage::Move(move_adb(get_platform(self.os))),
                        Err(message) => SetupStage::Finished(Err(message)),
                    },
                    _ => if is_command_available(&outcome) {
                        SetupStage::Tip
                    } else {
                        self.found()
                    },
                };
                self.stage = next;
            },
            SetupEvent::Done => {
                let next = match &self.stage {
                    SetupStage::CleanUp => SetupStage::FindExtracted,
                    SetupStage::Report => match self.os {
                        TargetOs::Linux => SetupStage::LookUpApt(command_lookup("apt")),
                        _ => self.found(),
                    },
                    _ => self.found(),
                };
                self.stage = next;
            },
        }
    }
}

/// How many stages an installation may still go through.
pub open spec fn stages_left(stage: SetupStage) -> nat {
    match stage {
        SetupStage::Locate => 12,
        SetupStage::FindExisting => 11,
        SetupStage::CreateTempDir => 10,
        SetupStage::Download(_) => 9,
        SetupStage::Extract(_) => 8,
        SetupStage::Move(_) => 7,
        SetupStage::CleanUp => 6,
        SetupStage::FindExtracted => 5,
        SetupStage::SetPermissions => 4,
        SetupStage::Report => 3,
        SetupStage::LookUpApt(_) => 2,
        SetupStage::Tip => 1,
        SetupStage::Finished(_) => 0,
    }
}

/// Every stage brings the installation closer to its end. It ends well only
/// with the path of `adb` next to this program: at once where `adb` was there
/// before, and never where it is not there after the extraction. A download
/// starts only once the temporary directory is there, and `adb` is looked for
/// only after what was extracted has been moved next to this program.
pub proof fn law_setup_ends(before: AdbSetup, event: SetupEvent, after: AdbSetup)
    requires
        setup_fits(before.stage, event),
        setup_step(before, event, after),
    ensures
        stages_left(after.stage) < stages_left(before.stage) <= 12,
        stages_left(after.stage) == 0 <==> after.stage is Finished,
        after.stage matches SetupStage::Finished(Ok(path)) ==> path == after.binary,
        before.stage is FindExisting && event == SetupEvent::Exists(true) ==> ended_at(
            after.stage,
            before.binary,
        ),
        before.stage is FindExtracted && event == SetupEvent::Exists(false) ==> after.stage
            matches SetupStage::Finished(Err(_)),
        after.stage is Download <==> before.stage is CreateTempDir
            && event matches SetupEvent::Tried(Ok(_)),
        after.stage is CleanUp <==> before.stage is Move && event matches SetupEvent::Tried(Ok(_)),
        after.stage is FindExtracted <==> before.stage is CleanUp,
{
}

/// A variable that is set decides on its own, with its path where that is valid; a
/// working `adb` in the path is used by its bare name; and only where there is
/// neither is one downloaded, whose path is used where that went well.
pub proof fn law_search_takes_the_first_that_works(
    path: String,
    message: String,
    status: ExitStatus,
    error: IoError,
)
    ensures
        search_goes_on(SearchEvent::Environment(EnvVar::Text(path))) == SearchState::Found(path@),
        search_goes_on(SearchEvent::Environment(EnvVar::Invalid)) == SearchState::Found("adb"@),
        search_goes_on(SearchEvent::Environment(EnvVar::Unset)) == SearchState::Version(
            CommandLine { command: "adb"@, args: seq!["version"@] },
        ),
        status.code == Some(0i32) ==> search_goes_on(SearchEvent::Version(Ok(status)))
            == SearchState::Found("adb"@),
        status.code != Some(0i32) ==> search_goes_on(SearchEvent::Version(Ok(status)))
            == SearchState::Download,
        search_goes_on(SearchEvent::Version(Err(error))) == SearchState::Download,
        search_goes_on(SearchEvent::Downloaded(Ok(path))) == SearchState::Found(path@),
        search_goes_on(SearchEvent::Downloaded(Err(message))) == SearchState::Found("adb"@),
{
}

/// The installation keeps its system and its paths, but for the two that it finds
/// out first.
pub proof fn law_setup_keeps_its_paths(before: AdbSetup, event: SetupEvent, after: AdbSetup)
    requires
        setup_fits(before.stage, event),
        setup_step(before, event, after),
    ensures
        after.os == before.os,
        after.temp_dir == before.temp_dir,
        after.zip_path == before.zip_path,
        !(before.stage is Locate) ==> after.dir == before.dir && after.binary == before.binary,
        event matches SetupEvent::Located(Ok(Some(place))) ==> after.dir == place.0 && after.binary
            == place.1 && after.stage is FindExisting,
{
}

/// The installation goes on from stage to stage as long as nothing fails: the
/// platform tools of the system are downloaded to the zip file, `adb` is extracted
/// from that very file into the directory of this program and moved next to it,
/// made executable but on Windows, reported, and a tip is given only on Linux and
/// only where `apt` is there.
pub proof fn law_setup_goes_on(
    before: AdbSetup,
    event: SetupEvent,
    after: AdbSetup,
    status: ExitStatus,
)
    requires
        setup_fits(before.stage, event),
        setup_step(before, event, after),
    ensures
        before.stage is FindExisting && event == SetupEvent::Exists(false) ==> after.stage
            is CreateTempDir,
        before.stage is FindExisting && event == SetupEvent::Exists(true) ==> after.stage
            == SetupStage::Finished(Ok(before.binary)),
        before.stage is CreateTempDir && event == SetupEvent::Tried(Ok(())) ==> (after.stage
            matches SetupStage::Download(cmd) && cmd@.command == "curl"@ && cmd@.args == seq![
            "-fLo"@,
            before.zip_path@,
            "https://dl.google.com/android/repository/platform-tools-latest-"@ + platform(
                before.os,
            ) + ".zip"@,
        ]),
        before.stage is Download && event == SetupEvent::Ran(Ok(status)) && status.code == Some(
            0i32,
        ) ==> (after.stage matches SetupStage::Extract(cmd) && cmd@.command == "unzip"@
            && cmd@.args == seq!["-o"@, before.zip_path@] + adb_files(platform(before.os)) + seq![
            "-d"@,
            before.dir@,
        ]),
        before.stage is Extract && event == SetupEvent::Ran(Ok(status)) && status.code == Some(
            0i32,
        ) ==> (after.stage matches SetupStage::Move(moves) && moves_of(moves@) == adb_moves(
            platform(before.os),
        )),
        before.stage is Move && event == SetupEvent::Tried(Ok(())) ==> after.stage is CleanUp,
        before.stage is CleanUp ==> after.stage is FindExtracted,
        before.stage is FindExtracted && event == SetupEvent::Exists(true) && before.os
            == TargetOs::Windows ==> after.stage is Report,
        before.stage is FindExtracted && event == SetupEvent::Exists(true) && before.os
            != TargetOs::Windows ==> after.stage is SetPermissions,
        before.stage is SetPermissions && event == SetupEvent::Tried(Ok(())) ==> after.stage
            is Report,
        before.stage is Report && before.os == TargetOs::Linux ==> (after.stage
            matches SetupStage::LookUpApt(cmd) && cmd@.command == "which"@ && cmd@.args == seq![
            "apt"@,
        ]),
        before.stage is Report && before.os != TargetOs::Linux ==> after.stage
            == SetupStage::Finished(Ok(before.binary)),
        before.stage is LookUpApt && event == SetupEvent::Ran(Ok(status)) && status.code == Some(
            0i32,
        ) ==> after.stage is Tip,
        before.stage is LookUpApt && event == SetupEvent::Ran(Ok(status)) && status.code != Some(
            0i32,
        ) ==> after.stage == SetupStage::Finished(Ok(before.binary)),
        before.stage is Tip ==> after.stage == SetupStage::Finished(Ok(before.binary)),
{
}

/// Whatever fails before `adb` is there ends the installation with an error that
/// says what failed; that `apt` cannot be looked up does not.
pub proof fn law_setup_fails_with_a_reason(
    before: AdbSetup,
    event: SetupEvent,
    after: AdbSetup,
    status: ExitStatus,
    error: IoError,
)
    requires
        setup_fits(before.stage, event),
        setup_step(before, event, after),
        status.code != Some(0i32),
    ensures
        event == SetupEvent::Located(Err(error)) ==> ended_with(
            after.stage,
            "Cannot determine binary path: "@ + error.message@,
        ),
        event == SetupEvent::Located(Ok(None)) ==> ended_with(
            after.stage,
            "Cannot get binary directory"@,
        ),
        before.stage is CreateTempDir && event == SetupEvent::Tried(Err(error)) ==> ended_with(
            after.stage,
            "Failed to create temp dir "@ + before.temp_dir@ + ": "@ + error.message@,
        ),
        before.stage is Download && event == SetupEvent::Ran(Err(error)) ==> ended_with(
            after.stage,
            "Failed to run curl: "@ + error.message@,
        ),
        before.stage is Download && event == SetupEvent::Ran(Ok(status)) ==> ended_with(
            after.stage,
            "Download failed"@,
        ),
        before.stage is Extract && event == SetupEvent::Ran(Err(error)) ==> ended_with(
            after.stage,
            "Failed to run unzip: "@ + error.message@,
        ),
        before.stage is Extract && event == SetupEvent::Ran(Ok(status)) ==> ended_with(
            after.stage,
            "Extraction failed"@,
        ),
        before.stage is Move && event == SetupEvent::Tried(Err(error)) ==> ended_with(
            after.stage,
            "Failed to move ADB: "@ + error.message@,
        ),
        before.stage is FindExtracted && event == SetupEvent::Exists(false) ==> ended_with(
            after.stage,
            "ADB binary not found at "@ + before.binary@ + " after extraction"@,
        ),
        before.stage is SetPermissions && event == SetupEvent::Tried(Err(error)) ==> ended_with(
            after.stage,
            "Failed to set permissions: "@ + error.message@,
        ),
        before.stage is LookUpApt ==> after.stage == SetupStage::Finished(Ok(before.binary))
            || after.stage is Tip,
        before.stage is LookUpApt && event == SetupEvent::Ran(Err(error)) ==> after.stage
            == SetupStage::Finished(Ok(before.binary)),
{
}

/// An installation that ended with a message failed, and with that message.
pub proof fn law_messages_are_failures(stage: SetupStage, message: Seq<char>)
    ensures
        ended_with(stage, message) <==> (stage matches SetupStage::Finished(Err(e)) && e@
            == message),
{
}

/// A path that was resolved before is found at once; else the search begins with
/// the environment.
pub proof fn law_resolved_path_is_kept(path: Seq<char>)
    ensures
        search_starts(Some(path)) == SearchState::Found(path),
        search_starts(None) == SearchState::Environment,
{
}

/// Every outcome of a step is an answer to it: neither the search nor the
/// installation gets stuck on one.
pub proof fn law_every_outcome_is_an_answer(
    env: EnvVar,
    ran: Result<ExitStatus, IoError>,
    downloaded: Result<String, String>,
    line: CommandLine,
    cmd: Cmd,
    moves: Vec<FileMove>,
    tried: Result<(), IoError>,
    located: Result<Option<(String, String)>, IoError>,
    there: bool,
)
    ensures
        search_fits(SearchState::Environment, SearchEvent::Environment(env)),
        search_fits(SearchState::Version(line), SearchEvent::Version(ran)),
        search_fits(SearchState::Download, SearchEvent::Downloaded(downloaded)),
        setup_fits(SetupStage::Locate, SetupEvent::Located(located)),
        setup_fits(SetupStage::FindExisting, SetupEvent::Exists(there)),
        setup_fits(SetupStage::CreateTempDir, SetupEvent::Tried(tried)),
        setup_fits(SetupStage::Download(cmd), SetupEvent::Ran(ran)),
        setup_fits(SetupStage::Extract(cmd), SetupEvent::Ran(ran)),
        setup_fits(SetupStage::Move(moves), SetupEvent::Tried(tried)),
        setup_fits(SetupStage::CleanUp, SetupEvent::Done),
        setup_fits(SetupStage::FindExtracted, SetupEvent::Exists(there)),
        setup_fits(SetupStage::SetPermissions, SetupEvent::Tried(tried)),
        setup_fits(SetupStage::Report, SetupEvent::Done),
        setup_fits(SetupStage::LookUpApt(cmd), SetupEvent::Ran(ran)),
        setup_fits(SetupStage::Tip, SetupEvent::Done),
{
}

/// The search and the installation go on as their stages say, on every call.
pub proof fn law_calls_carry_the_search_on(
    resolved: Option<String>,
    search: AdbSearch,
    search_event: SearchEvent,
    next: AdbSearch,
    os: TargetOs,
    temp_dir: String,
    zip_path: String,
    started: AdbSetup,
    setup: &mut AdbSetup,
    event: SetupEvent,
)
    ensures
        call_ensures(ensure_adb, (resolved,), next) ==> next@ == (match resolved {
            Some(path) => SearchState::Found(path@),
            None => SearchState::Environment,
        }),
        call_ensures(AdbSearch::next, (search, search_event), next) ==> next@ == search_goes_on(
            search_event,
        ),
        call_ensures(download_and_extract_adb, (os, temp_dir, zip_path), started) ==> {
            &&& started.os == os
            &&& started.temp_dir == temp_dir
            &&& started.zip_path == zip_path
            &&& started.stage is Locate
        },
        call_ensures(AdbSetup::next, (setup, event), ()) ==> setup_step(
            *old(setup),
            event,
            *final(setup),
        ),
{
}

/// The tools are called with the right words, on every call.
pub proof fn law_calls_name_the_tools(
    first: &str,
    second: &str,
    third: &str,
    text: String,
    cmd: Cmd,
    moves: Vec<FileMove>,
    os: TargetOs,
    name: &'static str,
    outcome: Result<ExitStatus, IoError>,
    there: bool,
    stage: SetupStage,
    mode: Option<u32>,
    setup: AdbSetup,
    said: Option<String>,
)
    ensures
        call_ensures(platform_tools_url, (first,), text) ==> text@
            == "https://dl.google.com/android/repository/platform-tools-latest-"@ + first@
            + ".zip"@,
        call_ensures(adb_binary_name, (os,), name) ==> name@ == (if os is Windows {
            "adb.exe"@
        } else {
            "adb"@
        }),
        call_ensures(download, (first, second), cmd) ==> cmd@.command == "curl"@ && cmd@.args
            == seq!["-fLo"@, second@, first@],
        call_ensures(extract_adb, (first, second, third), cmd) ==> cmd@.command == "unzip"@
            && cmd@.args == seq!["-o"@, first@] + adb_files(third@) + seq!["-d"@, second@],
        call_ensures(move_adb, (first,), moves) ==> moves_of(moves@) == adb_moves(first@),
        call_ensures(adb_version, (), cmd) ==> cmd@.command == "adb"@ && cmd@.args == seq![
            "version"@,
        ],
        call_ensures(command_lookup, (first,), cmd) ==> cmd@.command == "which"@ && cmd@.args
            == seq![first@],
        call_ensures(is_command_available, (&outcome,), there) ==> (there <==> outcome is Ok
            && outcome->Ok_0.code == Some(0i32)),
        call_ensures(permissions, (&stage,), mode) ==> (mode is Some <==> stage is SetPermissions)
            && (mode is Some ==> mode->0 == 0o755),
        call_ensures(AdbSetup::announcement, (&setup,), said) ==> {
            &&& said is Some <==> setup.stage is Report || setup.stage is Tip
            &&& setup.stage is Report ==> said->0@ == "ADB extracted to "@ + setup.binary@
        },
{
}

} // verus!
