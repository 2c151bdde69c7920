//! Processes that are run, and what can go wrong with them.

use vstd::prelude::*;

use crate::io_error::IoError;
#[allow(unused_imports)]
use crate::text::texts;

verus! {

/// A program and its arguments.
#[derive(Debug)]
pub struct Cmd {
    pub command: String,
    pub args: Vec<String>,
}

/// What a command line says.
#[verifier::ext_equal]
pub struct CommandLine {
    pub command: Seq<char>,
    pub args: Seq<Seq<char>>,
}

impl View for Cmd {
    type V = CommandLine;

    open spec fn view(&self) -> CommandLine {
        CommandLine { command: self.command@, args: texts(self.args@) }
    }
}

impl Cmd {
    /// A program and its arguments.
    pub fn new(command: String, args: Vec<String>) -> (cmd: Cmd)
        ensures
            cmd == (Cmd { command, args }),
    {
        Cmd { command, args }
    }
}

/// How a process ended.
#[derive(Clone, Copy, Debug, PartialEq, Eq, Structural)]
pub struct ExitStatus {
    /// The exit code; none where a signal ended the process.
    pub code: Option<i32>,
}

impl ExitStatus {
    /// Whether the process ended well.
    pub open spec fn succeeded(self) -> bool {
        self.code == Some(0i32)
    }

    /// Whether the process ended well.
    pub fn success(&self) -> (r: bool)
        ensures
            r == self.succeeded(),
    {
        match self.code {
            Some(code) => code == 0,
            None => false,
        }
    }
}

/// How a process ended, and what it wrote.
#[derive(Debug)]
pub struct Output {
    pub status: ExitStatus,
    pub stdout: Vec<u8>,
    pub stderr: Vec<u8>,
}

/// A process that could not be run.
#[derive(Debug)]
pub struct ProcessIoError {
    pub cmd: Cmd,
    pub error: IoError,
}

/// A process that did not end well.
#[derive(Debug)]
pub struct ProcessStatusError {
    pub cmd: Cmd,
    pub status: ExitStatus,
}

/// What can go wrong with a command.
#[derive(Debug)]
pub enum CommandExecutionError {
    ProcessIo(ProcessIoError),
    ProcessStatus(ProcessStatusError),
    Io(IoError),
}

/// The result of running a process whose output does not matter.
pub open spec fn status_result(cmd: Cmd, outcome: Result<ExitStatus, IoError>) -> Result<
    (),
    CommandExecutionError,
> {
    match outcome {
        Ok(status) => if status.succeeded() {
            Ok(())
        } else {
            Err(CommandExecutionError::ProcessStatus(ProcessStatusError { cmd, status }))
        },
        Err(error) => Err(CommandExecutionError::ProcessIo(ProcessIoError { cmd, error })),
    }
}

/// A process is a success exactly where it was run and ended with the exit code
/// zero; every failure tells the command, and how the process ended or why it was
/// not run.
pub proof fn law_only_exit_code_zero_is_success(
    cmd: Cmd,
    status: ExitStatus,
    error: IoError,
)
    ensures
        status.succeeded() <==> status.code == Some(0i32),
        status_result(cmd, Ok(status)) is Ok <==> status.code == Some(0i32),
        status.code != Some(0i32) ==> status_result(cmd, Ok(status))
            == Err::<(), CommandExecutionError>(
            CommandExecutionError::ProcessStatus(ProcessStatusError { cmd, status }),
        ),
        status_result(cmd, Err(error)) == Err::<(), CommandExecutionError>(
            CommandExecutionError::ProcessIo(ProcessIoError { cmd, error }),
        ),
{
}

/// A command line is what it was made of, and only the exit code zero is success,
/// on every call.
pub proof fn law_calls_keep_commands(
    command: String,
    args: Vec<String>,
    cmd: Cmd,
    status: ExitStatus,
    r: bool,
)
    ensures
        call_ensures(Cmd::new, (command, args), cmd) ==> cmd@.command == command@ && cmd@.args
            == texts(args@),
        call_ensures(ExitStatus::success, (&status,), r) ==> (r <==> status.code == Some(0i32)),
{
}

} // verus!
