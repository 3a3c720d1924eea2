//! Command execution inside the sandbox: the replies a running command sends,
//! how they are collected, and how the command's end is reported.

use vstd::prelude::*;
use vstd::string::StringExecFns;

use crate::portal::error::PortalError;
use crate::portal::repl::Stream;
use crate::text::{decimal_string, decimal_text};

verus! {

/// Error type for command execution operations
#[derive(Debug)]
pub enum CommandError {
    /// Error when spawning a command fails
    SpawnError(String),
    /// Error during command execution
    ExecutionError(String),
    /// Command execution timed out
    Timeout(u64),
    /// Command environment is unavailable
    Unavailable(String),
}

/// The text of a command error.
pub open spec fn command_error_text(e: CommandError) -> Seq<char> {
    match e {
        CommandError::SpawnError(m) => "Failed to spawn command: "@ + m@,
        CommandError::ExecutionError(m) => "Command execution error: "@ + m@,
        CommandError::Timeout(s) => "Command timeout after "@ + decimal_text(s as nat) + " seconds"@,
        CommandError::Unavailable(m) => "Command environment unavailable: "@ + m@,
    }
}

impl CommandError {
    /// The text of the error.
    pub fn to_string(&self) -> (r: String)
        ensures
            r@ == command_error_text(*self),
    {
        match self {
            CommandError::SpawnError(m) => String::from_str("Failed to spawn command: ").concat(m.as_str()),
            CommandError::ExecutionError(m) => String::from_str("Command execution error: ").concat(
                m.as_str(),
            ),
            CommandError::Timeout(s) => String::from_str("Command timeout after ").concat(
                decimal_string(*s).as_str(),
            ).concat(" seconds"),
            CommandError::Unavailable(m) => String::from_str("Command environment unavailable: ").concat(
                m.as_str(),
            ),
        }
    }
}

/// Output line from a command execution
#[derive(Debug)]
pub struct CommandLine {
    /// The stream the line came from
    pub stream: Stream,
    /// The text of the line
    pub text: String,
}

/// Response from command execution
#[derive(Debug)]
pub enum CommandResp {
    /// Output line from command execution
    Line {
        /// Execution identifier
        id: String,
        /// Stream of the line
        stream: Stream,
        /// Text of the line
        text: String,
    },
    /// Command execution completed
    Done {
        /// Execution identifier
        id: String,
        /// Exit code of the command
        exit_code: i32,
    },
    /// Error during command execution
    Error {
        /// Execution identifier
        id: String,
        /// Error message
        message: String,
    },
}

/// The line that a command's reply adds to its output, if any.
pub open spec fn command_reply_line(resp: CommandResp) -> Option<(Stream, Seq<char>)> {
    match resp {
        CommandResp::Line { stream, text, .. } => Some((stream, text@)),
        CommandResp::Done { .. } => None,
        CommandResp::Error { message, .. } => Some((Stream::Stderr, "Error: "@ + message@)),
    }
}

/// Add what one reply of a running command gives to the collected output.
/// Returns whether more replies follow: a completion or an error ends the run.
pub fn collect_command_reply(lines: &mut Vec<CommandLine>, resp: CommandResp) -> (more: bool)
    ensures
        more == (resp is Line),
        command_reply_line(resp) matches Some(v) ==> ({
            let n = old(lines)@.len() as int;
            &&& final(lines)@.len() == n + 1
            &&& final(lines)@.subrange(0, n) == old(lines)@
            &&& final(lines)@[n].stream == v.0
            &&& final(lines)@[n].text@ == v.1
        }),
        command_reply_line(resp) is None ==> final(lines)@ == old(lines)@,
{
    match resp {
        CommandResp::Line { id: _, stream, text } => {
            lines.push(CommandLine { stream, text });
            true
        },
        CommandResp::Done { id: _, exit_code: _ } => false,
        CommandResp::Error { id: _, message } => {
            lines.push(
                CommandLine {
                    stream: Stream::Stderr,
                    text: String::from_str("Error: ").concat(message.as_str()),
                },
            );
            false
        },
    }
}

/// How a command's run ended.
pub enum ProcessEnd {
    /// The process exited, with its exit code where it has one (not where a
    /// signal ended it).
    Exited(Option<i32>),
    /// Waiting for the process failed with this error text.
    WaitFailed(String),
    /// The timeout of this many seconds passed first, and the process was killed.
    TimedOut(u64),
}

/// The last reply a command sends and the result of its execution, by how the
/// run ended. A process without an exit code counts as exit code 1.
pub fn command_outcome(id: String, end: ProcessEnd) -> (r: (CommandResp, Result<i32, CommandError>))
    ensures
        end matches ProcessEnd::Exited(code) ==> {
            let c = match code {
                Some(c) => c,
                None => 1i32,
            };
            &&& r.0 matches CommandResp::Done { id: i, exit_code } && i == id && exit_code == c
            &&& r.1 == Ok::<i32, CommandError>(c)
        },
        end matches ProcessEnd::WaitFailed(e) ==> {
            &&& r.0 matches CommandResp::Error { id: i, message } && i == id && message@
                == "Command execution failed: "@ + e@
            &&& r.1 matches Err(CommandError::ExecutionError(m)) && m@ == "Failed to wait for command: "@
                + e@
        },
        end matches ProcessEnd::TimedOut(s) ==> {
            &&& r.0 matches CommandResp::Error { id: i, message } && i == id && message@
                == "Command timed out after "@ + decimal_text(s as nat) + " seconds"@
            &&& r.1 == Err::<i32, CommandError>(CommandError::Timeout(s))
        },
{
    match end {
        ProcessEnd::Exited(code) => {
            let exit_code = match code {
                Some(c) => c,
                None => 1,
            };
            (CommandResp::Done { id, exit_code }, Ok(exit_code))
        },
        ProcessEnd::WaitFailed(e) => (
            CommandResp::Error {
                id,
                message: String::from_str("Command execution failed: ").concat(e.as_str()),
            },
            Err(
                CommandError::ExecutionError(
                    String::from_str("Failed to wait for command: ").concat(e.as_str()),
                ),
            ),
        ),
        ProcessEnd::TimedOut(s) => (
            CommandResp::Error {
                id,
                message: String::from_str("Command timed out after ").concat(
                    decimal_string(s).as_str(),
                ).concat(" seconds"),
            },
            Err(CommandError::Timeout(s)),
        ),
    }
}

/// The error of a command that could not be spawned.
pub fn spawn_failure(error_text: &str) -> (r: CommandError)
    ensures
        r matches CommandError::SpawnError(m) && m@ == "Failed to spawn command: "@ + error_text@,
{
    CommandError::SpawnError(String::from_str("Failed to spawn command: ").concat(error_text))
}

/// The result of a `sandbox.command.run` request.
pub struct CommandRunResult {
    /// The command run
    pub command: String,
    /// Its arguments
    pub args: Vec<String>,
    /// Its exit code
    pub exit_code: i32,
    /// Whether it exited with code 0
    pub success: bool,
    /// Its output lines
    pub output: Vec<CommandLine>,
}

/// The result of a command run: success is an exit code of 0.
pub fn command_run_result(command: String, args: Vec<String>, exit_code: i32, output: Vec<CommandLine>) -> (r: CommandRunResult)
    ensures
        r.command == command,
        r.args == args,
        r.exit_code == exit_code,
        r.success == (exit_code == 0),
        r.output == output,
{
    CommandRunResult { command, args, exit_code, success: exit_code == 0, output }
}

/// The error of a command request whose execution failed.
pub fn command_failure(error: &CommandError) -> (r: PortalError)
    ensures
        r matches PortalError::Internal(m) && m@ == "Command execution failed: "@ + command_error_text(
            *error,
        ),
{
    PortalError::Internal(String::from_str("Command execution failed: ").concat(error.to_string().as_str()))
}

} // verus!
