//! Running the tool: how a child process is set up, and what is made of the
//! attempt to run it.
//!
//! Spawning and waiting happen in the caller, off the thread that serves the
//! interface. The caller builds its command from a [`CliCommand`] and reports
//! how the attempt ended as a [`Spawned`].

use crate::error::FiberpathError;
use crate::platform::Platform;
use crate::text::{join, joined, texts};
use std::path::PathBuf;
use vstd::prelude::*;
use vstd::string::*;

verus! {

/// What identifies the executable to run.
#[derive(Clone, Debug)]
pub enum Program {
    /// The resolved location of the executable.
    Path(PathBuf),
    /// A bare name, left to the operating system to look up.
    Name(String),
}

/// How the child process is to be created.
#[derive(Clone, Debug)]
pub struct CliCommand {
    /// The executable to start.
    pub program: Program,
    /// The process creation flags to start it with; zero where the platform
    /// has none to set.
    pub creation_flags: u32,
}

/// The creation flags a child process is spawned with: those of the
/// platform, and none on a system the bridge does not know.
pub open spec fn creation_flags_on(platform: Option<Platform>) -> u32 {
    match platform {
        Some(platform) => platform.spawn_flags(),
        None => 0,
    }
}

/// Sets up the child process for `program` on `platform`; `None` stands for
/// a system the bridge does not know.
///
/// Where a child would flash a console window, the creation flags suppress
/// it; on every other system no flag is set.
pub fn command_for_cli(program: Program, platform: Option<Platform>) -> (command: CliCommand)
    ensures
        command.program == program,
        command.creation_flags == creation_flags_on(platform),
        command.creation_flags != 0 <==> platform == Some(Platform::Windows),
{
    let creation_flags = match platform {
        Some(platform) => if platform.needs_hidden_console() {
            crate::platform::CREATE_NO_WINDOW
        } else {
            0
        },
        None => 0,
    };
    CliCommand { program, creation_flags }
}

/// What a finished child process left behind.
#[derive(Clone, Debug)]
pub struct ProcessOutcome {
    /// The exit code, or `None` where the process ended without one.
    pub code: Option<i32>,
    /// Everything the process wrote to its standard output.
    pub stdout: Vec<u8>,
    /// Everything the process wrote to its standard error.
    pub stderr: Vec<u8>,
}

impl ProcessOutcome {
    /// Exit code zero is the only sign of success.
    pub open spec fn succeeded(&self) -> bool {
        self.code == Some(0i32)
    }

    /// Says whether the process reported success.
    pub fn success(&self) -> (ok: bool)
        ensures
            ok == self.succeeded(),
    {
        match self.code {
            Some(code) => code == 0,
            None => false,
        }
    }
}

/// How an attempt to run the tool ended.
#[derive(Clone, Debug)]
pub enum Spawned {
    /// The process ran and exited.
    Exited(ProcessOutcome),
    /// The process could not be started; the text is the system's reason.
    Refused(String),
    /// The background task that was to run the process did not finish; the
    /// text is the runtime's reason.
    Abandoned(String),
}

/// The message for a process that could not be started with `args`.
pub open spec fn refused_message(reason: Seq<char>, args: Seq<Seq<char>>) -> Seq<char> {
    reason + " while running `"@ + joined(args, " "@) + "`"@
}

/// The message for a background task that did not finish.
pub open spec fn abandoned_message(reason: Seq<char>) -> Seq<char> {
    "Failed to run fiberpath: "@ + reason
}

/// Makes of an attempt to run the tool with `args` either the outcome of the
/// process, untouched, or a launch failure.
///
/// A process that ran is handed on whatever its exit code: a non-zero exit is
/// no launch failure. A process that could not be started, and a background
/// task that did not finish, are launch failures, each with its own message.
pub fn exec_fiberpath(args: &Vec<String>, spawned: Spawned) -> (ran: Result<
    ProcessOutcome,
    FiberpathError,
>)
    ensures
        match spawned {
            Spawned::Exited(outcome) => ran == Ok::<ProcessOutcome, FiberpathError>(outcome),
            Spawned::Refused(reason) => ran matches Err(FiberpathError::Launch(message))
                && message@ == refused_message(reason@, texts(args@)),
            Spawned::Abandoned(reason) => ran matches Err(FiberpathError::Launch(message))
                && message@ == abandoned_message(reason@),
        },
{
    match spawned {
        Spawned::Exited(outcome) => Ok(outcome),
        Spawned::Refused(reason) => {
            let mut message = reason;
            let line = join(args, " ");
            message.append(" while running `");
            message.append(line.as_str());
            message.append("`");
            Err(FiberpathError::Launch(message))
        },
        Spawned::Abandoned(reason) => {
            let mut message = String::from_str("Failed to run fiberpath: ");
            message.append(reason.as_str());
            Err(FiberpathError::Launch(message))
        },
    }
}

} // verus!
