//! The container runtime's command line: the commands this library asks for, and how the
//! outcome of running one is classified.
use vstd::prelude::*;

use crate::text::{trim_end, trim_end_spec};

verus! {

/// What a command that exited successfully printed. `stdout` has no trailing whitespace.
#[derive(Debug, Clone, PartialEq, Eq)]
pub struct CapturedOutput {
    pub stdout: String,
    pub stderr: String,
}

/// Why a command gave no usable output.
#[derive(Debug, Clone, PartialEq, Eq)]
pub enum CommandError {
    /// The process could not be launched at all (missing binary, permissions). The streams
    /// hold whatever was captured, which is usually nothing.
    SpawnFailed { reason: String, stdout: String, stderr: String },
    /// The process ran and reported failure; both streams are kept for diagnosis.
    NonZeroExit { stdout: String, stderr: String },
}

impl CommandError {
    /// A copy equal to `self`.
    pub fn duplicate(&self) -> (r: CommandError)
        ensures
            r == *self,
    {
        match self {
            CommandError::SpawnFailed { reason, stdout, stderr } => CommandError::SpawnFailed {
                reason: reason.clone(),
                stdout: stdout.clone(),
                stderr: stderr.clone(),
            },
            CommandError::NonZeroExit { stdout, stderr } => CommandError::NonZeroExit {
                stdout: stdout.clone(),
                stderr: stderr.clone(),
            },
        }
    }
}

/// One invocation of the container runtime. Its view is the argument list handed to the
/// runtime's executable.
#[derive(Debug, Clone, PartialEq, Eq)]
pub enum RuntimeCommand {
    /// `inspect <target>`: an image's existence, or a container's network metadata.
    Inspect { target: String },
    /// `build -t <name> <context>`
    Build { name: String, context: String },
    /// `run -d <image>`: start a detached container; prints the new container's id.
    Run { image: String },
    /// `stop <id>`
    Stop { id: String },
    /// `logs <id>`
    Logs { id: String },
}

pub open spec fn inspect_args(target: Seq<char>) -> Seq<Seq<char>> {
    seq!["inspect"@, target]
}

pub open spec fn build_args(name: Seq<char>, context: Seq<char>) -> Seq<Seq<char>> {
    seq!["build"@, "-t"@, name, context]
}

pub open spec fn run_args(image: Seq<char>) -> Seq<Seq<char>> {
    seq!["run"@, "-d"@, image]
}

pub open spec fn stop_args(id: Seq<char>) -> Seq<Seq<char>> {
    seq!["stop"@, id]
}

pub open spec fn logs_args(id: Seq<char>) -> Seq<Seq<char>> {
    seq!["logs"@, id]
}

impl View for RuntimeCommand {
    type V = Seq<Seq<char>>;

    open spec fn view(&self) -> Seq<Seq<char>> {
        match self {
            RuntimeCommand::Inspect { target } => inspect_args(target@),
            RuntimeCommand::Build { name, context } => build_args(name@, context@),
            RuntimeCommand::Run { image } => run_args(image@),
            RuntimeCommand::Stop { id } => stop_args(id@),
            RuntimeCommand::Logs { id } => logs_args(id@),
        }
    }
}

impl RuntimeCommand {
    /// The arguments to pass to the runtime's executable, in order.
    pub fn args(&self) -> (r: Vec<String>)
        ensures
            r.deep_view() == self@,
    {
        let mut r: Vec<String> = Vec::new();
        match self {
            RuntimeCommand::Inspect { target } => {
                r.push(String::from_str("inspect"));
                r.push(target.clone());
            },
            RuntimeCommand::Build { name, context } => {
                r.push(String::from_str("build"));
                r.push(String::from_str("-t"));
                r.push(name.clone());
                r.push(context.clone());
            },
            RuntimeCommand::Run { image } => {
                r.push(String::from_str("run"));
                r.push(String::from_str("-d"));
                r.push(image.clone());
            },
            RuntimeCommand::Stop { id } => {
                r.push(String::from_str("stop"));
                r.push(id.clone());
            },
            RuntimeCommand::Logs { id } => {
                r.push(String::from_str("logs"));
                r.push(id.clone());
            },
        }
        assert(r.deep_view() =~= self@);
        r
    }
}

/// The classification of a finished process: a successful exit yields its output with the
/// trailing whitespace of `stdout` removed; any other exit is a `NonZeroExit` carrying both
/// streams as they were.
pub open spec fn capture_spec(success: bool, stdout: Seq<char>, stderr: Seq<char>) -> Result<
    (Seq<char>, Seq<char>),
    (Seq<char>, Seq<char>),
> {
    if success {
        Ok((trim_end_spec(stdout), stderr))
    } else {
        Err((stdout, stderr))
    }
}

/// Classifies the outcome of a process that was launched and ran to completion.
pub fn capture(success: bool, stdout: &str, stderr: &str) -> (r: Result<
    CapturedOutput,
    CommandError,
>)
    ensures
        match r {
            Ok(out) => capture_spec(success, stdout@, stderr@) == Ok::<
                (Seq<char>, Seq<char>),
                (Seq<char>, Seq<char>),
            >((out.stdout@, out.stderr@)),
            Err(CommandError::NonZeroExit { stdout: o, stderr: e }) => capture_spec(
                success,
                stdout@,
                stderr@,
            ) == Err::<(Seq<char>, Seq<char>), (Seq<char>, Seq<char>)>((o@, e@)),
            Err(CommandError::SpawnFailed { .. }) => false,
        },
{
    if success {
        Ok(CapturedOutput { stdout: trim_end(stdout), stderr: String::from_str(stderr) })
    } else {
        Err(
            CommandError::NonZeroExit {
                stdout: String::from_str(stdout),
                stderr: String::from_str(stderr),
            },
        )
    }
}

} // verus!
