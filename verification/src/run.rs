//! One run, from the parsed arguments to the text that is printed.
//!
//! A run never reads the environment or the file system itself. It hands
//! the caller an [`Action`]: a request to carry out, or the end of the run.
//! Each request is a value of its own type, and answering it gives the next
//! action, so a request cannot be answered out of turn.

use vstd::prelude::*;
use vstd::string::StringExecFns;
use crate::command::{build_command, command_text};
use crate::error::{Fault, MyError};
use crate::method::{determine_method, file_variable, method_of};
use crate::persist::{
    check_for_file, entry_line, get_file_path, line_text, path_of, text_of, variable_name,
};

verus! {

/// The parsed command line.
#[derive(Debug, PartialEq, Eq)]
pub struct Cli {
    /// Print the statement itself at the end.
    pub here: bool,
    /// Generate an `export` statement.
    pub export: bool,
    /// Generate an `alias` statement.
    pub alias: bool,
    /// Append the statement to the file that the environment names.
    pub save: bool,
    /// The name that is assigned to.
    pub name: String,
    /// The tokens that make up the value.
    pub item: Vec<String>,
}

/// The mathematical value of a [`Cli`].
pub struct CliView {
    pub here: bool,
    pub export: bool,
    pub alias: bool,
    pub save: bool,
    pub name: Seq<char>,
    pub item: Seq<Seq<char>>,
}

impl View for Cli {
    type V = CliView;

    open spec fn view(&self) -> CliView {
        CliView {
            here: self.here,
            export: self.export,
            alias: self.alias,
            save: self.save,
            name: self.name@,
            item: self.item.deep_view(),
        }
    }
}

/// What a run carries from one request to the next: the statement, and
/// whether it is printed at the end.
#[derive(Debug, PartialEq, Eq)]
pub struct Job {
    pub command: String,
    pub here: bool,
}

/// The mathematical value of a [`Job`].
pub struct JobView {
    pub command: Seq<char>,
    pub here: bool,
}

impl View for Job {
    type V = JobView;

    open spec fn view(&self) -> JobView {
        JobView { command: self.command@, here: self.here }
    }
}

/// A request for the value of the environment variable `variable`.
#[derive(Debug, PartialEq, Eq)]
pub struct VarRequest {
    pub variable: String,
    pub job: Job,
}

/// A request to find out whether `path` names an existing regular file.
#[derive(Debug, PartialEq, Eq)]
pub struct FileRequest {
    pub path: String,
    pub job: Job,
}

/// A request to append `line` to the file at `path`.
#[derive(Debug, PartialEq, Eq)]
pub struct AppendRequest {
    pub path: String,
    pub line: String,
    pub job: Job,
}

/// What the caller does next.
#[derive(Debug, PartialEq, Eq)]
pub enum Action {
    /// Read an environment variable and answer with its value.
    ReadVar(VarRequest),
    /// Probe a path and answer whether a regular file is there.
    ProbeFile(FileRequest),
    /// Append a line to a file and report that it is done.
    Append(AppendRequest),
    /// The run is over: print the text, or report the error.
    Finish(Result<String, MyError>),
}

/// The mathematical value of an [`Action`].
pub enum Step {
    ReadVar { variable: Seq<char>, job: JobView },
    ProbeFile { path: Seq<char>, job: JobView },
    Append { path: Seq<char>, line: Seq<char>, job: JobView },
    Finish(Result<Seq<char>, Fault>),
}

impl View for VarRequest {
    type V = Step;

    open spec fn view(&self) -> Step {
        Step::ReadVar { variable: self.variable@, job: self.job@ }
    }
}

impl View for FileRequest {
    type V = Step;

    open spec fn view(&self) -> Step {
        Step::ProbeFile { path: self.path@, job: self.job@ }
    }
}

impl View for AppendRequest {
    type V = Step;

    open spec fn view(&self) -> Step {
        Step::Append { path: self.path@, line: self.line@, job: self.job@ }
    }
}

impl View for Action {
    type V = Step;

    open spec fn view(&self) -> Step {
        match self {
            Action::ReadVar(request) => request@,
            Action::ProbeFile(request) => request@,
            Action::Append(request) => request@,
            Action::Finish(Ok(text)) => Step::Finish(Ok(text@)),
            Action::Finish(Err(error)) => Step::Finish(Err(error@)),
        }
    }
}

/// The text that a run which came to its end prints: the statement where
/// it was asked for, and the word `success` otherwise.
pub open spec fn output(job: JobView) -> Seq<char> {
    if job.here {
        job.command
    } else {
        "success"@
    }
}

/// The first step of a run. Flags that exclude each other end it at once.
/// Otherwise the statement is built; a run that saves then asks for the
/// variable of its method, and one that does not is over.
pub open spec fn first_step(args: CliView) -> Step {
    match method_of(args.alias, args.export) {
        Err(fault) => Step::Finish(Err(fault)),
        Ok(method) => {
            let job = JobView {
                command: command_text(method, args.name, args.item),
                here: args.here,
            };
            if args.save {
                Step::ReadVar { variable: file_variable(method), job }
            } else {
                Step::Finish(Ok(output(job)))
            }
        },
    }
}

/// The step after the variable was read: a probe of the path that it
/// holds, or the end of the run where it is not set.
pub open spec fn step_after_var(job: JobView, value: Option<Seq<char>>) -> Step {
    match path_of(value) {
        Ok(path) => Step::ProbeFile { path, job },
        Err(fault) => Step::Finish(Err(fault)),
    }
}

/// The step after the path was probed: the statement is appended as a line
/// of its own where a regular file is there, and the run ends with the path
/// where none is.
pub open spec fn step_after_probe(path: Seq<char>, job: JobView, is_file: bool) -> Step {
    if is_file {
        Step::Append { path, line: line_text(job.command), job }
    } else {
        Step::Finish(Err(Fault::FileNotFound(path)))
    }
}

/// The step after the line was appended: the run ends with its output.
pub open spec fn step_after_append(job: JobView) -> Step {
    Step::Finish(Ok(output(job)))
}

impl Job {
    /// Ends the run: the text to print.
    pub fn finish(self) -> (text: String)
        ensures
            text@ == output(self@),
    {
        if self.here {
            self.command
        } else {
            String::from_str("success")
        }
    }
}

impl VarRequest {
    /// Answers the request with the variable's value, `None` where the
    /// variable is not set.
    pub fn answer(self, value: Option<String>) -> (next: Action)
        ensures
            next@ == step_after_var(self.job@, text_of(value)),
    {
        match get_file_path(value) {
            Ok(path) => Action::ProbeFile(FileRequest { path, job: self.job }),
            Err(error) => Action::Finish(Err(error)),
        }
    }
}

impl FileRequest {
    /// Answers the request: whether the path names an existing regular file.
    pub fn answer(self, is_file: bool) -> (next: Action)
        ensures
            next@ == step_after_probe(self.path@, self.job@, is_file),
    {
        match check_for_file(&self.path, is_file) {
            Ok(()) => {
                let line = entry_line(&self.job.command);
                Action::Append(AppendRequest { path: self.path, line, job: self.job })
            },
            Err(error) => Action::Finish(Err(error)),
        }
    }
}

impl AppendRequest {
    /// Reports that the line was appended.
    pub fn done(self) -> (next: Action)
        ensures
            next@ == step_after_append(self.job@),
    {
        Action::Finish(Ok(self.job.finish()))
    }
}

/// Starts a run on the parsed arguments and gives its first action.
pub fn run(args: Cli) -> (first: Action)
    ensures
        first@ == first_step(args@),
{
    let Cli { here, export, alias, save, name, item } = args;
    match determine_method(alias, export) {
        Err(error) => Action::Finish(Err(error)),
        Ok(method) => {
            let command = build_command(&method, name, item);
            let job = Job { command, here };
            if save {
                Action::ReadVar(VarRequest { variable: variable_name(&method), job })
            } else {
                Action::Finish(Ok(job.finish()))
            }
        },
    }
}

} // verus!
