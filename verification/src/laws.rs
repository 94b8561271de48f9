//! What holds of every run, stated over the steps of [`crate::run`].

use vstd::prelude::*;
use crate::command::{command_text, joined};
use crate::error::Fault;
use crate::method::{file_variable, method_of, Method};
use crate::run::{first_step, output, step_after_append, step_after_probe, step_after_var, CliView, JobView, Step};

verus! {

/// The step that follows `step` in a world where the variable has the
/// value `value` and the probe of a path answers `is_file`. The end of a
/// run is followed by itself.
pub open spec fn next_step(step: Step, value: Option<Seq<char>>, is_file: bool) -> Step {
    match step {
        Step::ReadVar { variable, job } => step_after_var(job, value),
        Step::ProbeFile { path, job } => step_after_probe(path, job, is_file),
        Step::Append { path, line, job } => step_after_append(job),
        Step::Finish(result) => step,
    }
}

/// True where the step asks the caller to read the environment or to
/// touch the file system.
pub open spec fn reaches_outside(step: Step) -> bool {
    !(step is Finish)
}

/// True where the step asks the caller to touch the file system.
pub open spec fn reaches_files(step: Step) -> bool {
    step is ProbeFile || step is Append
}

/// The job of a run whose flags select `method`.
pub open spec fn job_of(method: Method, args: CliView) -> JobView {
    JobView { command: command_text(method, args.name, args.item), here: args.here }
}

/// Two flags select a method unless both are set; with neither set the
/// method is `Export`, and `alias` alone selects `Alias`.
pub proof fn law_method_resolution(alias: bool, export: bool)
    ensures
        alias && export ==> method_of(alias, export) == Err::<Method, Fault>(Fault::DualMethod),
        alias && !export ==> method_of(alias, export) == Ok::<Method, Fault>(Method::Alias),
        !alias ==> method_of(alias, export) == Ok::<Method, Fault>(Method::Export),
{
}

/// With both flags set a run ends at once with `DualMethod`, whatever the
/// other arguments are, and asks for nothing.
pub proof fn law_both_flags_end_the_run(args: CliView)
    requires
        args.alias && args.export,
    ensures
        first_step(args) == Step::Finish(Err(Fault::DualMethod)),
{
}

/// A run that does not save ends with its first step: it asks neither for
/// the environment nor for the file system.
pub proof fn law_unsaved_run_asks_nothing(args: CliView)
    requires
        !args.save,
    ensures
        !reaches_outside(first_step(args)),
        first_step(args) == Step::Finish(
            match method_of(args.alias, args.export) {
                Err(fault) => Err(fault),
                Ok(method) => Ok(output(job_of(method, args))),
            },
        ),
{
}

/// A run that saves asks first for the variable of its method. Where that
/// variable is not set the run ends with `EnvNotFound`, and no step of it
/// touched the file system.
pub proof fn law_unset_variable_ends_the_run(args: CliView, method: Method)
    requires
        args.save,
        method_of(args.alias, args.export) == Ok::<Method, Fault>(method),
    ensures
        first_step(args) == (Step::ReadVar {
            variable: file_variable(method),
            job: job_of(method, args),
        }),
        !reaches_files(first_step(args)),
        next_step(first_step(args), None, true) == Step::Finish(Err(Fault::EnvNotFound)),
        next_step(first_step(args), None, false) == Step::Finish(Err(Fault::EnvNotFound)),
{
}

/// Where the variable is set, its value is the path that is probed, and
/// where no regular file is there the run ends with `FileNotFound` and that
/// path. Nothing is appended.
pub proof fn law_missing_file_ends_the_run(job: JobView, path: Seq<char>)
    ensures
        step_after_var(job, Some(path)) == (Step::ProbeFile { path, job }),
        step_after_probe(path, job, false) == Step::Finish(Err(Fault::FileNotFound(path))),
{
}

/// A run that does not print the statement prints the word `success`,
/// whatever the statement is.
pub proof fn law_quiet_output(job: JobView)
    requires
        !job.here,
    ensures
        output(job) == "success"@,
{
}

/// A run ends after at most three requests, and how it ends is a function
/// of the arguments, the variable's value and the probe's answer: flags
/// that exclude each other give `DualMethod`; a run that does not save
/// gives its output; one that saves gives `EnvNotFound` where the variable
/// is not set, `FileNotFound` with the variable's value where no regular
/// file is there, and its output once the line is appended.
pub proof fn law_outcome(args: CliView, value: Option<Seq<char>>, is_file: bool)
    ensures
        ({
            let last = next_step(
                next_step(next_step(first_step(args), value, is_file), value, is_file),
                value,
                is_file,
            );
            last == Step::Finish(
                match method_of(args.alias, args.export) {
                    Err(fault) => Err(fault),
                    Ok(method) => if !args.save {
                        Ok(output(job_of(method, args)))
                    } else if value is None {
                        Err(Fault::EnvNotFound)
                    } else if !is_file {
                        Err(Fault::FileNotFound(value->Some_0))
                    } else {
                        Ok(output(job_of(method, args)))
                    },
                },
            )
        }),
{
}

/// The line that a run appends is its statement followed by a line feed,
/// and it goes to the path that the variable holds.
pub proof fn law_appended_line(args: CliView, method: Method, path: Seq<char>)
    requires
        args.save,
        method_of(args.alias, args.export) == Ok::<Method, Fault>(method),
    ensures
        next_step(next_step(first_step(args), Some(path), true), Some(path), true) == (Step::Append {
            path,
            line: command_text(method, args.name, args.item) + "\n"@,
            job: job_of(method, args),
        }),
{
}

/// Joining two runs of items, neither of them empty, is joining each and
/// putting one space between the two.
pub proof fn law_joined_concat(front: Seq<Seq<char>>, back: Seq<Seq<char>>)
    requires
        front.len() > 0,
        back.len() > 0,
    ensures
        joined(front + back) == joined(front) + " "@ + joined(back),
    decreases back.len(),
{
    let whole = front + back;
    assert(whole.last() == back.last());
    if back.len() == 1 {
        assert(whole.drop_last() =~= front);
    } else {
        assert(whole.drop_last() =~= front + back.drop_last());
        law_joined_concat(front, back.drop_last());
        assert(joined(whole) =~= joined(front) + " "@ + joined(back));
    }
}

} // verus!
