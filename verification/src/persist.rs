//! The decisions around appending the statement to a file: which variable
//! names the file, what to make of the variable's value and of the probe of
//! the path, and what is appended.

use vstd::prelude::*;
use vstd::string::StringExecFns;
use crate::error::{Fault, MyError};
use crate::method::{file_variable, Method};

verus! {

/// The characters of an optional string.
pub open spec fn text_of(value: Option<String>) -> Option<Seq<char>> {
    match value {
        Some(s) => Some(s@),
        None => None,
    }
}

/// The path that the variable's value gives: the value itself, or the
/// fault when the variable is not set.
pub open spec fn path_of(value: Option<Seq<char>>) -> Result<Seq<char>, Fault> {
    match value {
        Some(path) => Ok(path),
        None => Err(Fault::EnvNotFound),
    }
}

/// What is appended to the file: the statement and a line feed.
pub open spec fn line_text(command: Seq<char>) -> Seq<char> {
    command + "\n"@
}

/// The name of the environment variable that holds the path of the file
/// for statements of this method.
pub fn variable_name(method: &Method) -> (name: String)
    ensures
        name@ == file_variable(*method),
{
    match method {
        Method::Alias => String::from_str("ALIAS_FILE"),
        Method::Export => String::from_str("EXPORT_FILE"),
    }
}

/// Turns the value of the environment variable, `None` where it is not
/// set, into the path of the target file.
pub fn get_file_path(value: Option<String>) -> (path: Result<String, MyError>)
    ensures
        match path {
            Ok(p) => path_of(text_of(value)) == Ok::<Seq<char>, Fault>(p@),
            Err(e) => path_of(text_of(value)) == Err::<Seq<char>, Fault>(e@),
        },
{
    match value {
        Some(path) => Ok(path),
        None => Err(MyError::EnvNotFound),
    }
}

/// Accepts the path when the probe found an existing regular file there,
/// and refuses it with the path otherwise.
pub fn check_for_file(file: &String, is_file: bool) -> (checked: Result<(), MyError>)
    ensures
        is_file ==> checked is Ok,
        !is_file ==> checked is Err && checked->Err_0@ == Fault::FileNotFound(file@),
{
    if is_file {
        Ok(())
    } else {
        Err(MyError::FileNotFound(file.clone()))
    }
}

/// The text to append to the target file for `command`.
pub fn entry_line(command: &String) -> (line: String)
    ensures
        line@ == line_text(command@),
{
    let mut line = command.clone();
    line.append("\n");
    line
}

} // verus!
