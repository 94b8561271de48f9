//! The errors that end a run.

use vstd::prelude::*;
use vstd::string::StringExecFns;

verus! {

/// Why a run ended without a result.
#[derive(Debug, PartialEq, Eq)]
pub enum MyError {
    /// The path taken from the environment names no existing regular file.
    FileNotFound(String),
    /// The environment variable that holds the target file's path is not set.
    EnvNotFound,
    /// Both `alias` and `export` were asked for.
    DualMethod,
}

/// The mathematical value of a [`MyError`]: the path as a sequence of characters.
pub enum Fault {
    FileNotFound(Seq<char>),
    EnvNotFound,
    DualMethod,
}

impl View for MyError {
    type V = Fault;

    open spec fn view(&self) -> Fault {
        match self {
            MyError::FileNotFound(path) => Fault::FileNotFound(path@),
            MyError::EnvNotFound => Fault::EnvNotFound,
            MyError::DualMethod => Fault::DualMethod,
        }
    }
}

/// The line shown to the user for a fault.
pub open spec fn message_text(fault: Fault) -> Seq<char> {
    match fault {
        Fault::FileNotFound(path) => path + " not found"@,
        Fault::EnvNotFound => "Please export EXPORT_FILE or ALIAS_FILE"@,
        Fault::DualMethod => "You may only use alias or export, not both"@,
    }
}

impl MyError {
    /// The single line that describes this error to the user.
    pub fn message(&self) -> (text: String)
        ensures
            text@ == message_text(self@),
    {
        match self {
            MyError::FileNotFound(path) => {
                let mut text = path.clone();
                text.append(" not found");
                text
            },
            MyError::EnvNotFound => String::from_str("Please export EXPORT_FILE or ALIAS_FILE"),
            MyError::DualMethod => String::from_str("You may only use alias or export, not both"),
        }
    }
}

} // verus!
