//! The kind of statement to generate, and how two flags select it.

use vstd::prelude::*;
use crate::error::{Fault, MyError};

verus! {

/// Which shell statement is generated.
#[derive(Debug, Clone, Copy, PartialEq, Eq, Structural)]
pub enum Method {
    Alias,
    Export,
}

/// The method that the two flags select, or the fault when both are set.
/// With neither flag set the method is `Export`.
pub open spec fn method_of(alias: bool, export: bool) -> Result<Method, Fault> {
    if alias && export {
        Err(Fault::DualMethod)
    } else if alias {
        Ok(Method::Alias)
    } else {
        Ok(Method::Export)
    }
}

/// The word that opens the statement, with the space that follows it.
pub open spec fn keyword(method: Method) -> Seq<char> {
    match method {
        Method::Alias => "alias "@,
        Method::Export => "export "@,
    }
}

/// The environment variable that names the file to which statements of
/// this method are appended.
pub open spec fn file_variable(method: Method) -> Seq<char> {
    match method {
        Method::Alias => "ALIAS_FILE"@,
        Method::Export => "EXPORT_FILE"@,
    }
}

/// Resolves the two flags to a method. The flags exclude each other.
pub fn determine_method(alias: bool, export: bool) -> (method: Result<Method, MyError>)
    ensures
        match method {
            Ok(m) => method_of(alias, export) == Ok::<Method, Fault>(m),
            Err(e) => method_of(alias, export) == Err::<Method, Fault>(e@),
        },
{
    if alias && export {
        Err(MyError::DualMethod)
    } else if alias {
        Ok(Method::Alias)
    } else {
        Ok(Method::Export)
    }
}

} // verus!
