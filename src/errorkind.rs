use vstd::prelude::*;

verus! {

/// What kinds of errors the parser can return.
#[derive(Debug, Clone, Copy, PartialEq, Eq, Structural)]
pub enum ErrorKind {
    /// An argument was not found for an option that was expecting one.
    MissingArgument,
    /// An unknown option character was encountered.
    UnknownOption,
}

} // verus!
