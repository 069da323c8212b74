use vstd::prelude::*;

use crate::error::Error;

verus! {

/// The result type of the parser's steps.
pub type Result<T> = core::result::Result<T, Error>;

} // verus!
