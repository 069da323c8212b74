use vstd::prelude::*;

verus! {

/// A single option occurrence.
///
/// For `Opt(x, y)`:
///   - `x` is the character representing the option.
///   - `y` is `Some` string, or `None` if no argument was expected.
#[derive(Debug, Clone, PartialEq, Eq, PartialOrd, Ord)]
pub struct Opt(pub char, pub Option<String>);

/// The value an option carries, seen as a sequence of characters.
pub open spec fn option_value_view(v: Option<String>) -> Option<Seq<char>> {
    match v {
        Some(s) => Some(s@),
        None => None,
    }
}

impl View for Opt {
    type V = (char, Option<Seq<char>>);

    open spec fn view(&self) -> (char, Option<Seq<char>>) {
        (self.0, option_value_view(self.1))
    }
}

} // verus!
