use vstd::prelude::*;

use crate::errorkind::ErrorKind;

verus! {

/// The error returned by the parser: what went wrong, and the option character at fault.
#[derive(Debug, Clone, Copy, PartialEq, Eq, Structural)]
pub struct Error {
    culprit: char,
    kind: ErrorKind,
}

impl View for Error {
    /// The kind of the error and the offending character.
    type V = (ErrorKind, char);

    closed spec fn view(&self) -> (ErrorKind, char) {
        (self.kind, self.culprit)
    }
}

/// The text of the `Debug` form of a character: the character in single quotes, with special
/// characters escaped.
pub uninterp spec fn char_debug_of(c: char) -> Seq<char>;

/// Relies on the `Debug` formatting of `char`, which depends on the character alone.
#[verifier::external_body]
fn debug_quoted(c: char) -> (r: String)
    ensures
        r@ == char_debug_of(c),
{
    format!("{:?}", c)
}

/// The start of the message for an error of `kind`.
pub open spec fn message_prefix(kind: ErrorKind) -> Seq<char> {
    match kind {
        ErrorKind::MissingArgument => "option requires an argument -- "@,
        ErrorKind::UnknownOption => "unknown option -- "@,
    }
}

impl Error {
    /// Creates a new error using a known kind and the character that caused the issue.
    pub fn new(kind: ErrorKind, culprit: char) -> (r: Self)
        ensures
            r@ == (kind, culprit),
    {
        Self { culprit, kind }
    }

    /// Returns the kind of this error.
    pub fn kind(self) -> (r: ErrorKind)
        ensures
            r == self@.0,
    {
        self.kind
    }

    /// Returns the option character that caused this error.
    pub fn culprit(self) -> (r: char)
        ensures
            r == self@.1,
    {
        self.culprit
    }

    /// The message for this error, given the quoted form of its culprit character.
    pub fn message_with(&self, quoted_culprit: &str) -> (r: String)
        ensures
            r@ == message_prefix(self@.0) + quoted_culprit@,
    {
        let prefix = match self.kind {
            ErrorKind::MissingArgument => "option requires an argument -- ".to_owned(),
            ErrorKind::UnknownOption => "unknown option -- ".to_owned(),
        };
        prefix.concat(quoted_culprit)
    }

    /// The message for this error in the conventional `getopt` form, such as
    /// `unknown option -- 'x'`.
    pub fn to_string(&self) -> (r: String)
        ensures
            r@ == message_prefix(self@.0) + char_debug_of(self@.1),
    {
        let quoted = debug_quoted(self.culprit);
        self.message_with(quoted.as_str())
    }
}

} // verus!
