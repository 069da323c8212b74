use vstd::prelude::*;

verus! {

/// The quoting conventions of a family of shells.
#[derive(Debug, Clone, Copy, PartialEq, Eq, Structural)]
pub enum ShellKind {
    /// sh, ksh, zsh, bash, (d)ash and the like.
    Bourne,
    /// csh and tcsh.
    C,
    /// fish.
    Fish,
    /// rc, the Plan 9 shell.
    Rc,
}

/// The quote character of every supported shell.
pub const QUOTE: char = '\'';

/// The escape character of the shells that have one.
pub const ESCAPE: char = '\\';

/// What one character of a quoted string becomes.
pub open spec fn escape_char(kind: ShellKind, c: char) -> Seq<char> {
    match kind {
        ShellKind::Bourne => if c == QUOTE {
            seq![QUOTE, ESCAPE, c, QUOTE]
        } else {
            seq![c]
        },
        ShellKind::C => if c == ' ' || c == QUOTE {
            seq![QUOTE, ESCAPE, c, QUOTE]
        } else {
            seq![c]
        },
        ShellKind::Fish => if c == QUOTE || c == ESCAPE {
            seq![ESCAPE, c]
        } else {
            seq![c]
        },
        ShellKind::Rc => if c == QUOTE {
            seq![QUOTE, c]
        } else {
            seq![c]
        },
    }
}

/// The characters of `s`, each escaped for `kind`.
pub open spec fn escape_seq(kind: ShellKind, s: Seq<char>) -> Seq<char>
    decreases s.len(),
{
    if s.len() == 0 {
        Seq::empty()
    } else {
        escape_seq(kind, s.drop_last()) + escape_char(kind, s.last())
    }
}

/// `s` as one quoted word of a shell of `kind`.
pub open spec fn quoted(kind: ShellKind, s: Seq<char>) -> Seq<char> {
    seq![QUOTE] + escape_seq(kind, s) + seq![QUOTE]
}

/// Relies on `String::push`: appends one character at the end.
#[verifier::external_body]
pub(crate) fn push_char(s: &mut String, c: char)
    ensures
        final(s)@ == old(s)@.push(c),
{
    s.push(c)
}

/// Quotes `string` as one word for a shell of `kind`, escaping the characters that the
/// shell would otherwise read specially inside quotes.
pub fn quote_for_shell(string: &str, kind: &ShellKind) -> (r: String)
    ensures
        r@ == quoted(*kind, string@),
{
    let len: usize = string.unicode_len();
    let mut new_string = String::new();
    push_char(&mut new_string, QUOTE);
    let mut i: usize = 0;
    while i < len
        invariant
            len == string@.len(),
            i <= len,
            new_string@ == seq![QUOTE] + escape_seq(*kind, string@.subrange(0, i as int)),
        decreases len - i,
    {
        let c = string.get_char(i);
        let ghost before = new_string@;
        match kind {
            ShellKind::Bourne => {
                if c == QUOTE {
                    push_char(&mut new_string, QUOTE);
                    push_char(&mut new_string, ESCAPE);
                    push_char(&mut new_string, c);
                    push_char(&mut new_string, QUOTE);
                } else {
                    push_char(&mut new_string, c);
                }
            },
            ShellKind::C => {
                if c == ' ' || c == QUOTE {
                    push_char(&mut new_string, QUOTE);
                    push_char(&mut new_string, ESCAPE);
                    push_char(&mut new_string, c);
                    push_char(&mut new_string, QUOTE);
                } else {
                    push_char(&mut new_string, c);
                }
            },
            ShellKind::Fish => {
                if c == QUOTE || c == ESCAPE {
                    push_char(&mut new_string, ESCAPE);
                    push_char(&mut new_string, c);
                } else {
                    push_char(&mut new_string, c);
                }
            },
            ShellKind::Rc => {
                if c == QUOTE {
                    push_char(&mut new_string, QUOTE);
                    push_char(&mut new_string, c);
                } else {
                    push_char(&mut new_string, c);
                }
            },
        }
        proof {
            let sub = string@.subrange(0, i + 1);
            assert(sub.drop_last() =~= string@.subrange(0, i as int));
            assert(new_string@ =~= before + escape_char(*kind, c));
        }
        i = i + 1;
    }
    assert(string@.subrange(0, len as int) =~= string@);
    push_char(&mut new_string, QUOTE);
    new_string
}

/// The shell family that a lowercase, trimmed shell name stands for, if any.
pub open spec fn shell_kind_of(name: Seq<char>) -> Option<ShellKind> {
    if name == "ash"@ || name == "bash"@ || name == "dash"@ || name == "ksh"@ || name == "mksh"@
        || name == "sh"@ || name == "zsh"@ {
        Some(ShellKind::Bourne)
    } else if name == "csh"@ || name == "tcsh"@ {
        Some(ShellKind::C)
    } else if name == "fish"@ {
        Some(ShellKind::Fish)
    } else if name == "plan9"@ || name == "rc"@ {
        Some(ShellKind::Rc)
    } else {
        None
    }
}

/// The lowercase form of a text.
pub uninterp spec fn lowercase_of(s: Seq<char>) -> Seq<char>;

/// Relies on `str::to_lowercase`, whose result depends on the text alone.
#[verifier::external_body]
fn lowercase(s: &str) -> (r: String)
    ensures
        r@ == lowercase_of(s@),
{
    s.to_lowercase()
}

/// A text without its leading and trailing white space.
pub uninterp spec fn trim_of(s: Seq<char>) -> Seq<char>;

/// Relies on `str::trim`, whose result depends on the text alone.
#[verifier::external_body]
fn trimmed(s: &str) -> (r: String)
    ensures
        r@ == trim_of(s@),
{
    s.trim().to_owned()
}

/// Whether two texts are equal.
fn text_eq(a: &str, b: &str) -> (r: bool)
    ensures
        r == (a@ == b@),
{
    a.to_owned() == b.to_owned()
}

/// The shell family for a name that is already lowercase and trimmed.
pub fn shell_kind_for(normalized: &str) -> (r: Option<ShellKind>)
    ensures
        r == shell_kind_of(normalized@),
{
    if text_eq(normalized, "ash") || text_eq(normalized, "bash") || text_eq(normalized, "dash")
        || text_eq(normalized, "ksh") || text_eq(normalized, "mksh") || text_eq(normalized, "sh")
        || text_eq(normalized, "zsh") {
        Some(ShellKind::Bourne)
    } else if text_eq(normalized, "csh") || text_eq(normalized, "tcsh") {
        Some(ShellKind::C)
    } else if text_eq(normalized, "fish") {
        Some(ShellKind::Fish)
    } else if text_eq(normalized, "plan9") || text_eq(normalized, "rc") {
        Some(ShellKind::Rc)
    } else {
        None
    }
}

/// A shell name in lowercase and without surrounding white space, ready for
/// [`shell_kind_for`].
pub fn normalize_shell_name(name: &str) -> (r: String)
    ensures
        r@ == trim_of(lowercase_of(name@)),
{
    let lowered = lowercase(name);
    trimmed(lowered.as_str())
}

} // verus!
