use vstd::prelude::*;

use crate::errorkind::ErrorKind;
use crate::optspec::optstring_map;
use crate::parser::{step, terminator, ParserState, OPTION_PREFIX};

verus! {

/// The cursor of `t` lies strictly after that of `s`.
pub open spec fn strictly_after(t: ParserState, s: ParserState) -> bool {
    t.index > s.index || (t.index == s.index && t.point > s.point)
}

/// The state after `n` steps from `s`.
pub open spec fn run(s: ParserState, n: nat) -> ParserState
    decreases n,
{
    if n == 0 {
        s
    } else {
        run(step(s).0, (n - 1) as nat)
    }
}

/// Every step keeps the cursor in range and never moves `index` back; a step that reports an
/// option or an error moves the cursor strictly forward, so the scan never sticks.
pub proof fn lemma_step_moves_forward(s: ParserState)
    requires
        s.wf(),
    ensures
        step(s).0.wf(),
        step(s).0.index >= s.index,
        step(s).0.args == s.args,
        step(s).0.opts == s.opts,
        step(s).1 is Some ==> strictly_after(step(s).0, s),
{
}

/// At the start of an argument that is empty, is a bare `-`, or does not start with `-`, a
/// step reports the end of the options and leaves the cursor where it is.
pub proof fn lemma_end_of_options_keeps_cursor(s: ParserState)
    requires
        s.wf(),
        0 <= s.index < s.args.len(),
        s.token().len() == 0 || s.token() == seq![OPTION_PREFIX] || s.token()[0]
            != OPTION_PREFIX,
    ensures
        step(s) == (s, None::<core::result::Result<(char, Option<Seq<char>>), (ErrorKind, char)>>),
{
}

/// At an argument that is exactly `--`, a step reports the end of the options and moves
/// `index` on by exactly one, to the start of the next argument.
pub proof fn lemma_terminator_skipped(s: ParserState)
    requires
        s.wf(),
        0 <= s.index < s.args.len(),
        s.token() == terminator(),
    ensures
        step(s).1 is None,
        step(s).0 == s.at_token(s.index + 1),
{
}

/// An option character that `optstring` does not declare is reported as unknown, and the scan
/// goes on with the character after it (or the next argument), in a well-formed state.
pub proof fn lemma_unknown_option(optstring: Seq<char>, s: ParserState, c: char)
    requires
        s.wf(),
        s.opts == optstring_map(optstring),
        s.pending_option() == Some(c),
        !optstring_map(optstring).contains_key(c),
    ensures
        step(s).1 == Some(Err::<(char, Option<Seq<char>>), (ErrorKind, char)>((ErrorKind::UnknownOption, c))),
        step(s).0 == s.moved_to(s.option_point() + 1),
        step(s).0.wf(),
        strictly_after(step(s).0, s),
{
}

/// An option that takes an argument, read as the last character of its argument, takes the
/// whole next argument as its value and moves past it; with no next argument it is reported
/// as missing its argument.
pub proof fn lemma_argument_from_next_token(s: ParserState, c: char)
    requires
        s.wf(),
        s.pending_option() == Some(c),
        s.opts.contains_key(c),
        s.opts[c],
        s.option_point() + 1 == s.token().len(),
    ensures
        s.index + 1 >= s.args.len() ==> step(s) == (
            s.at_token(s.index + 1),
            Some(Err::<(char, Option<Seq<char>>), (ErrorKind, char)>((ErrorKind::MissingArgument, c))),
        ),
        s.index + 1 < s.args.len() ==> step(s) == (
            s.at_token(s.index + 2),
            Some(Ok::<(char, Option<Seq<char>>), (ErrorKind, char)>((c, Some(s.args[s.index + 1])))),
        ),
{
}

/// Once a step has reported the end of the options other than by skipping `--`, the parser
/// stays put: any number of further steps leave it unchanged and report the end again.
pub proof fn lemma_end_of_options_is_stable(s: ParserState, n: nat)
    requires
        s.wf(),
        step(s).1 is None,
        !s.at_terminator(),
    ensures
        step(s).0 == s,
        run(s, n) == s,
        step(run(s, n)).1 is None,
    decreases n,
{
    if n > 0 {
        lemma_end_of_options_is_stable(s, (n - 1) as nat);
    }
}

} // verus!
