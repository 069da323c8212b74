use vstd::prelude::*;

use crate::error::Error;
use crate::errorkind::ErrorKind;
use crate::opt::Opt;
use crate::optspec::{optstring_map, OptionSpec};
use crate::result::Result;

verus! {

/// The character that starts an option token.
pub const OPTION_PREFIX: char = '-';

/// The token that ends option scanning and is itself skipped.
pub open spec fn terminator() -> Seq<char> {
    seq![OPTION_PREFIX, OPTION_PREFIX]
}

/// A token that may hold options: the prefix followed by at least one character.
pub open spec fn is_option_token(t: Seq<char>) -> bool {
    t.len() >= 2 && t[0] == OPTION_PREFIX
}

/// What one step reports: an option with its value, an error, or `None` at the end of the
/// options.
pub type StepReport = Option<core::result::Result<(char, Option<Seq<char>>), (ErrorKind, char)>>;

/// The abstract state of a parser: the arguments as character sequences, the option
/// specification, and the cursor (`index` into the arguments, `point` into the current one).
pub struct ParserState {
    pub args: Seq<Seq<char>>,
    pub opts: Map<char, bool>,
    pub index: int,
    pub point: int,
}

impl ParserState {
    /// The argument the cursor stands in.
    pub open spec fn token(self) -> Seq<char> {
        self.args[self.index]
    }

    /// The state with the cursor at the start of argument `index`.
    pub open spec fn at_token(self, index: int) -> ParserState {
        ParserState { index, point: 0, ..self }
    }

    /// The state after reading a character of the current token, with `q` the offset that
    /// follows it: the next token once the current one is used up.
    pub open spec fn moved_to(self, q: int) -> ParserState {
        if q >= self.token().len() {
            self.at_token(self.index + 1)
        } else {
            ParserState { point: q, ..self }
        }
    }

    /// The cursor is in range: inside a token (`point > 0`) only at a character after the
    /// prefix of an option token that is not the terminator.
    pub open spec fn wf(self) -> bool {
        &&& 0 <= self.index
        &&& 0 <= self.point
        &&& self.point > 0 ==> {
            &&& self.index < self.args.len()
            &&& 1 <= self.point < self.token().len()
            &&& is_option_token(self.token())
            &&& self.token() != terminator()
        }
    }

    /// At the start of a token, scanning ends here: past the end, or at an argument that is
    /// empty, a bare prefix, or without the prefix.
    pub open spec fn at_end_of_options(self) -> bool {
        self.point == 0 && !(self.index < self.args.len() && is_option_token(self.token()))
    }

    /// At the start of a token that is the terminator.
    pub open spec fn at_terminator(self) -> bool {
        self.point == 0 && self.index < self.args.len() && self.token() == terminator()
    }

    /// The offset of the option character that the next step reads.
    pub open spec fn option_point(self) -> int {
        if self.point == 0 {
            1
        } else {
            self.point
        }
    }

    /// The option character that the next step reads, where there is one.
    pub open spec fn pending_option(self) -> Option<char> {
        if self.at_end_of_options() || self.at_terminator() {
            None
        } else {
            Some(self.token()[self.option_point()])
        }
    }
}

/// One step of the scan, reading the option character at offset `p` of the current token.
pub open spec fn dispatch(s: ParserState, p: int) -> (ParserState, StepReport) {
    let t = s.token();
    let c = t[p];
    let q = p + 1;
    if !s.opts.contains_key(c) {
        (s.moved_to(q), Some(Err((ErrorKind::UnknownOption, c))))
    } else if !s.opts[c] {
        (s.moved_to(q), Some(Ok((c, None))))
    } else if q < t.len() {
        (s.at_token(s.index + 1), Some(Ok((c, Some(t.subrange(q, t.len() as int))))))
    } else if s.index + 1 >= s.args.len() {
        (s.at_token(s.index + 1), Some(Err((ErrorKind::MissingArgument, c))))
    } else {
        (s.at_token(s.index + 2), Some(Ok((c, Some(s.args[s.index + 1])))))
    }
}

/// One step of the scan: the state after it and what it reports.
pub open spec fn step(s: ParserState) -> (ParserState, StepReport) {
    if s.at_end_of_options() {
        (s, None)
    } else if s.at_terminator() {
        (s.at_token(s.index + 1), None)
    } else {
        dispatch(s, s.option_point())
    }
}

/// The options reported from `s` on, up to the end of the options or the first error; the
/// state where the scan stops; and the error, if one stopped it.
pub open spec fn scan(s: ParserState) -> (
    Seq<(char, Option<Seq<char>>)>,
    ParserState,
    Option<(ErrorKind, char)>,
)
    decreases s.args.len() - s.index, s.token().len() - s.point,
{
    if !s.wf() {
        (Seq::empty(), s, None)
    } else {
        match step(s).1 {
            Some(Ok(o)) => {
                let rest = scan(step(s).0);
                (seq![o] + rest.0, rest.1, rest.2)
            },
            Some(Err(e)) => (Seq::empty(), step(s).0, Some(e)),
            None => (Seq::empty(), step(s).0, None),
        }
    }
}

/// The options of a list, seen as characters and values.
pub open spec fn opts_view(v: Seq<Opt>) -> Seq<(char, Option<Seq<char>>)> {
    v.map_values(|o: Opt| o@)
}

/// An optional error, seen as its kind and character.
pub open spec fn error_view(e: Option<Error>) -> Option<(ErrorKind, char)> {
    match e {
        Some(e) => Some(e@),
        None => None,
    }
}

/// What a returned step result reports.
pub open spec fn report_of(r: Option<Result<Opt>>) -> StepReport {
    match r {
        None => None,
        Some(Ok(o)) => Some(Ok(o@)),
        Some(Err(e)) => Some(Err(e@)),
    }
}

/// The arguments as character sequences.
pub open spec fn args_view(args: Seq<String>) -> Seq<Seq<char>> {
    args.map_values(|a: String| a@)
}

/// An option parser over an argument vector.
///
/// Each call of [`Parser::next`] yields the next option, an error, or `None` once the options
/// have ended; [`Parser::index`] then gives the first argument that is not an option.
#[derive(Debug, Clone)]
pub struct Parser {
    opts: OptionSpec,
    args: Vec<String>,
    index: usize,
    point: usize,
}

impl View for Parser {
    type V = ParserState;

    closed spec fn view(&self) -> ParserState {
        ParserState {
            args: args_view(self.args@),
            opts: self.opts@,
            index: self.index as int,
            point: self.point as int,
        }
    }
}

impl Parser {
    /// Create a new `Parser`, which will process the arguments in `args` according to the options
    /// specified in `optstring`.
    ///
    /// As with a program's own argument list, options are expected to begin at the second
    /// element of `args`, and `index` starts at `1`; call [`Parser::set_index`] before the
    /// first step where `args` is laid out otherwise.
    ///
    /// `optstring` is a string of recognised option characters; if a character is followed by a
    /// colon (`:`), that option takes an argument.
    pub fn new(args: &[String], optstring: &str) -> (r: Self)
        ensures
            r@ == (ParserState {
                args: args_view(args@),
                opts: optstring_map(optstring@),
                index: 1,
                point: 0,
            }),
            r@.wf(),
    {
        let opts = OptionSpec::parse(optstring);
        let mut owned: Vec<String> = Vec::new();
        let mut i: usize = 0;
        while i < args.len()
            invariant
                i <= args@.len(),
                owned@ == args@.subrange(0, i as int),
            decreases args@.len() - i,
        {
            owned.push(args[i].clone());
            i = i + 1;
        }
        assert(owned@ =~= args@);
        Parser { opts, args: owned, index: 1, point: 0 }
    }

    /// Return the current `index` of the parser.
    ///
    /// `args[index]` is the argument the parser reads next; when the parser is finished with
    /// an argument, it increments `index`. Once the options have ended (and [`Parser::next`]
    /// returns `None`), `index` is the first argument that is not an option.
    pub fn index(&self) -> (r: usize)
        ensures
            r == self@.index,
    {
        self.index
    }

    /// Modify the current `index` of the parser, to the start of that argument.
    pub fn set_index(&mut self, value: usize)
        ensures
            final(self)@ == old(self)@.at_token(value as int),
    {
        self.index = value;
        self.point = 0;
    }

    /// Increment the current `index` of the parser, to the start of the next argument.
    pub fn incr_index(&mut self)
        requires
            old(self)@.index < usize::MAX,
        ensures
            final(self)@ == old(self)@.at_token(old(self)@.index + 1),
    {
        self.index = self.index + 1;
        self.point = 0;
    }
    /// Returns the next option, if any.
    ///
    /// Returns an error if an unknown option is encountered or if an expected argument is not
    /// found; the scan can go on after either.
    ///
    /// Parsing stops at the first argument without the leading hyphen; or at the first
    /// argument matching "-"; or after the first argument matching "--".
    ///
    /// When no more options are available, `next` returns `None`.
    pub fn next(&mut self) -> (r: Option<Result<Opt>>)
        requires
            old(self)@.wf(),
        ensures
            final(self)@ == step(old(self)@).0,
            report_of(r) == step(old(self)@).1,
            final(self)@.wf(),
    {
        let ghost s0 = self@;
        if self.point == 0 {
            if self.index >= self.args.len() {
                return None;
            }
            let tok = self.args[self.index].as_str();
            let len = tok.unicode_len();
            if len < 2 || tok.get_char(0) != OPTION_PREFIX {
                return None;
            }
            if len == 2 && tok.get_char(1) == OPTION_PREFIX {
                assert(s0.token() =~= terminator());
                self.incr_index();
                return None;
            }
            self.point = 1;
        }
        assert(args_view(self.args@).len() == self.args@.len());
        let nargs = self.args.len();
        let idx = self.index;
        let tok = self.args[idx].as_str();
        let len = tok.unicode_len();
        let c = tok.get_char(self.point);
        self.point = self.point + 1;
        match self.opts.lookup(c) {
            None => {
                if self.point >= len {
                    self.incr_index();
                }
                Some(Err(Error::new(ErrorKind::UnknownOption, c)))
            },
            Some(false) => {
                if self.point >= len {
                    self.incr_index();
                }
                Some(Ok(Opt(c, None)))
            },
            Some(true) => {
                if self.point >= len {
                    self.incr_index();
                    if self.index >= nargs {
                        return Some(Err(Error::new(ErrorKind::MissingArgument, c)));
                    }
                    let arg = self.args[self.index].clone();
                    self.incr_index();
                    Some(Ok(Opt(c, Some(arg))))
                } else {
                    let arg = tok.substring_char(self.point, len).to_owned();
                    self.incr_index();
                    Some(Ok(Opt(c, Some(arg))))
                }
            },
        }
    }
    /// Reads the options up to the end of the options or up to the first error, and returns
    /// them with that error, if any. The parser is left where the scan stopped.
    pub fn read_options(&mut self) -> (r: (Vec<Opt>, Option<Error>))
        requires
            old(self)@.wf(),
        ensures
            opts_view(r.0@) == scan(old(self)@).0,
            final(self)@ == scan(old(self)@).1,
            error_view(r.1) == scan(old(self)@).2,
            final(self)@.wf(),
            final(self)@.args == old(self)@.args,
            old(self)@.index <= old(self)@.args.len() ==> final(self)@.index
                <= final(self)@.args.len(),
    {
        let ghost s0 = self@;
        let mut found: Vec<Opt> = Vec::new();
        loop
            invariant
                s0 == old(self)@,
                self@.wf(),
                self@.args == s0.args,
                scan(s0) == (opts_view(found@) + scan(self@).0, scan(self@).1, scan(self@).2),
                s0.index <= s0.args.len() ==> self@.index <= self@.args.len(),
            decreases self@.args.len() - self@.index, self@.token().len() - self@.point,
        {
            let ghost before = self@;
            let ghost before_found = found@;
            let r = self.next();
            assert(scan(before) == match step(before).1 {
                Some(Ok(o)) => {
                    let rest = scan(step(before).0);
                    (seq![o] + rest.0, rest.1, rest.2)
                },
                Some(Err(e)) => (Seq::empty(), step(before).0, Some(e)),
                None => (Seq::empty(), step(before).0, None),
            });
            match r {
                None => {
                    return (found, None);
                },
                Some(Err(e)) => {
                    return (found, Some(e));
                },
                Some(Ok(o)) => {
                    found.push(o);
                    assert(opts_view(found@) =~= opts_view(before_found) + seq![o@]);
                    assert(opts_view(before_found) + (seq![o@] + scan(self@).0) =~= opts_view(
                        found@,
                    ) + scan(self@).0);
                },
            }
        }
    }
}

} // verus!
