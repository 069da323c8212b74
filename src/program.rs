use vstd::prelude::*;

use crate::error::{char_debug_of, message_prefix};
use crate::errorkind::ErrorKind;
use crate::opt::Opt;
use crate::optspec::optstring_map;
use crate::parser::{args_view, error_view, opts_view, scan, Parser, ParserState};
use crate::shell::{
    lowercase_of, normalize_shell_name, push_char, quote_for_shell, quoted, shell_kind_for,
    shell_kind_of, trim_of, ShellKind,
};

verus! {

/// How a run of the option-quoting program ends: with an exit code, or with a message about
/// the arguments it was asked to parse (`External`) or about its own arguments (`Internal`).
#[derive(Debug, Clone, PartialEq, Eq)]
pub enum Result {
    Exit(i32),
    External(String),
    Internal(String),
}

/// A run's ending, with its message as characters.
pub enum ResultView {
    Exit(i32),
    External(Seq<char>),
    Internal(Seq<char>),
}

impl View for Result {
    type V = ResultView;

    open spec fn view(&self) -> ResultView {
        match self {
            Result::Exit(code) => ResultView::Exit(*code),
            Result::External(m) => ResultView::External(m@),
            Result::Internal(m) => ResultView::Internal(m@),
        }
    }
}

/// What the program's own options settle: help was asked for, a shell name was not
/// recognised, or the name to report errors under and the shell to quote for.
pub enum Settled {
    Help,
    UnknownShell(Seq<char>),
    Chosen(Seq<char>, ShellKind),
}

/// Settles the program's own options in order, from the error name `child` and `shell` so
/// far: `-h` asks for help, `-n` names the program whose options are parsed, `-s` picks the
/// shell. The first help request or unknown shell ends it; a later `-n` or `-s` wins.
pub open spec fn settle(opts: Seq<(char, Option<Seq<char>>)>, child: Seq<char>, shell: ShellKind) -> Settled
    decreases opts.len(),
{
    if opts.len() == 0 {
        Settled::Chosen(child, shell)
    } else {
        let c = opts[0].0;
        let v = opts[0].1;
        let rest = opts.drop_first();
        if c == 'h' && v is None {
            Settled::Help
        } else if c == 'n' && v is Some {
            settle(rest, v->0, shell)
        } else if c == 's' && v is Some {
            let x = trim_of(lowercase_of(v->0));
            match shell_kind_of(x) {
                Some(k) => settle(rest, child, k),
                None => Settled::UnknownShell(x),
            }
        } else {
            settle(rest, child, shell)
        }
    }
}

/// The words that stand for parsed options: `-c` for each, followed by its value, quoted.
pub open spec fn option_words(opts: Seq<(char, Option<Seq<char>>)>, shell: ShellKind) -> Seq<Seq<char>>
    decreases opts.len(),
{
    if opts.len() == 0 {
        Seq::empty()
    } else {
        let o = opts.last();
        let value = match o.1 {
            Some(v) => seq![quoted(shell, v)],
            None => Seq::empty(),
        };
        option_words(opts.drop_last(), shell) + seq![seq!['-', o.0]] + value
    }
}

/// Each argument quoted for `shell`.
pub open spec fn quoted_words(args: Seq<Seq<char>>, shell: ShellKind) -> Seq<Seq<char>> {
    args.map_values(|a: Seq<char>| quoted(shell, a))
}

/// What a run of the program called `name` on `args` prints, line by line, and how it ends.
///
/// The program reads its own options (`-h`, `-n name`, `-s shell`) from `args[1..]`; the
/// next argument is an option string, with which it parses the arguments after it. It
/// prints the options found, `--`, and the remaining arguments, each quoted for the shell,
/// on one line.
pub open spec fn run_spec(name: Seq<char>, args: Seq<Seq<char>>) -> (Seq<Seq<char>>, ResultView) {
    let own = scan(ParserState { args, opts: optstring_map("hn:s:"@), index: 1, point: 0 });
    match settle(own.0, name, ShellKind::Bourne) {
        Settled::Help => (usage_lines(name), ResultView::Exit(0)),
        Settled::UnknownShell(x) => (
            Seq::empty(),
            ResultView::Internal(name + ": unknown shell type: "@ + x),
        ),
        Settled::Chosen(child, shell) => {
            if own.2 is Some {
                (Seq::empty(), ResultView::Internal(name + ": "@ + error_text(own.2->0)))
            } else if own.1.index >= args.len() {
                (Seq::empty(), ResultView::Internal(name + ": missing optstring argument"@))
            } else {
                let inner = scan(
                    ParserState {
                        args,
                        opts: optstring_map(args[own.1.index]),
                        index: own.1.index + 1,
                        point: 0,
                    },
                );
                if inner.2 is Some {
                    (Seq::empty(), ResultView::External(child + ": "@ + error_text(inner.2->0)))
                } else {
                    let words = option_words(inner.0, shell) + seq![seq!['-', '-']] + quoted_words(
                        args.subrange(inner.1.index, args.len() as int),
                        shell,
                    );
                    (seq![joined(words)], ResultView::Exit(0))
                }
            }
        },
    }
}

/// A list of strings, seen as character sequences.
pub open spec fn lines_view(v: Seq<String>) -> Seq<Seq<char>> {
    v.map_values(|s: String| s@)
}

/// The help text for a program called `name`, line by line.
pub open spec fn usage_lines(name: Seq<char>) -> Seq<Seq<char>> {
    seq![
        "Usage: "@ + name + " [-h] [-n name] [-s shell] optstring [args ...]"@,
        "  -n name   report errors as 'name' (default '"@ + name + "')"@,
        "  -s shell  use quoting conventions for shell (default 'sh')"@,
        Seq::empty(),
        "  -h        display this help"@,
    ]
}

/// The message of a parse error.
pub open spec fn error_text(e: (ErrorKind, char)) -> Seq<char> {
    message_prefix(e.0) + char_debug_of(e.1)
}

/// Words separated by single spaces.
pub open spec fn joined(words: Seq<Seq<char>>) -> Seq<char>
    decreases words.len(),
{
    if words.len() == 0 {
        Seq::empty()
    } else if words.len() == 1 {
        words[0]
    } else {
        joined(words.drop_last()) + seq![' '] + words.last()
    }
}

/// `a`, `b` and `c` one after the other.
fn concat3(a: &str, b: &str, c: &str) -> (r: String)
    ensures
        r@ == a@ + b@ + c@,
{
    a.to_owned().concat(b).concat(c)
}

/// The help text for a program called `name`, line by line.
pub fn usage(name: &str) -> (r: Vec<String>)
    ensures
        lines_view(r@) == usage_lines(name@),
{
    let mut lines: Vec<String> = Vec::new();
    lines.push(concat3("Usage: ", name, " [-h] [-n name] [-s shell] optstring [args ...]"));
    lines.push(concat3("  -n name   report errors as 'name' (default '", name, "')"));
    lines.push("  -s shell  use quoting conventions for shell (default 'sh')".to_owned());
    lines.push(String::new());
    lines.push("  -h        display this help".to_owned());
    assert(lines_view(lines@) =~= usage_lines(name@));
    lines
}

/// Joins words with single spaces.
pub fn join_words(words: &Vec<String>) -> (r: String)
    ensures
        r@ == joined(lines_view(words@)),
{
    let mut line = String::new();
    let mut i: usize = 0;
    while i < words.len()
        invariant
            i <= words@.len(),
            line@ == joined(lines_view(words@).take(i as int)),
        decreases words@.len() - i,
    {
        let ghost w = lines_view(words@);
        assert(w.take(i + 1).drop_last() =~= w.take(i as int));
        if i > 0 {
            push_char(&mut line, ' ');
        }
        line = line.concat(words[i].as_str());
        i = i + 1;
    }
    assert(lines_view(words@).take(i as int) =~= lines_view(words@));
    line
}

/// The output line for parsed options `found` and the arguments from `start` on: the
/// options, `--`, then the arguments, each quoted for `shell`.
pub fn quote_line(found: &Vec<Opt>, args: &[String], start: usize, shell: ShellKind) -> (r: String)
    requires
        start <= args@.len(),
    ensures
        r@ == joined(
            option_words(opts_view(found@), shell) + seq![seq!['-', '-']] + quoted_words(
                args_view(args@).subrange(start as int, args@.len() as int),
                shell,
            ),
        ),
{
    let mut parsed: Vec<String> = Vec::new();
    let mut j: usize = 0;
    while j < found.len()
        invariant
            j <= found@.len(),
            lines_view(parsed@) == option_words(opts_view(found@).take(j as int), shell),
        decreases found@.len() - j,
    {
        let ghost before = lines_view(parsed@);
        let o = &found[j];
        let ghost ov = opts_view(found@);
        assert(ov.take(j + 1).drop_last() =~= ov.take(j as int));
        assert(ov.take(j + 1).last() == o@);
        let mut flag = String::new();
        push_char(&mut flag, '-');
        push_char(&mut flag, o.0);
        assert(flag@ =~= seq!['-', o.0]);
        parsed.push(flag);
        assert(lines_view(parsed@) =~= before + seq![seq!['-', o.0]]);
        match &o.1 {
            Some(v) => {
                let q = quote_for_shell(v.as_str(), &shell);
                let ghost mid = lines_view(parsed@);
                parsed.push(q);
                assert(lines_view(parsed@) =~= mid + seq![quoted(shell, v@)]);
            },
            None => {},
        }
        assert(lines_view(parsed@) =~= option_words(ov.take(j + 1), shell));
        j = j + 1;
    }
    assert(opts_view(found@).take(j as int) =~= opts_view(found@));
    let ghost options = lines_view(parsed@);
    let mut dashes = String::new();
    push_char(&mut dashes, '-');
    push_char(&mut dashes, '-');
    assert(dashes@ =~= seq!['-', '-']);
    parsed.push(dashes);
    let ghost head = lines_view(parsed@);
    assert(head =~= options + seq![seq!['-', '-']]);
    assert(args_view(args@).subrange(start as int, start as int) =~= Seq::empty());
    assert(lines_view(parsed@) =~= head + quoted_words(
        args_view(args@).subrange(start as int, start as int),
        shell,
    ));
    let mut k: usize = start;
    while k < args.len()
        invariant
            start <= k <= args@.len(),
            lines_view(parsed@) == head + quoted_words(
                args_view(args@).subrange(start as int, k as int),
                shell,
            ),
        decreases args@.len() - k,
    {
        let ghost prev = lines_view(parsed@);
        let q = quote_for_shell(args[k].as_str(), &shell);
        parsed.push(q);
        assert(lines_view(parsed@) =~= prev.push(q@));
        assert(quoted_words(args_view(args@).subrange(start as int, k + 1), shell) =~= quoted_words(
            args_view(args@).subrange(start as int, k as int),
            shell,
        ).push(quoted(shell, args@[k as int]@)));
        assert(lines_view(parsed@) =~= head + quoted_words(
            args_view(args@).subrange(start as int, k + 1),
            shell,
        ));
        k = k + 1;
    }
    join_words(&parsed)
}

/// A run of the option-quoting program called `name` on `args` (the program's name first):
/// the lines it prints and how it ends. See [`run_spec`].
pub fn program(name: &str, args: &[String]) -> (r: (Vec<String>, Result))
    ensures
        lines_view(r.0@) == run_spec(name@, args_view(args@)).0,
        r.1@ == run_spec(name@, args_view(args@)).1,
{
    let mut own = Parser::new(args, "hn:s:");
    let ghost start = own@;
    let (own_opts, own_err) = own.read_options();
    let ghost found = opts_view(own_opts@);
    assert(found.skip(0) =~= found);
    let mut child_name = name.to_owned();
    let mut shell = ShellKind::Bourne;
    let mut i: usize = 0;
    while i < own_opts.len()
        invariant
            i <= own_opts@.len(),
            found == opts_view(own_opts@),
            found == scan(start).0,
            start == (ParserState {
                args: args_view(args@),
                opts: optstring_map("hn:s:"@),
                index: 1,
                point: 0,
            }),
            settle(found, name@, ShellKind::Bourne) == settle(found.skip(i as int), child_name@, shell),
        decreases own_opts@.len() - i,
    {
        let o = &own_opts[i];
        assert(found.skip(i as int).drop_first() =~= found.skip(i + 1));
        assert(found.skip(i as int)[0] == o@);
        match &o.1 {
            None => {
                if o.0 == 'h' {
                    return (usage(name), Result::Exit(0));
                }
            },
            Some(v) => {
                if o.0 == 'n' {
                    child_name = v.clone();
                } else if o.0 == 's' {
                    let x = normalize_shell_name(v.as_str());
                    match shell_kind_for(x.as_str()) {
                        Some(k) => {
                            shell = k;
                        },
                        None => {
                            return (
                                Vec::new(),
                                Result::Internal(concat3(name, ": unknown shell type: ", x.as_str())),
                            );
                        },
                    }
                }
            },
        }
        i = i + 1;
    }
    assert(found.skip(i as int) =~= Seq::empty());
    match own_err {
        Some(e) => {
            let message = e.to_string();
            return (Vec::new(), Result::Internal(concat3(name, ": ", message.as_str())));
        },
        None => {},
    }
    let index = own.index();
    if index >= args.len() {
        return (Vec::new(), Result::Internal(name.to_owned().concat(": missing optstring argument")));
    }
    assert(args_view(args@).len() == args@.len());
    let mut opts = Parser::new(args, args[index].as_str());
    opts.set_index(index + 1);
    let (parsed, err) = opts.read_options();
    match err {
        Some(e) => {
            let message = e.to_string();
            return (
                Vec::new(),
                Result::External(concat3(child_name.as_str(), ": ", message.as_str())),
            );
        },
        None => {},
    }
    let line = quote_line(&parsed, args, opts.index(), shell);
    let mut lines: Vec<String> = Vec::new();
    lines.push(line);
    assert(lines_view(lines@) =~= seq![line@]);
    (lines, Result::Exit(0))
}

} // verus!
