use getopt::optspec::OptionSpec;
use getopt::{Error, ErrorKind, Opt, Parser};

fn strings(v: &[&str]) -> Vec<String> {
    v.iter().map(|s| s.to_string()).collect()
}

fn first_step(
    expect: Option<Opt>,
    next: Option<&str>,
    args: &[&str],
    optstring: &str,
) -> Result<(), String> {
    let args = strings(args);
    let mut opts = Parser::new(&args, optstring);

    match opts.next().transpose() {
        Err(error) => return Err(format!("next() returned {:?}", error)),
        Ok(actual) => {
            if actual != expect {
                return Err(format!("expected {:?}; got {:?}", expect, actual));
            }
        },
    };

    match next {
        None => {
            if opts.index() < args.len() {
                return Err(format!("expected end of args; got {:?}", args[opts.index()]));
            }
        },
        Some(n) => {
            if args[opts.index()] != n {
                return Err(format!("next arg: expected {:?}; got {:?}", n, args[opts.index()]));
            }
        },
    };
    Ok(())
}

fn first_error(expect: &str, args: &[&str], optstring: &str) -> Result<(), String> {
    let args = strings(args);
    let mut opts = Parser::new(&args, optstring);
    match opts.next() {
        None => Err("unexpected successful response: end of options".to_string()),
        Some(Err(actual)) => {
            let actual = actual.to_string();
            if actual != expect {
                return Err(format!("expected {:?}; got {:?}", expect, actual));
            }
            Ok(())
        },
        Some(Ok(opt)) => Err(format!("unexpected successful response: {:?}", opt)),
    }
}

#[test]
fn multiple() -> Result<(), String> {
    let args: Vec<String> = vec!["x", "-abc", "-d", "foo", "-e", "bar"]
        .into_iter()
        .map(String::from)
        .collect();
    let optstring = "ab:d:e".to_string();
    let mut opts = Parser::new(&args, &optstring);

    let expected = vec![
        Some(Opt('a', None)),
        Some(Opt('b', Some("c".to_string()))),
        Some(Opt('d', Some("foo".to_string()))),
        Some(Opt('e', None)),
        None,
    ];
    for expect in expected {
        match opts.next().transpose() {
            Err(error) => return Err(format!("next() returned {:?}", error)),
            Ok(actual) => {
                if actual != expect {
                    return Err(format!("expected {:?}; got {:?}", expect, actual));
                }
            },
        };
    }

    Ok(())
}

#[test]
fn continue_after_error() {
    let args: Vec<String> = vec!["x", "-z", "-abc"]
        .into_iter()
        .map(String::from)
        .collect();
    let optstring = "ab:d:e".to_string();
    let mut opts = Parser::new(&args, &optstring);
    while let Some(_opt) = opts.next() {
        // do nothing, should not panic
    }
}

#[test]
fn blank_arg() -> Result<(), String> {
    first_step(None, Some(""), &["x", ""], "a")
}

#[test]
fn double_dash() -> Result<(), String> {
    first_step(None, Some("-a"), &["x", "--", "-a", "foo"], "a")
}

#[test]
fn no_opts_1() -> Result<(), String> {
    first_step(None, None, &["x"], "a")
}

#[test]
fn no_opts_2() -> Result<(), String> {
    first_step(None, Some("foo"), &["x", "foo"], "a")
}

#[test]
fn no_opts_3() -> Result<(), String> {
    first_step(None, Some("foo"), &["x", "foo", "-a"], "a")
}

#[test]
fn single_dash() -> Result<(), String> {
    first_step(None, Some("-"), &["x", "-", "-a", "foo"], "a")
}

#[test]
fn single_opt() -> Result<(), String> {
    first_step(Some(Opt('a', None)), Some("foo"), &["x", "-a", "foo"], "a")
}

#[test]
fn single_optarg() -> Result<(), String> {
    first_step(Some(Opt('a', Some("foo".to_string()))), None, &["x", "-a", "foo"], "a:")
}

#[test]
fn bad_opt() -> Result<(), String> {
    first_error("unknown option -- 'b'", &["x", "-b"], "a")
}

#[test]
fn missing_optarg() -> Result<(), String> {
    first_error("option requires an argument -- 'a'", &["x", "-a"], "a:")
}

#[test]
fn end_of_options_keeps_index() {
    for tok in ["", "-", "foo"] {
        let args = strings(&["prog", tok, "-a"]);
        let mut opts = Parser::new(&args, "a");
        assert_eq!(opts.next(), None);
        assert_eq!(opts.index(), 1);
    }
}

#[test]
fn terminator_advances_index_by_one() {
    let args = strings(&["prog", "--", "-a"]);
    let mut opts = Parser::new(&args, "a");
    assert_eq!(opts.next(), None);
    assert_eq!(opts.index(), 2);
    assert_eq!(opts.next(), Some(Ok(Opt('a', None))));
}

#[test]
fn unknown_option_then_continues() {
    let args = strings(&["prog", "-zb", "-a"]);
    let mut opts = Parser::new(&args, "ab");
    assert_eq!(opts.next(), Some(Err(Error::new(ErrorKind::UnknownOption, 'z'))));
    assert_eq!(opts.index(), 1);
    assert_eq!(opts.next(), Some(Ok(Opt('b', None))));
    assert_eq!(opts.index(), 2);
    assert_eq!(opts.next(), Some(Ok(Opt('a', None))));
    assert_eq!(opts.index(), 3);
    assert_eq!(opts.next(), None);
}

#[test]
fn argument_from_next_token_or_missing() {
    let args = strings(&["prog", "-a", "-b x", "rest"]);
    let mut opts = Parser::new(&args, "a:b");
    assert_eq!(opts.next(), Some(Ok(Opt('a', Some("-b x".to_string())))));
    assert_eq!(opts.index(), 3);

    let args = strings(&["prog", "-ba"]);
    let mut opts = Parser::new(&args, "a:b");
    assert_eq!(opts.next(), Some(Ok(Opt('b', None))));
    let err = opts.next().unwrap().unwrap_err();
    assert_eq!(err.kind(), ErrorKind::MissingArgument);
    assert_eq!(err.culprit(), 'a');
    assert_eq!(opts.index(), 2);
    assert_eq!(opts.next(), None);
}

#[test]
fn bundled_options_decompose() {
    let args = strings(&["prog", "-abc", "foo"]);
    let mut opts = Parser::new(&args, "ab:c");
    assert_eq!(opts.next(), Some(Ok(Opt('a', None))));
    assert_eq!(opts.index(), 1);
    assert_eq!(opts.next(), Some(Ok(Opt('b', Some("c".to_string())))));
    assert_eq!(opts.index(), 2);
    assert_eq!(opts.next(), None);
    assert_eq!(opts.index(), 2);
    assert_eq!(args[opts.index()], "foo");
}

#[test]
fn end_of_options_is_stable() {
    let args = strings(&["prog", "-a", "bar"]);
    let mut opts = Parser::new(&args, "a");
    assert_eq!(opts.next(), Some(Ok(Opt('a', None))));
    for _ in 0..3 {
        assert_eq!(opts.next(), None);
        assert_eq!(opts.index(), 2);
    }
}

#[test]
fn scenario_missing_argument() {
    let args = strings(&["prog", "-a"]);
    let mut opts = Parser::new(&args, "a:");
    assert_eq!(opts.next(), Some(Err(Error::new(ErrorKind::MissingArgument, 'a'))));
}

#[test]
fn scenario_unknown_option() {
    let args = strings(&["prog", "-b"]);
    let mut opts = Parser::new(&args, "a");
    assert_eq!(opts.next(), Some(Err(Error::new(ErrorKind::UnknownOption, 'b'))));
}

#[test]
fn scenario_sequence_ends_at_bar() {
    let args = strings(&["prog", "-abc", "-d", "foo", "-e", "bar"]);
    let mut opts = Parser::new(&args, "ab:d:e");
    assert_eq!(opts.next(), Some(Ok(Opt('a', None))));
    assert_eq!(opts.next(), Some(Ok(Opt('b', Some("c".to_string())))));
    assert_eq!(opts.next(), Some(Ok(Opt('d', Some("foo".to_string())))));
    assert_eq!(opts.next(), Some(Ok(Opt('e', None))));
    assert_eq!(opts.next(), None);
    assert_eq!(args[opts.index()], "bar");
}

#[test]
fn set_index_restarts_scan() {
    let args = strings(&["prog", "-a", "opts", "-xy", "v", "tail"]);
    let mut opts = Parser::new(&args, "a");
    assert_eq!(opts.next(), Some(Ok(Opt('a', None))));
    assert_eq!(opts.next(), None);
    assert_eq!(opts.index(), 2);

    let mut inner = Parser::new(&args, "xy:");
    inner.set_index(3);
    assert_eq!(inner.index(), 3);
    assert_eq!(inner.next(), Some(Ok(Opt('x', None))));
    assert_eq!(inner.next(), Some(Ok(Opt('y', Some("v".to_string())))));
    assert_eq!(inner.next(), None);
    assert_eq!(args[inner.index()], "tail");

    inner.set_index(1);
    assert_eq!(inner.next(), Some(Err(Error::new(ErrorKind::UnknownOption, 'a'))));
    assert_eq!(inner.index(), 2);
}

#[test]
fn incr_index_skips_an_argument() {
    let args = strings(&["prog", "skipped", "-a"]);
    let mut opts = Parser::new(&args, "a");
    opts.incr_index();
    assert_eq!(opts.index(), 2);
    assert_eq!(opts.next(), Some(Ok(Opt('a', None))));
}

#[test]
fn index_past_the_end() {
    let args = strings(&["prog"]);
    let mut opts = Parser::new(&args, "a");
    opts.set_index(7);
    assert_eq!(opts.next(), None);
    assert_eq!(opts.index(), 7);
}

#[test]
fn option_spec_lookup() {
    let spec = OptionSpec::parse("ab:c::a:");
    assert_eq!(spec.lookup('a'), Some(true));
    assert_eq!(spec.lookup('b'), Some(true));
    assert_eq!(spec.lookup('c'), Some(true));
    assert_eq!(spec.lookup(':'), Some(false));
    assert_eq!(spec.lookup('d'), None);
    let empty = OptionSpec::parse("");
    assert_eq!(empty.lookup('a'), None);
    let trailing = OptionSpec::parse(":");
    assert_eq!(trailing.lookup(':'), Some(false));
}

#[test]
fn error_messages() {
    assert_eq!(Error::new(ErrorKind::UnknownOption, 'q').to_string(), "unknown option -- 'q'");
    assert_eq!(
        Error::new(ErrorKind::MissingArgument, '\'').to_string(),
        "option requires an argument -- '\\''"
    );
    let e = Error::new(ErrorKind::UnknownOption, 'q');
    assert_eq!(e.message_with("<q>"), "unknown option -- <q>");
    assert_eq!(e.kind(), ErrorKind::UnknownOption);
}
