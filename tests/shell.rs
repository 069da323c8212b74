use getopt::shell::{quote_for_shell, ShellKind};

#[test]
fn quote_bourne() {
    assert_eq!(quote_for_shell("a b", &ShellKind::Bourne), "'a b'");
    assert_eq!(quote_for_shell("it's", &ShellKind::Bourne), "'it'\\''s'");
    assert_eq!(quote_for_shell("", &ShellKind::Bourne), "''");
}

#[test]
fn quote_c_shell() {
    assert_eq!(quote_for_shell("a b", &ShellKind::C), "'a'\\ 'b'");
    assert_eq!(quote_for_shell("x'y", &ShellKind::C), "'x'\\''y'");
}

#[test]
fn quote_fish() {
    assert_eq!(quote_for_shell("a\\b'c", &ShellKind::Fish), "'a\\\\b\\'c'");
    assert_eq!(quote_for_shell("a b", &ShellKind::Fish), "'a b'");
}

#[test]
fn quote_rc() {
    assert_eq!(quote_for_shell("it's", &ShellKind::Rc), "'it''s'");
    assert_eq!(quote_for_shell("a\\b", &ShellKind::Rc), "'a\\b'");
}
