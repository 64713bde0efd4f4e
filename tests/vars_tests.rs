use yaggy::command::{from_line, Command, CmdVars, VarsMode};
use yaggy::line::ParsedLine;

fn vars(args: &str) -> CmdVars {
    CmdVars::new_vars(0, 6, &ParsedLine::new("", "VARS", "", args))
}

#[test]
fn vars_and_secrets_constructors() {
    let p = ParsedLine::new("", "SECRETS", "", "s.yml");
    let s = CmdVars::new_secrets(1, 2, &p);
    assert_eq!(s.mode, VarsMode::Secrets);
    assert_eq!(s.args, "s.yml");
    match from_line(0, 1, "VARS v.yml").unwrap() {
        Command::Vars(v) => assert_eq!(v.mode, VarsMode::Vars),
        _ => panic!("expected VARS"),
    }
}

#[test]
fn existing_vars_file_is_accepted() {
    assert!(vars("'unbalanced").check_args(true).is_ok());
}

#[test]
fn unbalanced_quote_is_a_syntax_error() {
    let e = vars("cat 'unbalanced").check_args(false).unwrap_err();
    assert_eq!(e.line, 6);
    assert_eq!(e.message, "Invalid syntax in shell command: \"cat 'unbalanced\"");
}

#[test]
fn comment_only_shell_command_has_no_executable() {
    let e = vars("# nothing").check_args(false).unwrap_err();
    assert_eq!(e.message, "Missing executable in shell command: \"# nothing\"");
}

#[test]
fn missing_executable_is_a_syntax_error() {
    let e = vars("no-such-program-here --flag").check_args(false).unwrap_err();
    assert_eq!(
        e.message,
        "cannot find binary path for shell command: \"no-such-program-here --flag\""
    );
}

#[test]
fn lookup_verdict_states_the_reason() {
    let v = vars("tool x");
    assert!(v.lookup_verdict(Ok(())).is_ok());
    let e = v.lookup_verdict(Err("not here".to_string())).unwrap_err();
    assert_eq!(e.message, "not here for shell command: \"tool x\"");
}

#[test]
fn executable_word_is_the_first_shell_word() {
    assert_eq!(vars("'my tool' --flag x").executable_word().unwrap(), "my tool");
    assert_eq!(vars("env A=1").executable_word().unwrap(), "env");
    let e = vars("\"open").executable_word().unwrap_err();
    assert_eq!(e.message, "Invalid syntax in shell command: \"\"open\"");
}
