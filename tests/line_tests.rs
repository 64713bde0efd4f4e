use yaggy::command::{from_line, validate_command, Cmd, Command, CommandBuilder};
use yaggy::error::ErrorKind;
use yaggy::line::{parse, ParsedLine};
use yaggy::text::{decimal, strip_continuation, trim_text};

#[test]
fn parse_all_four_fields() {
    let p = parse("@ref RUN @back echo  hello world").unwrap();
    assert_eq!(p.reference, "@ref");
    assert_eq!(p.command, "RUN");
    assert_eq!(p.back_reference, "@back");
    assert_eq!(p.args, "echo  hello world");
}

#[test]
fn parse_collapses_blanks_and_tabs() {
    let p = parse(" \t FAILED?\t\t@r1   cleanup now").unwrap();
    assert_eq!(p.reference, "");
    assert_eq!(p.command, "FAILED?");
    assert_eq!(p.back_reference, "@r1");
    assert_eq!(p.args, "cleanup now");
}

#[test]
fn parse_keyword_only() {
    let p = parse("SYNC").unwrap();
    assert_eq!(p.command, "SYNC");
    assert!(!p.has_reference());
    assert!(!p.has_back_reference());
    assert!(!p.has_args());
}

#[test]
fn parse_sigil_in_args_without_back_reference_is_a_back_reference() {
    let p = parse("ECHO @x y").unwrap();
    assert_eq!(p.back_reference, "@x");
    assert_eq!(p.args, "y");
}

#[test]
fn parse_empty_line_fails() {
    let e = parse("").unwrap_err();
    assert_eq!(e.message, "missing command in line");
}

#[test]
fn parse_blank_line_fails() {
    let e = parse("   ").unwrap_err();
    assert_eq!(e.message, "missing command in line");
}

#[test]
fn parse_reference_alone_fails() {
    assert!(parse("@only   ").is_err());
}

#[test]
fn parse_then_display_round_trips() {
    for line in [
        "@ref RUN @back args here",
        "ECHO hello",
        "@r LRUN! make  all",
        "SUCCEED? @r1 next",
        "  DISCONNECT  ",
        "RECONNECT? @a",
    ] {
        let p = parse(line).unwrap();
        let shown = p.display();
        let q = parse(&shown).unwrap();
        assert_eq!(p.reference, q.reference);
        assert_eq!(p.command, q.command);
        assert_eq!(p.back_reference, q.back_reference);
        assert_eq!(p.args, q.args);
    }
}

#[test]
fn display_renders_blank_segments() {
    let p = parse("ECHO hi").unwrap();
    assert_eq!(p.display(), " ECHO  hi");
    let p = parse("@a RUN @b x").unwrap();
    assert_eq!(p.display(), "@a RUN @b x");
}

#[test]
fn parsed_line_new_and_rules() {
    let p = ParsedLine::new("@r", "RUN", "", "ls");
    assert!(p.has_reference());
    assert!(p.has_no_back_reference().is_ok());
    assert!(p.require_args().is_ok());
    assert_eq!(p.has_no_reference().unwrap_err().message, "Reference is not allowed for this command");
    assert_eq!(p.has_no_args().unwrap_err().message, "This command does not expect any arguments");
    let q = ParsedLine::new("", "SUCCEED?", "", "");
    assert_eq!(
        q.require_back_reference().unwrap_err().message,
        "This command requires back reference to be specified"
    );
    assert_eq!(q.require_args().unwrap_err().message, "This command requires some arguments");
    let b = ParsedLine::new("", "ECHO", "@b", "x");
    assert_eq!(b.has_no_back_reference().unwrap_err().message, "Back reference is not allowed for this command");
}

#[test]
fn connect_with_args_fails_validation() {
    let e = from_line(0, 3, "CONNECT extra args").unwrap_err();
    assert_eq!(e.kind, ErrorKind::Syntax);
    assert_eq!(e.line, 3);
    assert_eq!(e.message, "This command does not expect any arguments");
}

#[test]
fn echo_without_args_fails_validation() {
    let e = from_line(0, 1, "ECHO").unwrap_err();
    assert_eq!(e.message, "This command requires some arguments");
}

#[test]
fn succeed_without_back_reference_fails_validation() {
    let e = from_line(0, 1, "SUCCEED? do it").unwrap_err();
    assert_eq!(e.message, "This command requires back reference to be specified");
}

#[test]
fn reference_on_echo_fails_validation() {
    let e = from_line(0, 1, "@r ECHO hi").unwrap_err();
    assert_eq!(e.message, "Reference is not allowed for this command");
}

#[test]
fn back_reference_on_run_fails_validation() {
    let e = from_line(0, 1, "RUN @r ls").unwrap_err();
    assert_eq!(e.message, "Back reference is not allowed for this command");
}

#[test]
fn unknown_keyword_fails() {
    let e = from_line(2, 9, "run ls").unwrap_err();
    assert_eq!(e.kind, ErrorKind::Syntax);
    assert_eq!(e.file, 2);
    assert_eq!(e.line, 9);
    assert_eq!(e.message, "Unknown scenario command: \"run ls\"");
}

#[test]
fn blank_logical_line_is_a_missing_command() {
    let e = from_line(0, 4, "  ").unwrap_err();
    assert_eq!(e.message, "missing command in line");
}

#[test]
fn every_keyword_builds_its_variant() {
    let cases = [
        ("CONNECT", Cmd::Connect),
        ("DISCONNECT", Cmd::Disconnect),
        ("RECONNECT host", Cmd::Reconnect),
        ("RECONNECT? @a host", Cmd::ReconnectIf),
        ("ECHO hi", Cmd::Echo),
        ("FETCH a b", Cmd::Fetch),
        ("INCLUDE b.yg", Cmd::Include),
        ("SYNC", Cmd::Sync),
        ("TAG t", Cmd::Tag),
        ("UNTAG t", Cmd::Untag),
        ("@r RUN ls", Cmd::Run),
        ("RUN! ls", Cmd::RunExclamation),
        ("LRUN ls", Cmd::LRun),
        ("LRUN! ls", Cmd::LRunExclamation),
        ("SUCCEED? @r ls", Cmd::Succeed),
        ("LSUCCEED? @r ls", Cmd::LSucceed),
        ("FAILED? @r ls", Cmd::Failed),
        ("LFAILED? @r ls", Cmd::LFailed),
        ("VARS vars.yml", Cmd::Vars),
        ("SECRETS secrets.yml", Cmd::Secrets),
    ];
    for (text, cmd) in cases {
        let c = from_line(1, 7, text).unwrap();
        assert_eq!(c.cmd(), cmd);
        assert_eq!(c.file(), 1);
        assert_eq!(c.line_num(), 7);
        assert_eq!(Cmd::from_keyword(cmd.keyword()), Some(cmd));
    }
}

#[test]
fn keyword_flags() {
    assert!(Cmd::LRun.is_local());
    assert!(!Cmd::Run.is_local());
    assert!(Cmd::RunExclamation.can_fail());
    assert!(!Cmd::LFailed.can_fail());
    assert!(Cmd::LFailed.is_conditional());
    assert!(!Cmd::Tag.is_conditional());
    assert_eq!(Cmd::Failed.condition(), Some(yaggy::command::RunIf::Failed));
    assert_eq!(Cmd::LSucceed.condition(), Some(yaggy::command::RunIf::Succeed));
    assert_eq!(Cmd::Echo.condition(), None);
    assert_eq!(Cmd::from_keyword("run"), None);
}

#[test]
fn command_fields_and_display() {
    let c = from_line(0, 1, "@r1 LRUN! make  all").unwrap();
    match &c {
        Command::Run(r) => {
            assert_eq!(r.mode, yaggy::command::Mode::Local);
            assert!(r.can_fail);
            assert_eq!(r.reference, "@r1");
        }
        _ => panic!("expected a run"),
    }
    assert_eq!(c.reference(), "@r1");
    assert_eq!(c.args(), "make  all");
    assert_eq!(c.display(), "@r1 LRUN!  make  all");
    let i = from_line(0, 2, "INCLUDE b.yg").unwrap();
    assert!(i.is_include());
    assert_eq!(i.display(), " INCLUDE  b.yg");
    let f = from_line(0, 3, "FAILED? @r1 cleanup").unwrap();
    assert_eq!(f.back_reference(), "@r1");
    assert_eq!(f.display(), " FAILED? @r1 cleanup");
}

#[test]
fn builder_from_parsed_line() {
    let p = ParsedLine::new("", "TAG", "", "web");
    let c = CommandBuilder::from_parsed_line(p, 4, 5).unwrap();
    assert_eq!(c.cmd(), Cmd::Tag);
    assert_eq!(c.args(), "web");
    let q = ParsedLine::new("", "NOPE", "", "");
    let e = CommandBuilder::from_parsed_line(q, 4, 5).unwrap_err();
    assert_eq!(e.message, "Unknown scenario command: \"NOPE\"");
}

#[test]
fn trimming_and_continuation_markers() {
    assert_eq!(trim_text("  \t ECHO a b \r"), "ECHO a b");
    assert_eq!(trim_text("\u{a0}x\u{3000}"), "x");
    assert_eq!(trim_text("   "), "");
    assert_eq!(strip_continuation("RUN a \\\\"), "RUN a ");
    assert_eq!(strip_continuation("RUN a"), "RUN a");
}

#[test]
fn builder_classifies_without_checking_rules() {
    let p = ParsedLine::new("@r", "ECHO", "@b", "");
    let c = CommandBuilder::from_parsed_line(p, 0, 8).unwrap();
    assert_eq!(c.cmd(), Cmd::Echo);
    assert_eq!(c.reference(), "@r");
    assert_eq!(c.back_reference(), "@b");
    assert_eq!(c.args(), "");
    let e = validate_command(&c).unwrap_err();
    assert_eq!(e.line, 8);
    assert_eq!(e.message, "Reference is not allowed for this command");
    let ok = CommandBuilder::from_parsed_line(ParsedLine::new("", "ECHO", "", "hi"), 0, 1).unwrap();
    assert!(validate_command(&ok).is_ok());
}

#[test]
fn unknown_keyword_quotes_the_whole_line() {
    let e = from_line(0, 1, "FOO bar").unwrap_err();
    assert_eq!(e.message, "Unknown scenario command: \"FOO bar\"");
}

#[test]
fn decimal_numerals() {
    assert_eq!(decimal(0), "0");
    assert_eq!(decimal(7), "7");
    assert_eq!(decimal(10), "10");
    assert_eq!(decimal(4096), "4096");
    assert_eq!(decimal(u32::MAX), "4294967295");
}
