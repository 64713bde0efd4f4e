use yaggy::command::{Cmd, Command};
use yaggy::error::{ErrorKind, ScenarioError};
use yaggy::resolver::{Decision, Flow, Outcome, ReferenceResolver};
use yaggy::scenario::{Composer, Request, Scenario, MAX_INCLUDE_DEPTH};

fn parent_dir(path: &str) -> &str {
    match path.rfind('/') {
        Some(i) => &path[..i],
        None => "",
    }
}

/// Drives a composer over in-memory files, as a program would over a disk.
fn compose(files: &[(&str, &str)], root: &str) -> Scenario {
    let mut c = Composer::new(root.to_string());
    loop {
        match c.next_request() {
            Request::Done => break,
            Request::Resolve { base, target } => {
                let path = format!("{}/{}", parent_dir(&base), target);
                if files.iter().any(|(p, _)| *p == path) {
                    c.resolved(Ok(path));
                } else {
                    c.resolved(Err(format!("No such file: {}", path)));
                }
            }
            Request::Read { path } => match files.iter().find(|(p, _)| *p == path) {
                Some((_, text)) => c.loaded(Ok(text.split('\n').map(|l| l.to_string()).collect())),
                None => c.loaded(Err("No such file or directory".to_string())),
            },
        }
    }
    c.finish()
}

fn ok_display(s: &Scenario, i: usize) -> String {
    match &s.commands()[i] {
        Ok(c) => c.display(),
        Err(e) => panic!("unexpected error {:?}", e),
    }
}

fn err_at(s: &Scenario, i: usize) -> &ScenarioError {
    match &s.commands()[i] {
        Ok(c) => panic!("unexpected command {:?}", c),
        Err(e) => e,
    }
}

#[test]
fn include_is_inlined_depth_first() {
    let s = compose(
        &[("/s/a.yg", "INCLUDE b.yg\nECHO after\n"), ("/s/b.yg", "ECHO inside\n")],
        "/s/a.yg",
    );
    assert_eq!(s.commands().len(), 3);
    assert_eq!(ok_display(&s, 0), " INCLUDE  b.yg");
    assert_eq!(ok_display(&s, 1), " ECHO  inside");
    assert_eq!(ok_display(&s, 2), " ECHO  after");
    let files: Vec<&str> = s
        .commands()
        .iter()
        .map(|e| s.file_name(e.as_ref().unwrap().file()))
        .collect();
    assert_eq!(files, vec!["/s/a.yg", "/s/b.yg", "/s/a.yg"]);
    let lines: Vec<u32> = s.commands().iter().map(|e| e.as_ref().unwrap().line_num()).collect();
    assert_eq!(lines, vec![1, 1, 2]);
    assert!(s.validate().is_ok());
}

#[test]
fn blank_and_comment_lines_emit_nothing() {
    let s = compose(&[("/s/a.yg", "\n   \n# a comment\n  # another\nSYNC\n\n")], "/s/a.yg");
    assert_eq!(s.commands().len(), 1);
    let c = s.commands()[0].as_ref().unwrap();
    assert_eq!(c.cmd(), Cmd::Sync);
    assert_eq!(c.line_num(), 5);
}

#[test]
fn multiline_command_is_joined() {
    let s = compose(&[("/s/a.yg", "RUN echo \\\n   one \\\n# skipped\n two\nSYNC")], "/s/a.yg");
    assert_eq!(s.commands().len(), 2);
    let c = s.commands()[0].as_ref().unwrap();
    assert_eq!(c.args(), "echo one two");
    assert_eq!(c.line_num(), 4);
}

#[test]
fn continuation_at_end_of_file_is_one_error() {
    let s = compose(&[("/s/a.yg", "ECHO first\nRUN do \\\n  more \\")], "/s/a.yg");
    assert_eq!(s.commands().len(), 2);
    assert_eq!(ok_display(&s, 0), " ECHO  first");
    let e = err_at(&s, 1);
    assert_eq!(e.kind, ErrorKind::Syntax);
    assert_eq!(e.line, 3);
    assert_eq!(e.message, "Incomplete multiline command");
    assert_eq!(s.validate().unwrap_err().message, "Incomplete multiline command");
}

#[test]
fn errors_do_not_stop_composition() {
    let s = compose(&[("/s/a.yg", "CONNECT now\nECHO\nBOGUS x\nECHO ok")], "/s/a.yg");
    assert_eq!(s.commands().len(), 4);
    assert_eq!(err_at(&s, 0).line, 1);
    assert_eq!(err_at(&s, 1).line, 2);
    assert_eq!(err_at(&s, 2).message, "Unknown scenario command: \"BOGUS x\"");
    assert_eq!(ok_display(&s, 3), " ECHO  ok");
    assert_eq!(s.validate().unwrap_err().line, 1);
}

#[test]
fn mutual_includes_stop_with_an_error() {
    let s = compose(
        &[("/s/a.yg", "INCLUDE b.yg\nECHO a"), ("/s/b.yg", "INCLUDE a.yg\nECHO b")],
        "/s/a.yg",
    );
    assert_eq!(s.commands().len(), 5);
    assert_eq!(ok_display(&s, 0), " INCLUDE  b.yg");
    assert_eq!(ok_display(&s, 1), " INCLUDE  a.yg");
    let e = err_at(&s, 2);
    assert_eq!(e.kind, ErrorKind::Include);
    assert_eq!(s.file_name(e.file), "/s/b.yg");
    assert_eq!(e.line, 1);
    assert_eq!(e.message, "Recursive INCLUDE of \"/s/a.yg\"");
    assert_eq!(ok_display(&s, 3), " ECHO  b");
    assert_eq!(ok_display(&s, 4), " ECHO  a");
}

#[test]
fn self_include_stops_with_an_error() {
    let s = compose(&[("/s/a.yg", "INCLUDE a.yg")], "/s/a.yg");
    assert_eq!(s.commands().len(), 2);
    assert_eq!(err_at(&s, 1).kind, ErrorKind::Include);
}

#[test]
fn same_file_included_twice_in_sequence_is_composed_twice() {
    let s = compose(
        &[("/s/a.yg", "INCLUDE b.yg\nINCLUDE b.yg"), ("/s/b.yg", "TAG x")],
        "/s/a.yg",
    );
    assert_eq!(s.commands().len(), 4);
    assert!(s.validate().is_ok());
    assert_eq!(s.file_count(), 2);
}

#[test]
fn deep_include_chain_is_cut_at_the_limit() {
    let mut files: Vec<(String, String)> = Vec::new();
    for i in 0..(MAX_INCLUDE_DEPTH + 5) {
        files.push((format!("/d/f{}.yg", i), format!("INCLUDE f{}.yg", i + 1)));
    }
    files.push((format!("/d/f{}.yg", MAX_INCLUDE_DEPTH + 5), "ECHO end".to_string()));
    let refs: Vec<(&str, &str)> = files.iter().map(|(a, b)| (a.as_str(), b.as_str())).collect();
    let s = compose(&refs, "/d/f0.yg");
    let errors: Vec<&ScenarioError> = s.commands().iter().filter_map(|e| e.as_ref().err()).collect();
    assert_eq!(errors.len(), 1);
    assert_eq!(errors[0].message, "INCLUDE nested too deeply");
    assert_eq!(s.commands().len(), MAX_INCLUDE_DEPTH + 1);
}

#[test]
fn unresolved_include_is_an_error_after_the_include() {
    let s = compose(&[("/s/a.yg", "INCLUDE missing.yg\nECHO after")], "/s/a.yg");
    assert_eq!(s.commands().len(), 3);
    assert!(s.commands()[0].as_ref().unwrap().is_include());
    let e = err_at(&s, 1);
    assert_eq!(e.kind, ErrorKind::Include);
    assert_eq!(e.line, 1);
    assert_eq!(e.message, "No such file: /s/missing.yg");
    assert_eq!(ok_display(&s, 2), " ECHO  after");
}

#[test]
fn unreadable_root_is_an_io_error() {
    let s = compose(&[], "/s/none.yg");
    assert_eq!(s.commands().len(), 1);
    let e = err_at(&s, 0);
    assert_eq!(e.kind, ErrorKind::Io);
    assert_eq!(e.line, 0);
    assert_eq!(s.file_name(e.file), "/s/none.yg");
}

#[test]
fn composer_answers_requests_in_order() {
    let mut c = Composer::new("/s/a.yg".to_string());
    match c.next_request() {
        Request::Read { path } => assert_eq!(path, "/s/a.yg"),
        r => panic!("unexpected {:?}", r),
    }
    c.loaded(Ok(vec!["ECHO x".to_string(), "INCLUDE sub/b.yg".to_string()]));
    match c.next_request() {
        Request::Resolve { base, target } => {
            assert_eq!(base, "/s/a.yg");
            assert_eq!(target, "sub/b.yg");
        }
        r => panic!("unexpected {:?}", r),
    }
    c.resolved(Ok("/s/sub/b.yg".to_string()));
    match c.next_request() {
        Request::Read { path } => assert_eq!(path, "/s/sub/b.yg"),
        r => panic!("unexpected {:?}", r),
    }
    c.loaded(Ok(vec![]));
    assert_eq!(c.file_name(1), "/s/sub/b.yg");
    match c.next_request() {
        Request::Done => {}
        r => panic!("unexpected {:?}", r),
    }
    assert_eq!(c.finish().commands().len(), 2);
}

#[test]
fn failed_branch_runs_only_after_a_failure() {
    let s = compose(&[("/s/a.yg", "@r1 RUN do-thing\nFAILED? @r1 cleanup\nSUCCEED? @r1 report")], "/s/a.yg");
    let cmds: Vec<&Command> = s.commands().iter().map(|e| e.as_ref().unwrap()).collect();

    let mut failed = ReferenceResolver::new();
    assert_eq!(failed.decide(cmds[0]).unwrap(), Decision::Execute);
    assert_eq!(failed.complete(cmds[0], Outcome::Failed), Flow::Abort);
    assert_eq!(failed.decide(cmds[1]).unwrap(), Decision::Execute);
    assert_eq!(failed.decide(cmds[2]).unwrap(), Decision::Skip);

    let mut succeeded = ReferenceResolver::new();
    assert_eq!(succeeded.complete(cmds[0], Outcome::Succeeded), Flow::Continue);
    assert_eq!(succeeded.decide(cmds[1]).unwrap(), Decision::Skip);
    assert_eq!(succeeded.decide(cmds[2]).unwrap(), Decision::Execute);
}

#[test]
fn undefined_back_reference_is_a_runtime_error() {
    let s = compose(&[("/s/a.yg", "FAILED? @nobody cleanup")], "/s/a.yg");
    assert!(s.validate().is_ok());
    let r = ReferenceResolver::new();
    let e = r.decide(s.commands()[0].as_ref().unwrap()).unwrap_err();
    assert_eq!(e.label, "@nobody");
    assert_eq!(e.message, "Back reference to an undefined or not yet produced label: @nobody");
}

#[test]
fn later_outcome_replaces_earlier_one() {
    let mut r = ReferenceResolver::new();
    assert_eq!(r.lookup("@a"), None);
    r.record("@a", Outcome::Failed);
    r.record("@b", Outcome::Succeeded);
    r.record("@a", Outcome::Succeeded);
    assert_eq!(r.lookup("@a"), Some(Outcome::Succeeded));
    assert_eq!(r.lookup("@b"), Some(Outcome::Succeeded));
    assert_eq!(r.should_run("@a", yaggy::command::RunIf::Failed).unwrap(), false);
    assert_eq!(r.should_run("@a", yaggy::command::RunIf::Succeed).unwrap(), true);
}

#[test]
fn failure_of_a_bang_run_does_not_abort() {
    let s = compose(&[("/s/a.yg", "@x RUN! flaky\nLRUN local")], "/s/a.yg");
    let mut r = ReferenceResolver::new();
    assert_eq!(r.complete(s.commands()[0].as_ref().unwrap(), Outcome::Failed), Flow::Continue);
    assert_eq!(r.lookup("@x"), Some(Outcome::Failed));
    assert_eq!(r.complete(s.commands()[1].as_ref().unwrap(), Outcome::Failed), Flow::Abort);
}

#[test]
fn unreadable_included_file_is_an_include_error_at_the_include() {
    let mut c = Composer::new("/s/a.yg".to_string());
    c.next_request();
    c.loaded(Ok(vec!["ECHO x".to_string(), "INCLUDE b.yg".to_string(), "ECHO y".to_string()]));
    c.next_request();
    c.resolved(Ok("/s/b.yg".to_string()));
    match c.next_request() {
        Request::Read { path } => assert_eq!(path, "/s/b.yg"),
        r => panic!("unexpected {:?}", r),
    }
    c.loaded(Err("permission denied".to_string()));
    match c.next_request() {
        Request::Done => {}
        r => panic!("unexpected {:?}", r),
    }
    let s = c.finish();
    assert_eq!(s.commands().len(), 4);
    let e = err_at(&s, 2);
    assert_eq!(e.kind, ErrorKind::Include);
    assert_eq!(s.file_name(e.file), "/s/a.yg");
    assert_eq!(e.line, 2);
    assert_eq!(e.message, "permission denied");
    assert_eq!(ok_display(&s, 3), " ECHO  y");
}

#[test]
fn errors_are_described_with_file_and_line() {
    let s = compose(&[("/s/a.yg", "\n\n\n\n\n\n\n\n\n\n\nECHO\nINCLUDE none.yg")], "/s/a.yg");
    let e = err_at(&s, 0);
    assert_eq!(s.describe(e), "file:/s/a.yg line:12 message:This command requires some arguments");
    let i = err_at(&s, 2);
    assert_eq!(s.describe(i), "file:/s/a.yg line:13 INCLUDE error\nNo such file: /s/none.yg");
    let r = compose(&[], "/s/gone.yg");
    assert_eq!(r.describe(err_at(&r, 0)), "unable to read scenario /s/gone.yg\nNo such file or directory");
}
