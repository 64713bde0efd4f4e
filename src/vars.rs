//! The argument check of `VARS` and `SECRETS`: the arguments name a file
//! next to the scenario, or else a shell command whose first word is an
//! executable on the search path.
use vstd::prelude::*;
use vstd::string::*;

use crate::command::{syntax_error, CmdVars};
use crate::error::{ErrorKind, ErrorView, ScenarioError};
use crate::text::texts;

verus! {

/// The words that shell quoting rules make of `s`, or `None` where a
/// quote is left open.
pub uninterp spec fn shell_words_of(s: Seq<char>) -> Option<Seq<Seq<char>>>;

/// Relies on `shell_words::split`: the words of a string under shell
/// quoting rules, or an error where a quote is left open; the result
/// depends on the string alone.
#[verifier::external_body]
fn split_shell_words(s: &str) -> (r: Option<Vec<String>>)
    ensures
        match r {
            Some(w) => shell_words_of(s@) == Some(texts(w@)),
            None => shell_words_of(s@) is None,
        },
{
    shell_words::split(s).ok()
}

/// Relies on `which::which`: whether an executable of that name is found
/// on the search path, and if not, the library's description of why. The
/// answer depends on the environment and the disk, so nothing is stated.
#[verifier::external_body]
fn find_executable(name: &str) -> (r: Result<(), String>) {
    match which::which(name) {
        Ok(_) => Ok(()),
        Err(e) => Err(e.to_string()),
    }
}

pub open spec fn invalid_shell_msg(args: Seq<char>) -> Seq<char> {
    "Invalid syntax in shell command: \""@ + args + "\""@
}

pub open spec fn empty_shell_msg(args: Seq<char>) -> Seq<char> {
    "Missing executable in shell command: \""@ + args + "\""@
}

pub open spec fn lookup_msg(reason: Seq<char>, args: Seq<char>) -> Seq<char> {
    reason + " for shell command: \""@ + args + "\""@
}

fn quoted_message(prefix: &str, args: &str) -> (r: String)
    ensures
        r@ == prefix@ + args@ + "\""@,
{
    let mut m = String::from_str(prefix);
    m.append(args);
    m.append("\"");
    m
}

/// The first of the shell words of `args`, or why there is none.
pub open spec fn executable_word_spec(file: usize, line: u32, args: Seq<char>) -> Result<Seq<char>, ErrorView> {
    match shell_words_of(args) {
        None => Err(syntax_error(file, line, invalid_shell_msg(args))),
        Some(w) => if w.len() == 0 {
            Err(syntax_error(file, line, empty_shell_msg(args)))
        } else {
            Ok(w[0])
        },
    }
}

impl CmdVars {
    /// The executable that the arguments, taken as a shell command, run:
    /// their first shell word. An error where they do not split into
    /// shell words, or split into none.
    pub fn executable_word(&self) -> (r: Result<String, ScenarioError>)
        ensures
            match executable_word_spec(self.file, self.line_num, self.args@) {
                Ok(n) => r matches Ok(x) && x@ == n,
                Err(v) => r matches Err(e) && e@ == v,
            },
    {
        let words = match split_shell_words(self.args.as_str()) {
            Some(w) => w,
            None => {
                let m = quoted_message("Invalid syntax in shell command: \"", self.args.as_str());
                return Err(ScenarioError::new(ErrorKind::Syntax, self.file, self.line_num, m));
            },
        };
        if words.len() == 0 {
            let m = quoted_message("Missing executable in shell command: \"", self.args.as_str());
            return Err(ScenarioError::new(ErrorKind::Syntax, self.file, self.line_num, m));
        }
        assert(texts(words@)[0] == words@[0]@);
        Ok(words[0].clone())
    }

    /// Checks the arguments, given whether they name an existing file
    /// relative to the scenario's directory. Where they do not, they must
    /// split into shell words, and the first word, from `executable_word`,
    /// must name an executable found on the search path.
    pub fn check_args(&self, path_resolves: bool) -> (r: Result<(), ScenarioError>)
        ensures
            path_resolves ==> r is Ok,
            !path_resolves ==> match executable_word_spec(self.file, self.line_num, self.args@) {
                Err(v) => r matches Err(e) && e@ == v,
                Ok(_) => r is Ok || (r matches Err(e) && exists|m: Seq<char>|
                    e@ == syntax_error(self.file, self.line_num, #[trigger] lookup_msg(m, self.args@))),
            },
    {
        if path_resolves {
            return Ok(());
        }
        let name = self.executable_word()?;
        let lookup = find_executable(name.as_str());
        self.lookup_verdict(lookup)
    }

    /// The verdict on the arguments once the search for their executable
    /// has answered `lookup`.
    pub fn lookup_verdict(&self, lookup: Result<(), String>) -> (r: Result<(), ScenarioError>)
        ensures
            match lookup {
                Ok(()) => r is Ok,
                Err(m) => r matches Err(e) && e@ == syntax_error(
                    self.file,
                    self.line_num,
                    lookup_msg(m@, self.args@),
                ),
            },
    {
        match lookup {
            Ok(()) => Ok(()),
            Err(reason) => {
                let mut m = reason;
                let tail = quoted_message(" for shell command: \"", self.args.as_str());
                m.append(tail.as_str());
                proof {
                    assert(m@ =~= lookup_msg(reason@, self.args@));
                }
                Err(ScenarioError::new(ErrorKind::Syntax, self.file, self.line_num, m))
            },
        }
    }
}

} // verus!
