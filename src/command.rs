//! The command model: the keyword vocabulary, the grammar rules of each
//! keyword, one variant per command family, and the builder that turns a
//! lexed line into a command.
use vstd::prelude::*;
use vstd::string::*;

use crate::error::{ErrorKind, ErrorView, ScenarioError};
use crate::line::{
    args_forbidden_msg, args_required_msg, back_reference_forbidden_msg,
    back_reference_required_msg, line_text, missing_command_msg, parse, parse_spec,
    reference_forbidden_msg, render_fields, LineFields, ParsedLine, ValidationError,
};

verus! {

/// The scenario keywords.
#[derive(PartialEq, Eq, Structural, Clone, Copy, Debug)]
pub enum Cmd {
    Connect,
    Reconnect,
    ReconnectIf,
    Disconnect,
    Echo,
    Fetch,
    Include,
    Sync,
    Tag,
    Untag,
    Run,
    RunExclamation,
    LRun,
    LRunExclamation,
    Succeed,
    LSucceed,
    Failed,
    LFailed,
    Vars,
    Secrets,
}

pub open spec fn keyword_text(c: Cmd) -> Seq<char> {
    match c {
        Cmd::Connect => "CONNECT"@,
        Cmd::Reconnect => "RECONNECT"@,
        Cmd::ReconnectIf => "RECONNECT?"@,
        Cmd::Disconnect => "DISCONNECT"@,
        Cmd::Echo => "ECHO"@,
        Cmd::Fetch => "FETCH"@,
        Cmd::Include => "INCLUDE"@,
        Cmd::Sync => "SYNC"@,
        Cmd::Tag => "TAG"@,
        Cmd::Untag => "UNTAG"@,
        Cmd::Run => "RUN"@,
        Cmd::RunExclamation => "RUN!"@,
        Cmd::LRun => "LRUN"@,
        Cmd::LRunExclamation => "LRUN!"@,
        Cmd::Succeed => "SUCCEED?"@,
        Cmd::LSucceed => "LSUCCEED?"@,
        Cmd::Failed => "FAILED?"@,
        Cmd::LFailed => "LFAILED?"@,
        Cmd::Vars => "VARS"@,
        Cmd::Secrets => "SECRETS"@,
    }
}

/// The keyword that a token spells, matched exactly and case-sensitively.
pub open spec fn cmd_of_keyword(k: Seq<char>) -> Option<Cmd> {
    if k == keyword_text(Cmd::Connect) {
        Some(Cmd::Connect)
    } else if k == keyword_text(Cmd::Reconnect) {
        Some(Cmd::Reconnect)
    } else if k == keyword_text(Cmd::ReconnectIf) {
        Some(Cmd::ReconnectIf)
    } else if k == keyword_text(Cmd::Disconnect) {
        Some(Cmd::Disconnect)
    } else if k == keyword_text(Cmd::Echo) {
        Some(Cmd::Echo)
    } else if k == keyword_text(Cmd::Fetch) {
        Some(Cmd::Fetch)
    } else if k == keyword_text(Cmd::Include) {
        Some(Cmd::Include)
    } else if k == keyword_text(Cmd::Sync) {
        Some(Cmd::Sync)
    } else if k == keyword_text(Cmd::Tag) {
        Some(Cmd::Tag)
    } else if k == keyword_text(Cmd::Untag) {
        Some(Cmd::Untag)
    } else if k == keyword_text(Cmd::Run) {
        Some(Cmd::Run)
    } else if k == keyword_text(Cmd::RunExclamation) {
        Some(Cmd::RunExclamation)
    } else if k == keyword_text(Cmd::LRun) {
        Some(Cmd::LRun)
    } else if k == keyword_text(Cmd::LRunExclamation) {
        Some(Cmd::LRunExclamation)
    } else if k == keyword_text(Cmd::Succeed) {
        Some(Cmd::Succeed)
    } else if k == keyword_text(Cmd::LSucceed) {
        Some(Cmd::LSucceed)
    } else if k == keyword_text(Cmd::Failed) {
        Some(Cmd::Failed)
    } else if k == keyword_text(Cmd::LFailed) {
        Some(Cmd::LFailed)
    } else if k == keyword_text(Cmd::Vars) {
        Some(Cmd::Vars)
    } else if k == keyword_text(Cmd::Secrets) {
        Some(Cmd::Secrets)
    } else {
        None
    }
}

/// Whether a field is demanded, refused, or left to the author.
#[derive(PartialEq, Eq, Structural, Clone, Copy, Debug)]
pub enum Need {
    Required,
    Forbidden,
    Free,
}

pub open spec fn forbids_reference(c: Cmd) -> bool {
    match c {
        Cmd::Run | Cmd::RunExclamation | Cmd::LRun | Cmd::LRunExclamation | Cmd::Succeed
        | Cmd::LSucceed | Cmd::Failed | Cmd::LFailed => false,
        _ => true,
    }
}

pub open spec fn back_reference_need(c: Cmd) -> Need {
    match c {
        Cmd::ReconnectIf => Need::Free,
        Cmd::Succeed | Cmd::LSucceed | Cmd::Failed | Cmd::LFailed => Need::Required,
        _ => Need::Forbidden,
    }
}

pub open spec fn args_need(c: Cmd) -> Need {
    match c {
        Cmd::Connect | Cmd::Disconnect | Cmd::Sync => Need::Forbidden,
        Cmd::Reconnect | Cmd::ReconnectIf => Need::Free,
        _ => Need::Required,
    }
}

/// The message of the first rule of `c` that a line with fields `f`
/// breaks, the rules taken in the order reference, back-reference,
/// arguments; `None` where it keeps them all.
pub open spec fn rule_violation(c: Cmd, f: LineFields) -> Option<Seq<char>> {
    if forbids_reference(c) && f.reference.len() > 0 {
        Some(reference_forbidden_msg())
    } else if back_reference_need(c) == Need::Required && f.back_reference.len() == 0 {
        Some(back_reference_required_msg())
    } else if back_reference_need(c) == Need::Forbidden && f.back_reference.len() > 0 {
        Some(back_reference_forbidden_msg())
    } else if args_need(c) == Need::Required && f.args.len() == 0 {
        Some(args_required_msg())
    } else if args_need(c) == Need::Forbidden && f.args.len() > 0 {
        Some(args_forbidden_msg())
    } else {
        None
    }
}

pub open spec fn is_local_spec(c: Cmd) -> bool {
    match c {
        Cmd::LRun | Cmd::LRunExclamation | Cmd::LSucceed | Cmd::LFailed => true,
        _ => false,
    }
}

pub open spec fn can_fail_spec(c: Cmd) -> bool {
    match c {
        Cmd::RunExclamation | Cmd::LRunExclamation => true,
        _ => false,
    }
}

pub open spec fn is_conditional_spec(c: Cmd) -> bool {
    match c {
        Cmd::ReconnectIf | Cmd::Succeed | Cmd::LSucceed | Cmd::Failed | Cmd::LFailed => true,
        _ => false,
    }
}

pub open spec fn condition_spec(c: Cmd) -> Option<RunIf> {
    match c {
        Cmd::Succeed | Cmd::LSucceed => Some(RunIf::Succeed),
        Cmd::Failed | Cmd::LFailed => Some(RunIf::Failed),
        _ => None,
    }
}

/// Whether two strings hold the same characters.
pub(crate) fn same_text(a: &str, b: &str) -> (r: bool)
    ensures
        r == (a@ == b@),
{
    let n = a.unicode_len();
    if n != b.unicode_len() {
        return false;
    }
    let mut i: usize = 0;
    while i < n
        invariant
            n == a@.len(),
            n == b@.len(),
            i <= n,
            forall|j: int| 0 <= j < i ==> a@[j] == b@[j],
        decreases n - i,
    {
        if a.get_char(i) != b.get_char(i) {
            return false;
        }
        i = i + 1;
    }
    assert(a@ =~= b@);
    true
}

impl Cmd {
    /// The keyword that introduces this command in a scenario.
    pub fn keyword(&self) -> (r: &'static str)
        ensures
            r@ == keyword_text(*self),
    {
        match self {
            Cmd::Connect => "CONNECT",
            Cmd::Reconnect => "RECONNECT",
            Cmd::ReconnectIf => "RECONNECT?",
            Cmd::Disconnect => "DISCONNECT",
            Cmd::Echo => "ECHO",
            Cmd::Fetch => "FETCH",
            Cmd::Include => "INCLUDE",
            Cmd::Sync => "SYNC",
            Cmd::Tag => "TAG",
            Cmd::Untag => "UNTAG",
            Cmd::Run => "RUN",
            Cmd::RunExclamation => "RUN!",
            Cmd::LRun => "LRUN",
            Cmd::LRunExclamation => "LRUN!",
            Cmd::Succeed => "SUCCEED?",
            Cmd::LSucceed => "LSUCCEED?",
            Cmd::Failed => "FAILED?",
            Cmd::LFailed => "LFAILED?",
            Cmd::Vars => "VARS",
            Cmd::Secrets => "SECRETS",
        }
    }

    /// The command that a keyword token names, if any.
    pub fn from_keyword(k: &str) -> (r: Option<Cmd>)
        ensures
            r == cmd_of_keyword(k@),
    {
        if same_text(k, "CONNECT") {
            Some(Cmd::Connect)
        } else if same_text(k, "RECONNECT") {
            Some(Cmd::Reconnect)
        } else if same_text(k, "RECONNECT?") {
            Some(Cmd::ReconnectIf)
        } else if same_text(k, "DISCONNECT") {
            Some(Cmd::Disconnect)
        } else if same_text(k, "ECHO") {
            Some(Cmd::Echo)
        } else if same_text(k, "FETCH") {
            Some(Cmd::Fetch)
        } else if same_text(k, "INCLUDE") {
            Some(Cmd::Include)
        } else if same_text(k, "SYNC") {
            Some(Cmd::Sync)
        } else if same_text(k, "TAG") {
            Some(Cmd::Tag)
        } else if same_text(k, "UNTAG") {
            Some(Cmd::Untag)
        } else if same_text(k, "RUN") {
            Some(Cmd::Run)
        } else if same_text(k, "RUN!") {
            Some(Cmd::RunExclamation)
        } else if same_text(k, "LRUN") {
            Some(Cmd::LRun)
        } else if same_text(k, "LRUN!") {
            Some(Cmd::LRunExclamation)
        } else if same_text(k, "SUCCEED?") {
            Some(Cmd::Succeed)
        } else if same_text(k, "LSUCCEED?") {
            Some(Cmd::LSucceed)
        } else if same_text(k, "FAILED?") {
            Some(Cmd::Failed)
        } else if same_text(k, "LFAILED?") {
            Some(Cmd::LFailed)
        } else if same_text(k, "VARS") {
            Some(Cmd::Vars)
        } else if same_text(k, "SECRETS") {
            Some(Cmd::Secrets)
        } else {
            None
        }
    }

    /// Whether the command runs on the local machine (its keyword starts
    /// with `L`).
    pub fn is_local(&self) -> (r: bool)
        ensures
            r == is_local_spec(*self),
    {
        match self {
            Cmd::LRun | Cmd::LRunExclamation | Cmd::LSucceed | Cmd::LFailed => true,
            _ => false,
        }
    }

    /// Whether a failure of the command lets the scenario go on (its
    /// keyword ends with `!`).
    pub fn can_fail(&self) -> (r: bool)
        ensures
            r == can_fail_spec(*self),
    {
        match self {
            Cmd::RunExclamation | Cmd::LRunExclamation => true,
            _ => false,
        }
    }

    /// Whether the command depends on an earlier outcome (its keyword ends
    /// with `?`).
    pub fn is_conditional(&self) -> (r: bool)
        ensures
            r == is_conditional_spec(*self),
    {
        match self {
            Cmd::ReconnectIf | Cmd::Succeed | Cmd::LSucceed | Cmd::Failed | Cmd::LFailed => true,
            _ => false,
        }
    }

    /// The outcome on which a conditional run executes.
    pub fn condition(&self) -> (r: Option<RunIf>)
        ensures
            r == condition_spec(*self),
    {
        match self {
            Cmd::Succeed | Cmd::LSucceed => Some(RunIf::Succeed),
            Cmd::Failed | Cmd::LFailed => Some(RunIf::Failed),
            _ => None,
        }
    }
}

/// Checks a lexed line against the grammar rules of keyword `cmd`, in the
/// order reference, back-reference, arguments, and stops at the first rule
/// that it breaks.
pub fn validate(parsed: &ParsedLine, cmd: Cmd) -> (r: Result<(), ValidationError>)
    ensures
        match r {
            Ok(()) => rule_violation(cmd, parsed@) is None,
            Err(e) => rule_violation(cmd, parsed@) == Some(e.message@),
        },
{
    match cmd {
        Cmd::Run | Cmd::RunExclamation | Cmd::LRun | Cmd::LRunExclamation | Cmd::Succeed
        | Cmd::LSucceed | Cmd::Failed | Cmd::LFailed => {},
        _ => {
            parsed.has_no_reference()?;
        },
    }
    match cmd {
        Cmd::ReconnectIf => {},
        Cmd::Succeed | Cmd::LSucceed | Cmd::Failed | Cmd::LFailed => {
            parsed.require_back_reference()?;
        },
        _ => {
            parsed.has_no_back_reference()?;
        },
    }
    match cmd {
        Cmd::Connect | Cmd::Disconnect | Cmd::Sync => {
            parsed.has_no_args()?;
        },
        Cmd::Reconnect | Cmd::ReconnectIf => {},
        _ => {
            parsed.require_args()?;
        },
    }
    Ok(())
}

/// Where a run executes.
#[derive(PartialEq, Eq, Structural, Clone, Copy, Debug)]
pub enum Mode {
    Local,
    Remote,
}

/// The outcome of the referenced command on which a conditional run
/// executes.
#[derive(PartialEq, Eq, Structural, Clone, Copy, Debug)]
pub enum RunIf {
    Failed,
    Succeed,
}

/// Which kind of values a `VARS`-family command loads.
#[derive(PartialEq, Eq, Structural, Clone, Copy, Debug)]
pub enum VarsMode {
    Vars,
    Secrets,
}

/// The text fields and the provenance of a command of keyword `cmd`,
/// built from line `line` of file `file` with fields `f`.
pub open spec fn line_view(cmd: Cmd, file: usize, line: u32, f: LineFields) -> CommandView {
    CommandView {
        cmd,
        file,
        line,
        reference: f.reference,
        back_reference: f.back_reference,
        args: f.args,
    }
}

/// `CONNECT`.
#[derive(Debug)]
pub struct CmdConnect {
    pub file: usize,
    pub line_num: u32,
    pub reference: String,
    pub back_reference: String,
    pub args: String,
}

/// `DISCONNECT`.
#[derive(Debug)]
pub struct CmdDisconnect {
    pub file: usize,
    pub line_num: u32,
    pub reference: String,
    pub back_reference: String,
    pub args: String,
}

/// `RECONNECT`.
#[derive(Debug)]
pub struct CmdReconnect {
    pub file: usize,
    pub line_num: u32,
    pub reference: String,
    pub back_reference: String,
    pub args: String,
}

/// `RECONNECT?`.
#[derive(Debug)]
pub struct CmdReconnectIf {
    pub file: usize,
    pub line_num: u32,
    pub reference: String,
    pub back_reference: String,
    pub args: String,
}

/// `ECHO`.
#[derive(Debug)]
pub struct CmdEcho {
    pub file: usize,
    pub line_num: u32,
    pub reference: String,
    pub back_reference: String,
    pub args: String,
}

/// `FETCH`.
#[derive(Debug)]
pub struct CmdFetch {
    pub file: usize,
    pub line_num: u32,
    pub reference: String,
    pub back_reference: String,
    pub args: String,
}

/// `INCLUDE`: `args` names the included file, relative to the directory of
/// the including one.
#[derive(Debug)]
pub struct CmdInclude {
    pub file: usize,
    pub line_num: u32,
    pub reference: String,
    pub back_reference: String,
    pub args: String,
}

/// `SYNC`.
#[derive(Debug)]
pub struct CmdSync {
    pub file: usize,
    pub line_num: u32,
    pub reference: String,
    pub back_reference: String,
    pub args: String,
}

/// `TAG`.
#[derive(Debug)]
pub struct CmdTag {
    pub file: usize,
    pub line_num: u32,
    pub reference: String,
    pub back_reference: String,
    pub args: String,
}

/// `UNTAG`.
#[derive(Debug)]
pub struct CmdUntag {
    pub file: usize,
    pub line_num: u32,
    pub reference: String,
    pub back_reference: String,
    pub args: String,
}

/// `RUN`, `RUN!`, `LRUN` and `LRUN!`.
#[derive(Debug)]
pub struct CmdRun {
    pub file: usize,
    pub line_num: u32,
    pub reference: String,
    pub back_reference: String,
    pub args: String,
    pub mode: Mode,
    pub can_fail: bool,
}

/// `SUCCEED?`, `FAILED?`, `LSUCCEED?` and `LFAILED?`.
#[derive(Debug)]
pub struct CmdRunIf {
    pub file: usize,
    pub line_num: u32,
    pub reference: String,
    pub back_reference: String,
    pub args: String,
    pub mode: Mode,
    pub run_if: RunIf,
}

/// `VARS` and `SECRETS`.
#[derive(Debug)]
pub struct CmdVars {
    pub file: usize,
    pub line_num: u32,
    pub reference: String,
    pub back_reference: String,
    pub args: String,
    pub mode: VarsMode,
}

pub open spec fn run_cmd(mode: Mode, can_fail: bool) -> Cmd {
    match (mode, can_fail) {
        (Mode::Remote, false) => Cmd::Run,
        (Mode::Remote, true) => Cmd::RunExclamation,
        (Mode::Local, false) => Cmd::LRun,
        (Mode::Local, true) => Cmd::LRunExclamation,
    }
}

pub open spec fn run_if_cmd(mode: Mode, run_if: RunIf) -> Cmd {
    match (mode, run_if) {
        (Mode::Remote, RunIf::Succeed) => Cmd::Succeed,
        (Mode::Remote, RunIf::Failed) => Cmd::Failed,
        (Mode::Local, RunIf::Succeed) => Cmd::LSucceed,
        (Mode::Local, RunIf::Failed) => Cmd::LFailed,
    }
}

pub open spec fn vars_cmd(mode: VarsMode) -> Cmd {
    match mode {
        VarsMode::Vars => Cmd::Vars,
        VarsMode::Secrets => Cmd::Secrets,
    }
}

impl View for CmdConnect {
    type V = CommandView;

    open spec fn view(&self) -> CommandView {
        CommandView {
            cmd: Cmd::Connect,
            file: self.file,
            line: self.line_num,
            reference: self.reference@,
            back_reference: self.back_reference@,
            args: self.args@,
        }
    }
}

impl View for CmdDisconnect {
    type V = CommandView;

    open spec fn view(&self) -> CommandView {
        CommandView {
            cmd: Cmd::Disconnect,
            file: self.file,
            line: self.line_num,
            reference: self.reference@,
            back_reference: self.back_reference@,
            args: self.args@,
        }
    }
}

impl View for CmdReconnect {
    type V = CommandView;

    open spec fn view(&self) -> CommandView {
        CommandView {
            cmd: Cmd::Reconnect,
            file: self.file,
            line: self.line_num,
            reference: self.reference@,
            back_reference: self.back_reference@,
            args: self.args@,
        }
    }
}

impl View for CmdReconnectIf {
    type V = CommandView;

    open spec fn view(&self) -> CommandView {
        CommandView {
            cmd: Cmd::ReconnectIf,
            file: self.file,
            line: self.line_num,
            reference: self.reference@,
            back_reference: self.back_reference@,
            args: self.args@,
        }
    }
}

impl View for CmdEcho {
    type V = CommandView;

    open spec fn view(&self) -> CommandView {
        CommandView {
            cmd: Cmd::Echo,
            file: self.file,
            line: self.line_num,
            reference: self.reference@,
            back_reference: self.back_reference@,
            args: self.args@,
        }
    }
}

impl View for CmdFetch {
    type V = CommandView;

    open spec fn view(&self) -> CommandView {
        CommandView {
            cmd: Cmd::Fetch,
            file: self.file,
            line: self.line_num,
            reference: self.reference@,
            back_reference: self.back_reference@,
            args: self.args@,
        }
    }
}

impl View for CmdInclude {
    type V = CommandView;

    open spec fn view(&self) -> CommandView {
        CommandView {
            cmd: Cmd::Include,
            file: self.file,
            line: self.line_num,
            reference: self.reference@,
            back_reference: self.back_reference@,
            args: self.args@,
        }
    }
}

impl View for CmdSync {
    type V = CommandView;

    open spec fn view(&self) -> CommandView {
        CommandView {
            cmd: Cmd::Sync,
            file: self.file,
            line: self.line_num,
            reference: self.reference@,
            back_reference: self.back_reference@,
            args: self.args@,
        }
    }
}

impl View for CmdTag {
    type V = CommandView;

    open spec fn view(&self) -> CommandView {
        CommandView {
            cmd: Cmd::Tag,
            file: self.file,
            line: self.line_num,
            reference: self.reference@,
            back_reference: self.back_reference@,
            args: self.args@,
        }
    }
}

impl View for CmdUntag {
    type V = CommandView;

    open spec fn view(&self) -> CommandView {
        CommandView {
            cmd: Cmd::Untag,
            file: self.file,
            line: self.line_num,
            reference: self.reference@,
            back_reference: self.back_reference@,
            args: self.args@,
        }
    }
}

impl View for CmdRun {
    type V = CommandView;

    open spec fn view(&self) -> CommandView {
        CommandView {
            cmd: run_cmd(self.mode, self.can_fail),
            file: self.file,
            line: self.line_num,
            reference: self.reference@,
            back_reference: self.back_reference@,
            args: self.args@,
        }
    }
}

impl View for CmdRunIf {
    type V = CommandView;

    open spec fn view(&self) -> CommandView {
        CommandView {
            cmd: run_if_cmd(self.mode, self.run_if),
            file: self.file,
            line: self.line_num,
            reference: self.reference@,
            back_reference: self.back_reference@,
            args: self.args@,
        }
    }
}

impl View for CmdVars {
    type V = CommandView;

    open spec fn view(&self) -> CommandView {
        CommandView {
            cmd: vars_cmd(self.mode),
            file: self.file,
            line: self.line_num,
            reference: self.reference@,
            back_reference: self.back_reference@,
            args: self.args@,
        }
    }
}

impl CmdConnect {
    pub fn new(file: usize, line_num: u32, parsed: &ParsedLine) -> (r: Self)
        ensures
            r@ == line_view(Cmd::Connect, file, line_num, parsed@),
    {
        CmdConnect {
            file,
            line_num,
            reference: parsed.reference.clone(),
            back_reference: parsed.back_reference.clone(),
            args: parsed.args.clone(),
        }
    }
}

impl CmdDisconnect {
    pub fn new(file: usize, line_num: u32, parsed: &ParsedLine) -> (r: Self)
        ensures
            r@ == line_view(Cmd::Disconnect, file, line_num, parsed@),
    {
        CmdDisconnect {
            file,
            line_num,
            reference: parsed.reference.clone(),
            back_reference: parsed.back_reference.clone(),
            args: parsed.args.clone(),
        }
    }
}

impl CmdReconnect {
    pub fn new(file: usize, line_num: u32, parsed: &ParsedLine) -> (r: Self)
        ensures
            r@ == line_view(Cmd::Reconnect, file, line_num, parsed@),
    {
        CmdReconnect {
            file,
            line_num,
            reference: parsed.reference.clone(),
            back_reference: parsed.back_reference.clone(),
            args: parsed.args.clone(),
        }
    }
}

impl CmdReconnectIf {
    pub fn new(file: usize, line_num: u32, parsed: &ParsedLine) -> (r: Self)
        ensures
            r@ == line_view(Cmd::ReconnectIf, file, line_num, parsed@),
    {
        CmdReconnectIf {
            file,
            line_num,
            reference: parsed.reference.clone(),
            back_reference: parsed.back_reference.clone(),
            args: parsed.args.clone(),
        }
    }
}

impl CmdEcho {
    pub fn new(file: usize, line_num: u32, parsed: &ParsedLine) -> (r: Self)
        ensures
            r@ == line_view(Cmd::Echo, file, line_num, parsed@),
    {
        CmdEcho {
            file,
            line_num,
            reference: parsed.reference.clone(),
            back_reference: parsed.back_reference.clone(),
            args: parsed.args.clone(),
        }
    }
}

impl CmdFetch {
    pub fn new(file: usize, line_num: u32, parsed: &ParsedLine) -> (r: Self)
        ensures
            r@ == line_view(Cmd::Fetch, file, line_num, parsed@),
    {
        CmdFetch {
            file,
            line_num,
            reference: parsed.reference.clone(),
            back_reference: parsed.back_reference.clone(),
            args: parsed.args.clone(),
        }
    }
}

impl CmdInclude {
    pub fn new(file: usize, line_num: u32, parsed: &ParsedLine) -> (r: Self)
        ensures
            r@ == line_view(Cmd::Include, file, line_num, parsed@),
    {
        CmdInclude {
            file,
            line_num,
            reference: parsed.reference.clone(),
            back_reference: parsed.back_reference.clone(),
            args: parsed.args.clone(),
        }
    }
}

impl CmdSync {
    pub fn new(file: usize, line_num: u32, parsed: &ParsedLine) -> (r: Self)
        ensures
            r@ == line_view(Cmd::Sync, file, line_num, parsed@),
    {
        CmdSync {
            file,
            line_num,
            reference: parsed.reference.clone(),
            back_reference: parsed.back_reference.clone(),
            args: parsed.args.clone(),
        }
    }
}

impl CmdTag {
    pub fn new(file: usize, line_num: u32, parsed: &ParsedLine) -> (r: Self)
        ensures
            r@ == line_view(Cmd::Tag, file, line_num, parsed@),
    {
        CmdTag {
            file,
            line_num,
            reference: parsed.reference.clone(),
            back_reference: parsed.back_reference.clone(),
            args: parsed.args.clone(),
        }
    }
}

impl CmdUntag {
    pub fn new(file: usize, line_num: u32, parsed: &ParsedLine) -> (r: Self)
        ensures
            r@ == line_view(Cmd::Untag, file, line_num, parsed@),
    {
        CmdUntag {
            file,
            line_num,
            reference: parsed.reference.clone(),
            back_reference: parsed.back_reference.clone(),
            args: parsed.args.clone(),
        }
    }
}

impl CmdRun {
    fn build(file: usize, line_num: u32, parsed: &ParsedLine, mode: Mode, can_fail: bool) -> (r: Self)
        ensures
            r@ == line_view(run_cmd(mode, can_fail), file, line_num, parsed@),
            r.mode == mode,
            r.can_fail == can_fail,
    {
        CmdRun {
            file,
            line_num,
            reference: parsed.reference.clone(),
            back_reference: parsed.back_reference.clone(),
            args: parsed.args.clone(),
            mode,
            can_fail,
        }
    }

    /// `LRUN`.
    pub fn new_local(file: usize, line_num: u32, parsed: &ParsedLine) -> (r: Self)
        ensures
            r@ == line_view(Cmd::LRun, file, line_num, parsed@),
            r.mode == Mode::Local,
            !r.can_fail,
    {
        Self::build(file, line_num, parsed, Mode::Local, false)
    }

    /// `LRUN!`.
    pub fn new_local_exclamation(file: usize, line_num: u32, parsed: &ParsedLine) -> (r: Self)
        ensures
            r@ == line_view(Cmd::LRunExclamation, file, line_num, parsed@),
            r.mode == Mode::Local,
            r.can_fail,
    {
        Self::build(file, line_num, parsed, Mode::Local, true)
    }

    /// `RUN`.
    pub fn new_remote(file: usize, line_num: u32, parsed: &ParsedLine) -> (r: Self)
        ensures
            r@ == line_view(Cmd::Run, file, line_num, parsed@),
            r.mode == Mode::Remote,
            !r.can_fail,
    {
        Self::build(file, line_num, parsed, Mode::Remote, false)
    }

    /// `RUN!`.
    pub fn new_remote_exclamation(file: usize, line_num: u32, parsed: &ParsedLine) -> (r: Self)
        ensures
            r@ == line_view(Cmd::RunExclamation, file, line_num, parsed@),
            r.mode == Mode::Remote,
            r.can_fail,
    {
        Self::build(file, line_num, parsed, Mode::Remote, true)
    }
}

impl CmdRunIf {
    fn build(file: usize, line_num: u32, parsed: &ParsedLine, mode: Mode, run_if: RunIf) -> (r: Self)
        ensures
            r@ == line_view(run_if_cmd(mode, run_if), file, line_num, parsed@),
            r.mode == mode,
            r.run_if == run_if,
    {
        CmdRunIf {
            file,
            line_num,
            reference: parsed.reference.clone(),
            back_reference: parsed.back_reference.clone(),
            args: parsed.args.clone(),
            mode,
            run_if,
        }
    }

    /// `LFAILED?`.
    pub fn new_local_if_failed(file: usize, line_num: u32, parsed: &ParsedLine) -> (r: Self)
        ensures
            r@ == line_view(Cmd::LFailed, file, line_num, parsed@),
            r.mode == Mode::Local,
            r.run_if == RunIf::Failed,
    {
        Self::build(file, line_num, parsed, Mode::Local, RunIf::Failed)
    }

    /// `LSUCCEED?`.
    pub fn new_local_if_succeed(file: usize, line_num: u32, parsed: &ParsedLine) -> (r: Self)
        ensures
            r@ == line_view(Cmd::LSucceed, file, line_num, parsed@),
            r.mode == Mode::Local,
            r.run_if == RunIf::Succeed,
    {
        Self::build(file, line_num, parsed, Mode::Local, RunIf::Succeed)
    }

    /// `FAILED?`.
    pub fn new_remote_if_failed(file: usize, line_num: u32, parsed: &ParsedLine) -> (r: Self)
        ensures
            r@ == line_view(Cmd::Failed, file, line_num, parsed@),
            r.mode == Mode::Remote,
            r.run_if == RunIf::Failed,
    {
        Self::build(file, line_num, parsed, Mode::Remote, RunIf::Failed)
    }

    /// `SUCCEED?`.
    pub fn new_remote_if_succeed(file: usize, line_num: u32, parsed: &ParsedLine) -> (r: Self)
        ensures
            r@ == line_view(Cmd::Succeed, file, line_num, parsed@),
            r.mode == Mode::Remote,
            r.run_if == RunIf::Succeed,
    {
        Self::build(file, line_num, parsed, Mode::Remote, RunIf::Succeed)
    }
}

impl CmdVars {
    /// `VARS`.
    pub fn new_vars(file: usize, line_num: u32, parsed: &ParsedLine) -> (r: Self)
        ensures
            r@ == line_view(Cmd::Vars, file, line_num, parsed@),
            r.mode == VarsMode::Vars,
    {
        CmdVars {
            file,
            line_num,
            reference: parsed.reference.clone(),
            back_reference: parsed.back_reference.clone(),
            args: parsed.args.clone(),
            mode: VarsMode::Vars,
        }
    }

    /// `SECRETS`.
    pub fn new_secrets(file: usize, line_num: u32, parsed: &ParsedLine) -> (r: Self)
        ensures
            r@ == line_view(Cmd::Secrets, file, line_num, parsed@),
            r.mode == VarsMode::Secrets,
    {
        CmdVars {
            file,
            line_num,
            reference: parsed.reference.clone(),
            back_reference: parsed.back_reference.clone(),
            args: parsed.args.clone(),
            mode: VarsMode::Secrets,
        }
    }
}

/// One scenario command, with the fields of its line and its provenance.
#[derive(Debug)]
pub enum Command {
    Connect(CmdConnect),
    Disconnect(CmdDisconnect),
    Reconnect(CmdReconnect),
    ReconnectIf(CmdReconnectIf),
    Echo(CmdEcho),
    Fetch(CmdFetch),
    Include(CmdInclude),
    Sync(CmdSync),
    Tag(CmdTag),
    Untag(CmdUntag),
    Run(CmdRun),
    RunIf(CmdRunIf),
    Vars(CmdVars),
}

/// A command as data: its keyword, its provenance and its three text
/// fields (empty where the line has no such field).
pub struct CommandView {
    pub cmd: Cmd,
    pub file: usize,
    pub line: u32,
    pub reference: Seq<char>,
    pub back_reference: Seq<char>,
    pub args: Seq<char>,
}

impl View for Command {
    type V = CommandView;

    open spec fn view(&self) -> CommandView {
        match self {
            Command::Connect(c) => c@,
            Command::Disconnect(c) => c@,
            Command::Reconnect(c) => c@,
            Command::ReconnectIf(c) => c@,
            Command::Echo(c) => c@,
            Command::Fetch(c) => c@,
            Command::Include(c) => c@,
            Command::Sync(c) => c@,
            Command::Tag(c) => c@,
            Command::Untag(c) => c@,
            Command::Run(c) => c@,
            Command::RunIf(c) => c@,
            Command::Vars(c) => c@,
        }
    }
}

/// The fields of a command, rendered as a line.
pub open spec fn command_fields(v: CommandView) -> LineFields {
    LineFields {
        reference: v.reference,
        command: keyword_text(v.cmd),
        back_reference: v.back_reference,
        args: v.args,
    }
}

pub open spec fn syntax_error(file: usize, line: u32, message: Seq<char>) -> ErrorView {
    ErrorView { kind: ErrorKind::Syntax, file, line, message }
}

pub open spec fn unknown_command_msg(k: Seq<char>) -> Seq<char> {
    "Unknown scenario command: \""@ + k + "\""@
}

/// What line `line` of file `file`, holding `s`, gives: an error where it
/// holds no keyword, names none of the vocabulary (the message quotes the
/// whole line), or breaks a rule of its keyword; otherwise its command.
pub open spec fn line_spec(file: usize, line: u32, s: Seq<char>) -> Result<CommandView, ErrorView> {
    match parse_spec(s) {
        None => Err(syntax_error(file, line, missing_command_msg())),
        Some(f) => match cmd_of_keyword(f.command) {
            None => Err(syntax_error(file, line, unknown_command_msg(s))),
            Some(c) => match rule_violation(c, f) {
                Some(m) => Err(syntax_error(file, line, m)),
                None => Ok(line_view(c, file, line, f)),
            },
        },
    }
}

pub open spec fn entry_view(r: Result<Command, ScenarioError>) -> Result<CommandView, ErrorView> {
    match r {
        Ok(c) => Ok(c@),
        Err(e) => Err(e@),
    }
}

proof fn lemma_keyword_of_cmd(k: Seq<char>)
    requires
        cmd_of_keyword(k) is Some,
    ensures
        keyword_text(cmd_of_keyword(k)->Some_0) == k,
{
}

fn build(c: Cmd, file: usize, line_num: u32, parsed: &ParsedLine) -> (r: Command)
    ensures
        r@ == line_view(c, file, line_num, parsed@),
{
    match c {
        Cmd::Connect => Command::Connect(CmdConnect::new(file, line_num, parsed)),
        Cmd::Disconnect => Command::Disconnect(CmdDisconnect::new(file, line_num, parsed)),
        Cmd::Reconnect => Command::Reconnect(CmdReconnect::new(file, line_num, parsed)),
        Cmd::ReconnectIf => Command::ReconnectIf(CmdReconnectIf::new(file, line_num, parsed)),
        Cmd::Echo => Command::Echo(CmdEcho::new(file, line_num, parsed)),
        Cmd::Fetch => Command::Fetch(CmdFetch::new(file, line_num, parsed)),
        Cmd::Include => Command::Include(CmdInclude::new(file, line_num, parsed)),
        Cmd::Sync => Command::Sync(CmdSync::new(file, line_num, parsed)),
        Cmd::Tag => Command::Tag(CmdTag::new(file, line_num, parsed)),
        Cmd::Untag => Command::Untag(CmdUntag::new(file, line_num, parsed)),
        Cmd::Run => Command::Run(CmdRun::new_remote(file, line_num, parsed)),
        Cmd::RunExclamation => Command::Run(CmdRun::new_remote_exclamation(file, line_num, parsed)),
        Cmd::LRun => Command::Run(CmdRun::new_local(file, line_num, parsed)),
        Cmd::LRunExclamation => Command::Run(CmdRun::new_local_exclamation(file, line_num, parsed)),
        Cmd::Succeed => Command::RunIf(CmdRunIf::new_remote_if_succeed(file, line_num, parsed)),
        Cmd::LSucceed => Command::RunIf(CmdRunIf::new_local_if_succeed(file, line_num, parsed)),
        Cmd::Failed => Command::RunIf(CmdRunIf::new_remote_if_failed(file, line_num, parsed)),
        Cmd::LFailed => Command::RunIf(CmdRunIf::new_local_if_failed(file, line_num, parsed)),
        Cmd::Vars => Command::Vars(CmdVars::new_vars(file, line_num, parsed)),
        Cmd::Secrets => Command::Vars(CmdVars::new_secrets(file, line_num, parsed)),
    }
}

fn unknown_command_message(k: &str) -> (r: String)
    ensures
        r@ == unknown_command_msg(k@),
{
    let mut m = String::from_str("Unknown scenario command: \"");
    m.append(k);
    m.append("\"");
    m
}

/// Builds commands from lexed lines.
#[derive(Debug)]
pub struct CommandBuilder;

impl CommandBuilder {
    /// Classifies a lexed line by its keyword and builds its command, tagged
    /// with its file and line and carrying all its fields. The grammar rules
    /// are checked apart, by `validate` or `validate_command`.
    pub fn from_parsed_line(parsed: ParsedLine, file: usize, line_num: u32) -> (r: Result<Command, ScenarioError>)
        ensures
            match cmd_of_keyword(parsed@.command) {
                Some(c) => r matches Ok(x) && x@ == line_view(c, file, line_num, parsed@),
                None => r matches Err(e) && e@ == syntax_error(
                    file,
                    line_num,
                    unknown_command_msg(parsed@.command),
                ),
            },
    {
        match Cmd::from_keyword(parsed.command.as_str()) {
            Some(c) => Ok(build(c, file, line_num, &parsed)),
            None => {
                let message = unknown_command_message(parsed.command.as_str());
                Err(ScenarioError::new(ErrorKind::Syntax, file, line_num, message))
            },
        }
    }
}

/// Checks a built command against the grammar rules of its keyword.
pub fn validate_command(command: &Command) -> (r: Result<(), ScenarioError>)
    ensures
        match rule_violation(command@.cmd, command_fields(command@)) {
            None => r is Ok,
            Some(m) => r matches Err(e) && e@ == syntax_error(command@.file, command@.line, m),
        },
{
    let c = command.cmd();
    let p = ParsedLine::new(command.reference(), c.keyword(), command.back_reference(), command.args());
    match validate(&p, c) {
        Ok(()) => Ok(()),
        Err(e) => Err(ScenarioError::new(ErrorKind::Syntax, command.file(), command.line_num(), e.message)),
    }
}

/// Lexes line `line_num` of file `file`, classifies it by its keyword,
/// checks the keyword's grammar rules, and builds its command.
pub fn from_line(file: usize, line_num: u32, text: &str) -> (r: Result<Command, ScenarioError>)
    ensures
        entry_view(r) == line_spec(file, line_num, text@),
{
    let parsed = match parse(text) {
        Ok(p) => p,
        Err(e) => {
            return Err(ScenarioError::new(ErrorKind::Syntax, file, line_num, e.message));
        },
    };
    let c = match Cmd::from_keyword(parsed.command.as_str()) {
        Some(c) => c,
        None => {
            return Err(ScenarioError::new(ErrorKind::Syntax, file, line_num, unknown_command_message(text)));
        },
    };
    match validate(&parsed, c) {
        Ok(()) => {},
        Err(e) => {
            return Err(ScenarioError::new(ErrorKind::Syntax, file, line_num, e.message));
        },
    }
    CommandBuilder::from_parsed_line(parsed, file, line_num)
}

impl Command {
    pub fn cmd(&self) -> (r: Cmd)
        ensures
            r == self@.cmd,
    {
        match self {
            Command::Connect(_) => Cmd::Connect,
            Command::Disconnect(_) => Cmd::Disconnect,
            Command::Reconnect(_) => Cmd::Reconnect,
            Command::ReconnectIf(_) => Cmd::ReconnectIf,
            Command::Echo(_) => Cmd::Echo,
            Command::Fetch(_) => Cmd::Fetch,
            Command::Include(_) => Cmd::Include,
            Command::Sync(_) => Cmd::Sync,
            Command::Tag(_) => Cmd::Tag,
            Command::Untag(_) => Cmd::Untag,
            Command::Run(c) => match (c.mode, c.can_fail) {
                (Mode::Remote, false) => Cmd::Run,
                (Mode::Remote, true) => Cmd::RunExclamation,
                (Mode::Local, false) => Cmd::LRun,
                (Mode::Local, true) => Cmd::LRunExclamation,
            },
            Command::RunIf(c) => match (c.mode, c.run_if) {
                (Mode::Remote, RunIf::Succeed) => Cmd::Succeed,
                (Mode::Remote, RunIf::Failed) => Cmd::Failed,
                (Mode::Local, RunIf::Succeed) => Cmd::LSucceed,
                (Mode::Local, RunIf::Failed) => Cmd::LFailed,
            },
            Command::Vars(c) => match c.mode {
                VarsMode::Vars => Cmd::Vars,
                VarsMode::Secrets => Cmd::Secrets,
            },
        }
    }

    pub fn is_include(&self) -> (r: bool)
        ensures
            r == (self@.cmd == Cmd::Include),
    {
        matches!(self, Command::Include(_))
    }

    /// The index of the file that the command comes from.
    pub fn file(&self) -> (r: usize)
        ensures
            r == self@.file,
    {
        match self {
            Command::Connect(c) => c.file,
            Command::Disconnect(c) => c.file,
            Command::Reconnect(c) => c.file,
            Command::ReconnectIf(c) => c.file,
            Command::Echo(c) => c.file,
            Command::Fetch(c) => c.file,
            Command::Include(c) => c.file,
            Command::Sync(c) => c.file,
            Command::Tag(c) => c.file,
            Command::Untag(c) => c.file,
            Command::Run(c) => c.file,
            Command::RunIf(c) => c.file,
            Command::Vars(c) => c.file,
        }
    }

    /// The line that the command ends on.
    pub fn line_num(&self) -> (r: u32)
        ensures
            r == self@.line,
    {
        match self {
            Command::Connect(c) => c.line_num,
            Command::Disconnect(c) => c.line_num,
            Command::Reconnect(c) => c.line_num,
            Command::ReconnectIf(c) => c.line_num,
            Command::Echo(c) => c.line_num,
            Command::Fetch(c) => c.line_num,
            Command::Include(c) => c.line_num,
            Command::Sync(c) => c.line_num,
            Command::Tag(c) => c.line_num,
            Command::Untag(c) => c.line_num,
            Command::Run(c) => c.line_num,
            Command::RunIf(c) => c.line_num,
            Command::Vars(c) => c.line_num,
        }
    }

    /// The reference label, with its sigil; empty where there is none.
    pub fn reference(&self) -> (r: &str)
        ensures
            r@ == self@.reference,
    {
        match self {
            Command::Connect(c) => c.reference.as_str(),
            Command::Disconnect(c) => c.reference.as_str(),
            Command::Reconnect(c) => c.reference.as_str(),
            Command::ReconnectIf(c) => c.reference.as_str(),
            Command::Echo(c) => c.reference.as_str(),
            Command::Fetch(c) => c.reference.as_str(),
            Command::Include(c) => c.reference.as_str(),
            Command::Sync(c) => c.reference.as_str(),
            Command::Tag(c) => c.reference.as_str(),
            Command::Untag(c) => c.reference.as_str(),
            Command::Run(c) => c.reference.as_str(),
            Command::RunIf(c) => c.reference.as_str(),
            Command::Vars(c) => c.reference.as_str(),
        }
    }

    /// The back-reference label, with its sigil; empty where there is none.
    pub fn back_reference(&self) -> (r: &str)
        ensures
            r@ == self@.back_reference,
    {
        match self {
            Command::Connect(c) => c.back_reference.as_str(),
            Command::Disconnect(c) => c.back_reference.as_str(),
            Command::Reconnect(c) => c.back_reference.as_str(),
            Command::ReconnectIf(c) => c.back_reference.as_str(),
            Command::Echo(c) => c.back_reference.as_str(),
            Command::Fetch(c) => c.back_reference.as_str(),
            Command::Include(c) => c.back_reference.as_str(),
            Command::Sync(c) => c.back_reference.as_str(),
            Command::Tag(c) => c.back_reference.as_str(),
            Command::Untag(c) => c.back_reference.as_str(),
            Command::Run(c) => c.back_reference.as_str(),
            Command::RunIf(c) => c.back_reference.as_str(),
            Command::Vars(c) => c.back_reference.as_str(),
        }
    }

    /// The arguments, as written; empty where there are none.
    pub fn args(&self) -> (r: &str)
        ensures
            r@ == self@.args,
    {
        match self {
            Command::Connect(c) => c.args.as_str(),
            Command::Disconnect(c) => c.args.as_str(),
            Command::Reconnect(c) => c.args.as_str(),
            Command::ReconnectIf(c) => c.args.as_str(),
            Command::Echo(c) => c.args.as_str(),
            Command::Fetch(c) => c.args.as_str(),
            Command::Include(c) => c.args.as_str(),
            Command::Sync(c) => c.args.as_str(),
            Command::Tag(c) => c.args.as_str(),
            Command::Untag(c) => c.args.as_str(),
            Command::Run(c) => c.args.as_str(),
            Command::RunIf(c) => c.args.as_str(),
            Command::Vars(c) => c.args.as_str(),
        }
    }

    /// The canonical rendering of the command, as a line of the scenario
    /// language.
    pub fn display(&self) -> (r: String)
        ensures
            r@ == line_text(command_fields(self@)),
    {
        let c = self.cmd();
        render_fields(self.reference(), c.keyword(), self.back_reference(), self.args())
    }
}

/// A command built from a line renders as that line's canonical text.
pub proof fn lemma_built_command_renders_its_line(file: usize, line: u32, s: Seq<char>)
    requires
        line_spec(file, line, s) is Ok,
    ensures
        line_text(command_fields(line_spec(file, line, s)->Ok_0)) == line_text(parse_spec(s)->Some_0),
{
    let f = parse_spec(s)->Some_0;
    lemma_keyword_of_cmd(f.command);
    assert(command_fields(line_spec(file, line, s)->Ok_0) == f);
}

} // verus!
