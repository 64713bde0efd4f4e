//! The execution-time resolver of references: the outcome of each
//! labelled command, and what it means for the conditional commands that
//! refer back to it.
use vstd::prelude::*;
use vstd::string::*;

use crate::command::{can_fail_spec, condition_spec, same_text, Command, RunIf};

verus! {

/// How an executed command ended.
#[derive(PartialEq, Eq, Structural, Clone, Copy, Debug)]
pub enum Outcome {
    Succeeded,
    Failed,
}

/// Whether a command is executed or passed over.
#[derive(PartialEq, Eq, Structural, Clone, Copy, Debug)]
pub enum Decision {
    Execute,
    Skip,
}

/// Whether the scenario goes on after a command.
#[derive(PartialEq, Eq, Structural, Clone, Copy, Debug)]
pub enum Flow {
    Continue,
    Abort,
}

/// An error found while executing a scenario: a back-reference to a label
/// that no executed command has produced.
#[derive(Debug)]
pub struct ExecutionError {
    pub label: String,
    pub message: String,
}

pub open spec fn undefined_label_msg(label: Seq<char>) -> Seq<char> {
    "Back reference to an undefined or not yet produced label: "@ + label
}

/// Whether outcome `o` satisfies condition `c`.
pub open spec fn satisfies(o: Outcome, c: RunIf) -> bool {
    match c {
        RunIf::Failed => o == Outcome::Failed,
        RunIf::Succeed => o == Outcome::Succeeded,
    }
}

/// Whether a conditional command on `label` under condition `c` runs, given
/// the outcomes `m`; `None` where `label` has no outcome.
pub open spec fn run_decision(m: Map<Seq<char>, Outcome>, label: Seq<char>, c: RunIf) -> Option<bool> {
    if m.contains_key(label) {
        Some(satisfies(m[label], c))
    } else {
        None
    }
}

/// The outcomes of a log of records, a later record of a label replacing
/// an earlier one.
pub open spec fn outcomes(s: Seq<(Seq<char>, Outcome)>) -> Map<Seq<char>, Outcome>
    decreases s.len(),
{
    if s.len() == 0 {
        Map::empty()
    } else {
        outcomes(s.drop_last()).insert(s.last().0, s.last().1)
    }
}

pub open spec fn log_view(s: Seq<(String, Outcome)>) -> Seq<(Seq<char>, Outcome)> {
    s.map_values(|p: (String, Outcome)| (p.0@, p.1))
}

/// The outcomes recorded so far, by label.
pub struct ReferenceResolver {
    results: Vec<(String, Outcome)>,
}

impl View for ReferenceResolver {
    type V = Map<Seq<char>, Outcome>;

    closed spec fn view(&self) -> Map<Seq<char>, Outcome> {
        outcomes(log_view(self.results@))
    }
}

proof fn lemma_outcomes_skip_last(s: Seq<(Seq<char>, Outcome)>, label: Seq<char>)
    requires
        s.len() > 0,
        s.last().0 != label,
    ensures
        outcomes(s).contains_key(label) == outcomes(s.drop_last()).contains_key(label),
        outcomes(s).contains_key(label) ==> outcomes(s)[label] == outcomes(s.drop_last())[label],
{
}

/// The record of outcome `o` of the command labelled `label`.
pub open spec fn after_record(m: Map<Seq<char>, Outcome>, label: Seq<char>, o: Outcome) -> Map<Seq<char>, Outcome> {
    m.insert(label, o)
}

impl ReferenceResolver {
    pub fn new() -> (r: ReferenceResolver)
        ensures
            r@ == Map::<Seq<char>, Outcome>::empty(),
    {
        let r = ReferenceResolver { results: Vec::new() };
        assert(log_view(r.results@) =~= Seq::<(Seq<char>, Outcome)>::empty());
        r
    }

    /// Records outcome `o` for `label`, replacing an earlier one.
    pub fn record(&mut self, label: &str, o: Outcome)
        ensures
            final(self)@ == after_record(old(self)@, label@, o),
    {
        let ghost s = self.results@;
        self.results.push((String::from_str(label), o));
        proof {
            assert(log_view(self.results@).drop_last() =~= log_view(s));
        }
    }

    /// The outcome recorded for `label`, if any.
    pub fn lookup(&self, label: &str) -> (r: Option<Outcome>)
        ensures
            r == (if self@.contains_key(label@) {
                Some(self@[label@])
            } else {
                None
            }),
    {
        let ghost full = log_view(self.results@);
        let mut i: usize = self.results.len();
        assert(full.take(i as int) =~= full);
        while i > 0
            invariant
                i <= self.results@.len(),
                full == log_view(self.results@),
                outcomes(full).contains_key(label@) == outcomes(full.take(i as int)).contains_key(label@),
                outcomes(full).contains_key(label@) ==> outcomes(full)[label@] == outcomes(full.take(i as int))[label@],
            decreases i,
        {
            let entry = &self.results[i - 1];
            assert(full.take(i as int).drop_last() =~= full.take(i - 1));
            assert(full.take(i as int).last() == (entry.0@, entry.1));
            if same_text(entry.0.as_str(), label) {
                return Some(entry.1);
            }
            proof {
                lemma_outcomes_skip_last(full.take(i as int), label@);
            }
            i = i - 1;
        }
        assert(full.take(0) =~= Seq::<(Seq<char>, Outcome)>::empty());
        None
    }

    /// Whether a conditional command with back-reference `label` and
    /// condition `c` runs; an error where `label` has no outcome yet.
    pub fn should_run(&self, label: &str, c: RunIf) -> (r: Result<bool, ExecutionError>)
        ensures
            match run_decision(self@, label@, c) {
                Some(b) => r == Ok::<bool, ExecutionError>(b),
                None => r matches Err(e) && e.label@ == label@ && e.message@ == undefined_label_msg(label@),
            },
    {
        match self.lookup(label) {
            Some(o) => Ok(
                match c {
                    RunIf::Failed => o == Outcome::Failed,
                    RunIf::Succeed => o == Outcome::Succeeded,
                },
            ),
            None => {
                let mut message = String::from_str("Back reference to an undefined or not yet produced label: ");
                message.append(label);
                Err(ExecutionError { label: String::from_str(label), message })
            },
        }
    }

    /// Whether `command` is executed: a conditional run executes where the
    /// outcome of its back-reference meets its condition, any other command
    /// always.
    pub fn decide(&self, command: &Command) -> (r: Result<Decision, ExecutionError>)
        ensures
            match condition_spec(command@.cmd) {
                None => r == Ok::<Decision, ExecutionError>(Decision::Execute),
                Some(c) => match run_decision(self@, command@.back_reference, c) {
                    Some(true) => r == Ok::<Decision, ExecutionError>(Decision::Execute),
                    Some(false) => r == Ok::<Decision, ExecutionError>(Decision::Skip),
                    None => r matches Err(e) && e.label@ == command@.back_reference,
                },
            },
    {
        match command {
            Command::RunIf(c) => {
                match self.should_run(c.back_reference.as_str(), c.run_if) {
                    Ok(true) => Ok(Decision::Execute),
                    Ok(false) => Ok(Decision::Skip),
                    Err(e) => Err(e),
                }
            },
            _ => Ok(Decision::Execute),
        }
    }

    /// Takes the outcome of an executed command: records it under the
    /// command's reference, if it has one, and says whether the scenario
    /// goes on, which it does unless the command failed without leave to.
    pub fn complete(&mut self, command: &Command, o: Outcome) -> (r: Flow)
        ensures
            final(self)@ == (if command@.reference.len() > 0 {
                after_record(old(self)@, command@.reference, o)
            } else {
                old(self)@
            }),
            r == (if o == Outcome::Failed && !can_fail_spec(command@.cmd) {
                Flow::Abort
            } else {
                Flow::Continue
            }),
    {
        let reference = command.reference();
        if reference.unicode_len() > 0 {
            self.record(reference, o);
        }
        let cmd = command.cmd();
        if o == Outcome::Failed && !cmd.can_fail() {
            Flow::Abort
        } else {
            Flow::Continue
        }
    }
}

/// A conditional command runs exactly when the outcome recorded last for
/// its back-reference meets its condition: after `label` is recorded with
/// outcome `o`, a `FAILED?` on `label` runs if and only if `o` is a
/// failure, and a `SUCCEED?` if and only if `o` is a success. A
/// back-reference to a label with no outcome has no decision.
pub proof fn lemma_conditional_follows_outcome(
    m: Map<Seq<char>, Outcome>,
    label: Seq<char>,
    o: Outcome,
    other: Seq<char>,
)
    ensures
        run_decision(after_record(m, label, o), label, RunIf::Failed) == Some(o == Outcome::Failed),
        run_decision(after_record(m, label, o), label, RunIf::Succeed) == Some(o == Outcome::Succeeded),
        !m.contains_key(other) ==> run_decision(m, other, RunIf::Failed) is None,
        !m.contains_key(other) ==> run_decision(m, other, RunIf::Succeed) is None,
{
}

} // verus!
