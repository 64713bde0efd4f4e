//! Composition of a scenario from its files: physical lines are joined into
//! logical lines, each logical line becomes a command or an error, and each
//! `INCLUDE` is followed depth-first, in place, by the commands of the file
//! that it names. The reading of files and the resolution of paths are left
//! to the caller, which answers the composer's requests.
use vstd::prelude::*;
use vstd::string::*;

use crate::command::{entry_view, from_line, line_spec, Cmd, Command, CommandView};
use crate::error::{ErrorKind, ErrorView, ScenarioError};
use crate::text::{decimal, decimal_spec, strip_continuation, texts, trim_text, trimmed, unmarked, CONTINUATION};

verus! {

/// How many files may be open, one inside the other, at once.
pub const MAX_INCLUDE_DEPTH: usize = 32;

/// The character that opens a comment line.
pub const COMMENT: char = '#';

pub open spec fn incomplete_msg() -> Seq<char> {
    "Incomplete multiline command"@
}

pub open spec fn recursive_include_msg(path: Seq<char>) -> Seq<char> {
    "Recursive INCLUDE of \""@ + path + "\""@
}

pub open spec fn too_deep_msg() -> Seq<char> {
    "INCLUDE nested too deeply"@
}

pub open spec fn too_long_msg() -> Seq<char> {
    "Scenario file has too many lines"@
}

pub type Entry = Result<CommandView, ErrorView>;

/// Whether a trimmed physical line is skipped: blank, or a comment.
pub open spec fn is_skipped(t: Seq<char>) -> bool {
    t.len() == 0 || t[0] == COMMENT
}

/// Whether a trimmed physical line continues on the next one.
pub open spec fn continues(t: Seq<char>) -> bool {
    t.len() > 0 && t[t.len() - 1] == CONTINUATION
}

/// What physical line `n` of file `file`, holding `l`, does to the pending
/// fragment `buf` of a multiline command: the new fragment, and the entry
/// of the logical line that it completes, if it completes one.
pub open spec fn line_step(file: usize, n: u32, buf: Seq<char>, l: Seq<char>) -> (Seq<char>, Option<Entry>) {
    let t = trimmed(l);
    if is_skipped(t) {
        (buf, None)
    } else if continues(t) {
        (buf + unmarked(t), None)
    } else {
        (Seq::empty(), Some(line_spec(file, n, buf + t)))
    }
}

pub open spec fn opt_seq(e: Option<Entry>) -> Seq<Entry> {
    match e {
        Some(x) => seq![x],
        None => Seq::empty(),
    }
}

/// The entries that the physical lines `lines` of file `file` give by
/// themselves, and the fragment left pending after them.
pub open spec fn scan_lines(file: usize, lines: Seq<Seq<char>>) -> (Seq<Entry>, Seq<char>)
    decreases lines.len(),
{
    if lines.len() == 0 {
        (Seq::empty(), Seq::empty())
    } else {
        let prev = scan_lines(file, lines.drop_last());
        let step = line_step(file, lines.len() as u32, prev.1, lines.last());
        (prev.0 + opt_seq(step.1), step.0)
    }
}

/// What the end of file `file`, after `n` lines, gives with fragment `buf`
/// still pending.
pub open spec fn eof_entries(file: usize, n: u32, buf: Seq<char>) -> Seq<Entry> {
    if buf.len() > 0 {
        seq![Err(ErrorView { kind: ErrorKind::Syntax, file, line: n, message: incomplete_msg() })]
    } else {
        Seq::empty()
    }
}

/// The entries of one file by itself, includes not followed.
pub open spec fn file_entries(file: usize, lines: Seq<Seq<char>>) -> Seq<Entry> {
    let s = scan_lines(file, lines);
    s.0 + eof_entries(file, lines.len() as u32, s.1)
}

pub open spec fn entries_view(v: Seq<Result<Command, ScenarioError>>) -> Seq<Entry> {
    v.map_values(|e: Result<Command, ScenarioError>| entry_view(e))
}

/// A file being composed: its lines, how many have been read, and the
/// fragment of a multiline command read so far.
struct Frame {
    file: usize,
    lines: Vec<String>,
    next: usize,
    buf: String,
}

pub struct FrameView {
    pub file: usize,
    pub lines: Seq<Seq<char>>,
    pub next: int,
    pub buf: Seq<char>,
}

impl View for Frame {
    type V = FrameView;

    closed spec fn view(&self) -> FrameView {
        FrameView { file: self.file, lines: texts(self.lines@), next: self.next as int, buf: self.buf@ }
    }
}

/// What the composer waits for.
enum Waiting {
    Nothing,
    Resolve { file: usize, line: u32, target: String },
    Read { file: usize, site: Option<(usize, u32)> },
}

pub enum WaitingView {
    Nothing,
    Resolve { file: usize, line: u32, target: Seq<char> },
    /// Waiting for the lines of `file`, included at `site` (the file and
    /// line of the `INCLUDE`; `None` for the root file).
    Read { file: usize, site: Option<(usize, u32)> },
}

/// What the composer asks of its caller next.
#[derive(Debug)]
pub enum Request {
    /// Resolve `target` against the directory of the file at `base` and
    /// answer with the canonical path, or with why it cannot be resolved.
    Resolve { base: String, target: String },
    /// Read the file at `path` and answer with its lines, or with why it
    /// cannot be read.
    Read { path: String },
    /// Composition is over.
    Done,
}

pub struct ComposerView {
    pub files: Seq<Seq<char>>,
    pub frames: Seq<FrameView>,
    pub entries: Seq<Entry>,
    pub waiting: WaitingView,
}

/// Composes a scenario from its root file, one request to its caller at a
/// time.
pub struct Composer {
    files: Vec<String>,
    frames: Vec<Frame>,
    entries: Vec<Result<Command, ScenarioError>>,
    waiting: Waiting,
}

impl View for Composer {
    type V = ComposerView;

    closed spec fn view(&self) -> ComposerView {
        ComposerView {
            files: texts(self.files@),
            frames: self.frames@.map_values(|f: Frame| f@),
            entries: entries_view(self.entries@),
            waiting: match self.waiting {
                Waiting::Nothing => WaitingView::Nothing,
                Waiting::Resolve { file, line, target } => WaitingView::Resolve {
                    file,
                    line,
                    target: target@,
                },
                Waiting::Read { file, site } => WaitingView::Read { file, site },
            },
        }
    }
}

/// The fragment of a multiline command that the lines of `f` read so far
/// leave pending.
pub open spec fn pending_fragment(f: FrameView) -> Seq<char> {
    scan_lines(f.file, f.lines.take(f.next)).1
}

/// The path of the file that frame `i` composes.
pub open spec fn frame_path(v: ComposerView, i: int) -> Seq<char> {
    v.files[v.frames[i].file as int]
}

/// Whether `path` is the path of a file being composed.
pub open spec fn on_stack(v: ComposerView, path: Seq<char>) -> bool {
    exists|i: int| 0 <= i < v.frames.len() && frame_path(v, i) == path
}

/// The invariant of a composer: frames and requests name known files, no
/// file is open twice on the stack, the stack is bounded, and every frame
/// has a line count that fits a line number.
pub open spec fn composer_wf(v: ComposerView) -> bool {
    &&& v.frames.len() <= MAX_INCLUDE_DEPTH
    &&& forall|i: int|
        0 <= i < v.frames.len() ==> {
            &&& v.frames[i].file < v.files.len()
            &&& 0 <= v.frames[i].next <= v.frames[i].lines.len()
            &&& v.frames[i].lines.len() < u32::MAX
            &&& v.frames[i].buf == pending_fragment(v.frames[i])
        }
    &&& forall|i: int, j: int|
        0 <= i < j < v.frames.len() ==> frame_path(v, i) != frame_path(v, j)
    &&& match v.waiting {
        WaitingView::Nothing => true,
        WaitingView::Resolve { file, .. } => v.frames.len() > 0 && file == v.frames.last().file,
        WaitingView::Read { file, .. } => file < v.files.len() && !on_stack(v, v.files[file as int])
            && v.frames.len() < MAX_INCLUDE_DEPTH,
    }
}

/// The frame after physical line `next` of frame `f` has been read.
pub open spec fn advanced(f: FrameView) -> FrameView {
    let step = line_step(f.file, (f.next + 1) as u32, f.buf, f.lines[f.next]);
    FrameView { file: f.file, lines: f.lines, next: f.next + 1, buf: step.0 }
}

impl Composer {
    /// A composer for the scenario whose root file is at `root`, which it
    /// asks to read first.
    pub fn new(root: String) -> (r: Composer)
        ensures
            composer_wf(r@),
            r@.files == seq![root@],
            r@.frames.len() == 0,
            r@.entries.len() == 0,
            r@.waiting == (WaitingView::Read { file: 0, site: None }),
    {
        let mut files: Vec<String> = Vec::new();
        files.push(root);
        let r = Composer { files, frames: Vec::new(), entries: Vec::new(), waiting: Waiting::Read { file: 0, site: None } };
        proof {
            assert(r@.files =~= seq![root@]);
        }
        r
    }

    /// The path of file `id` of the file table.
    pub fn file_name(&self, id: usize) -> (r: &str)
        requires
            id < self@.files.len(),
        ensures
            r@ == self@.files[id as int],
    {
        self.files[id].as_str()
    }
}

/// What a composer waits for once the entry `e` of line `n` of file `file`
/// is out: the resolution of the target, where `e` is an `INCLUDE`.
pub open spec fn waiting_after(file: usize, n: u32, e: Option<Entry>) -> WaitingView {
    match e {
        Some(Ok(c)) => if c.cmd == Cmd::Include {
            WaitingView::Resolve { file, line: n, target: c.args }
        } else {
            WaitingView::Nothing
        },
        _ => WaitingView::Nothing,
    }
}

pub open spec fn waiting_file(w: WaitingView) -> usize {
    match w {
        WaitingView::Resolve { file, .. } => file,
        WaitingView::Read { file, .. } => file,
        WaitingView::Nothing => 0,
    }
}

pub open spec fn waiting_site(w: WaitingView) -> Option<(usize, u32)> {
    match w {
        WaitingView::Read { site, .. } => site,
        _ => None,
    }
}

/// The entry for file `file`, included at `site`, that cannot be read: an
/// `INCLUDE` error at the include, or an error of the root file itself.
pub open spec fn unreadable_entry(file: usize, site: Option<(usize, u32)>, message: Seq<char>) -> Entry {
    match site {
        Some((f, l)) => include_error(f, l, message),
        None => io_error(file, message),
    }
}

pub open spec fn waiting_line(w: WaitingView) -> u32 {
    match w {
        WaitingView::Resolve { line, .. } => line,
        _ => 0,
    }
}

pub open spec fn include_error(file: usize, line: u32, message: Seq<char>) -> Entry {
    Err(ErrorView { kind: ErrorKind::Include, file, line, message })
}

pub open spec fn io_error(file: usize, message: Seq<char>) -> Entry {
    Err(ErrorView { kind: ErrorKind::Io, file, line: 0, message })
}

proof fn lemma_entries_push(v: Seq<Result<Command, ScenarioError>>, e: Result<Command, ScenarioError>)
    ensures
        entries_view(v.push(e)) == entries_view(v).push(entry_view(e)),
{
    assert(entries_view(v.push(e)) =~= entries_view(v).push(entry_view(e)));
}

proof fn lemma_frames_push(v: Seq<Frame>, f: Frame)
    ensures
        v.push(f).map_values(|x: Frame| x@) == v.map_values(|x: Frame| x@).push(f@),
{
    assert(v.push(f).map_values(|x: Frame| x@) =~= v.map_values(|x: Frame| x@).push(f@));
}

proof fn lemma_frames_drop_last(v: Seq<Frame>)
    requires
        v.len() > 0,
    ensures
        v.drop_last().map_values(|x: Frame| x@) == v.map_values(|x: Frame| x@).drop_last(),
{
    assert(v.drop_last().map_values(|x: Frame| x@) =~= v.map_values(|x: Frame| x@).drop_last());
}

proof fn lemma_texts_push(v: Seq<String>, s: String)
    ensures
        texts(v.push(s)) == texts(v).push(s@),
{
    assert(texts(v.push(s)) =~= texts(v).push(s@));
}

proof fn lemma_wf_kept(v: ComposerView, w: ComposerView)
    requires
        composer_wf(v),
        v.files.is_prefix_of(w.files),
        w.frames.len() <= v.frames.len(),
        forall|i: int|
            0 <= i < w.frames.len() ==> {
                &&& #[trigger] w.frames[i].file == v.frames[i].file
                &&& w.frames[i].lines == v.frames[i].lines
                &&& 0 <= w.frames[i].next <= w.frames[i].lines.len()
                &&& w.frames[i].buf == pending_fragment(w.frames[i])
            },
        match w.waiting {
            WaitingView::Nothing => true,
            WaitingView::Resolve { file, .. } => w.frames.len() > 0 && file == w.frames.last().file,
            WaitingView::Read { file, .. } => file < w.files.len() && !on_stack(w, w.files[file as int])
                && w.frames.len() < MAX_INCLUDE_DEPTH,
        },
    ensures
        composer_wf(w),
{
    assert forall|i: int| 0 <= i < w.frames.len() implies frame_path(w, i) == frame_path(v, i) by {
        assert(w.frames[i].file == v.frames[i].file);
    }
    assert forall|i: int, j: int| 0 <= i < j < w.frames.len() implies frame_path(w, i) != frame_path(w, j) by {
        assert(frame_path(w, i) == frame_path(v, i));
        assert(frame_path(w, j) == frame_path(v, j));
    }
}

/// What a composer owes its frames: a count that falls with every line read
/// and every file closed.
pub open spec fn pending(frames: Seq<FrameView>) -> nat
    decreases frames.len(),
{
    if frames.len() == 0 {
        0
    } else {
        let f = frames.last();
        pending(frames.drop_last()) + (if f.next < f.lines.len() {
            (f.lines.len() - f.next) as nat
        } else {
            0
        }) + 1
    }
}

/// One step of composition: the next physical line of the innermost open
/// file is read, or that file is closed once all its lines are read.
pub open spec fn step_view(v: ComposerView) -> ComposerView {
    let f = v.frames.last();
    if f.next < f.lines.len() {
        let n = (f.next + 1) as u32;
        let step = line_step(f.file, n, f.buf, f.lines[f.next]);
        ComposerView {
            files: v.files,
            frames: v.frames.drop_last().push(advanced(f)),
            entries: v.entries + opt_seq(step.1),
            waiting: waiting_after(f.file, n, step.1),
        }
    } else {
        ComposerView {
            files: v.files,
            frames: v.frames.drop_last(),
            entries: v.entries + eof_entries(f.file, f.lines.len() as u32, scan_lines(f.file, f.lines).1),
            waiting: WaitingView::Nothing,
        }
    }
}

/// At most `fuel` steps of composition, stopping where the composer waits
/// for its caller or has no file left open.
pub open spec fn run_steps(v: ComposerView, fuel: nat) -> ComposerView
    decreases fuel,
{
    if fuel == 0 || !(v.waiting is Nothing) || v.frames.len() == 0 {
        v
    } else {
        run_steps(step_view(v), (fuel - 1) as nat)
    }
}

/// Composition from `v` until the caller's help is needed or every file is
/// composed.
pub open spec fn run_to_request(v: ComposerView) -> ComposerView {
    run_steps(v, pending(v.frames))
}

proof fn lemma_step_decreases(v: ComposerView)
    requires
        v.frames.len() > 0,
    ensures
        pending(step_view(v).frames) < pending(v.frames),
{
    let f = v.frames.last();
    assert(v.frames.drop_last().push(advanced(f)).drop_last() =~= v.frames.drop_last());
}

proof fn lemma_run_fuel(v: ComposerView, k: nat)
    requires
        k >= pending(v.frames),
    ensures
        run_steps(v, k) == run_to_request(v),
    decreases k,
{
    if k > 0 && v.waiting is Nothing && v.frames.len() > 0 {
        let s = step_view(v);
        lemma_step_decreases(v);
        lemma_run_fuel(s, (k - 1) as nat);
        lemma_run_fuel(s, (pending(v.frames) - 1) as nat);
    }
}

impl Composer {
    /// Reads the next physical line of the innermost open file, or closes
    /// that file once all its lines are read.
    pub fn step(&mut self)
        requires
            composer_wf(old(self)@),
            old(self)@.waiting == WaitingView::Nothing,
            old(self)@.frames.len() > 0,
        ensures
            composer_wf(final(self)@),
            final(self)@ == step_view(old(self)@),
    {
        let ghost v = self@;
        proof {
            lemma_frames_drop_last(self.frames@);
        }
        let mut frame = self.frames.pop().unwrap();
        let ghost f = frame@;
        assert(f == v.frames.last());
        if frame.next < frame.lines.len() {
            let n: u32 = (frame.next + 1) as u32;
            let t = trim_text(frame.lines[frame.next].as_str());
            frame.next = frame.next + 1;
            let tn = t.as_str().unicode_len();
            if tn == 0 || t.as_str().get_char(0) == COMMENT {
                proof {
                    lemma_frames_push(self.frames@, frame);
                }
                self.frames.push(frame);
                assert(self@.entries =~= v.entries + opt_seq(None));
            } else if t.as_str().get_char(tn - 1) == CONTINUATION {
                let u = strip_continuation(t.as_str());
                frame.buf.append(u.as_str());
                proof {
                    lemma_frames_push(self.frames@, frame);
                }
                self.frames.push(frame);
                assert(self@.entries =~= v.entries + opt_seq(None));
            } else {
                let mut text = frame.buf.clone();
                text.append(t.as_str());
                frame.buf = String::new();
                let entry = from_line(frame.file, n, text.as_str());
                match &entry {
                    Ok(Command::Include(inc)) => {
                        self.waiting = Waiting::Resolve { file: frame.file, line: n, target: inc.args.clone() };
                    },
                    _ => {},
                }
                proof {
                    lemma_entries_push(self.entries@, entry);
                    lemma_frames_push(self.frames@, frame);
                }
                self.entries.push(entry);
                self.frames.push(frame);
                assert(self@.entries =~= v.entries + opt_seq(Some(entry_view(entry))));
            }
            assert(self@.frames =~= v.frames.drop_last().push(advanced(f)));
            proof {
                lemma_advanced_fragment(f);
            }
        } else {
            assert(f.lines.take(f.next) =~= f.lines);
            if frame.buf.as_str().unicode_len() > 0 {
                let e = Err(
                    ScenarioError::new(
                        ErrorKind::Syntax,
                        frame.file,
                        frame.lines.len() as u32,
                        String::from_str("Incomplete multiline command"),
                    ),
                );
                proof {
                    lemma_entries_push(self.entries@, e);
                }
                self.entries.push(e);
                assert(self@.entries =~= v.entries + eof_entries(f.file, f.lines.len() as u32, f.buf));
            } else {
                assert(self@.entries =~= v.entries + eof_entries(f.file, f.lines.len() as u32, f.buf));
            }
        }
        proof {
            lemma_wf_kept(v, self@);
        }
    }
}

impl Composer {
    /// Whether `path` is the path of a file being composed.
    fn is_open(&self, path: &String) -> (r: bool)
        requires
            composer_wf(self@),
        ensures
            r == on_stack(self@, path@),
    {
        let mut i: usize = 0;
        while i < self.frames.len()
            invariant
                composer_wf(self@),
                i <= self.frames@.len(),
                self@.frames.len() == self.frames@.len(),
                forall|k: int| 0 <= k < i ==> frame_path(self@, k) != path@,
            decreases self.frames@.len() - i,
        {
            let file = self.frames[i].file;
            assert(self@.frames[i as int].file == file);
            assert(self@.files[file as int] == self.files@[file as int]@);
            if self.files[file] == *path {
                assert(frame_path(self@, i as int) == path@);
                return true;
            }
            i = i + 1;
        }
        false
    }

    /// The index of `path` in the file table, added at its end where it is
    /// not there yet.
    fn intern(&mut self, path: String) -> (r: usize)
        ensures
            r < final(self)@.files.len(),
            final(self)@.files[r as int] == path@,
            old(self)@.files.is_prefix_of(final(self)@.files),
            final(self)@.frames == old(self)@.frames,
            final(self)@.entries == old(self)@.entries,
            final(self)@.waiting == old(self)@.waiting,
    {
        let mut i: usize = 0;
        while i < self.files.len()
            invariant
                i <= self.files@.len(),
            decreases self.files@.len() - i,
        {
            if self.files[i] == path {
                assert(old(self)@.files.is_prefix_of(self@.files));
                return i;
            }
            i = i + 1;
        }
        proof {
            lemma_texts_push(self.files@, path);
        }
        self.files.push(path);
        self.files.len() - 1
    }

    /// Takes the answer to a `Resolve` request: the canonical path of the
    /// included file, or why there is none. An answer that names a file
    /// already being composed, or that would open one file too many inside
    /// the others, is an error at the `INCLUDE`; any other path is read next.
    pub fn resolved(&mut self, answer: Result<String, String>)
        requires
            composer_wf(old(self)@),
            old(self)@.waiting is Resolve,
        ensures
            composer_wf(final(self)@),
            final(self)@.frames == old(self)@.frames,
            old(self)@.files.is_prefix_of(final(self)@.files),
            ({
                let v = old(self)@;
                let file = waiting_file(v.waiting);
                let line = waiting_line(v.waiting);
                match answer {
                    Err(m) => {
                        &&& final(self)@.entries == v.entries.push(include_error(file, line, m@))
                        &&& final(self)@.waiting == WaitingView::Nothing
                    },
                    Ok(p) => if on_stack(v, p@) {
                        &&& final(self)@.entries == v.entries.push(
                            include_error(file, line, recursive_include_msg(p@)),
                        )
                        &&& final(self)@.waiting == WaitingView::Nothing
                    } else if v.frames.len() >= MAX_INCLUDE_DEPTH {
                        &&& final(self)@.entries == v.entries.push(
                            include_error(file, line, too_deep_msg()),
                        )
                        &&& final(self)@.waiting == WaitingView::Nothing
                    } else {
                        &&& final(self)@.entries == v.entries
                        &&& final(self)@.waiting is Read
                        &&& final(self)@.files[waiting_file(final(self)@.waiting) as int] == p@
                        &&& waiting_site(final(self)@.waiting) == Some((file, line))
                    },
                }
            }),
    {
        let ghost v = self@;
        let (file, line) = match &self.waiting {
            Waiting::Resolve { file, line, .. } => (*file, *line),
            _ => (0, 0),
        };
        let open = match &answer {
            Ok(path) => self.is_open(path),
            Err(_) => false,
        };
        self.waiting = Waiting::Nothing;
        assert(self@.frames == v.frames && self@.files == v.files);
        let message = match answer {
            Err(m) => m,
            Ok(path) => {
                if open {
                    let mut m = String::from_str("Recursive INCLUDE of \"");
                    m.append(path.as_str());
                    m.append("\"");
                    m
                } else if self.frames.len() >= MAX_INCLUDE_DEPTH {
                    String::from_str("INCLUDE nested too deeply")
                } else {
                    let id = self.intern(path);
                    self.waiting = Waiting::Read { file: id, site: Some((file, line)) };
                    proof {
                        let w = self@;
                        assert forall|i: int| 0 <= i < w.frames.len() implies frame_path(w, i) == frame_path(v, i) by {
                            assert(v.frames[i].file < v.files.len());
                        }
                        if on_stack(w, w.files[id as int]) {
                            let i = choose|i: int| 0 <= i < w.frames.len() && frame_path(w, i) == w.files[id as int];
                            assert(frame_path(v, i) == frame_path(w, i));
                            assert(on_stack(v, w.files[id as int]));
                        }
                        lemma_wf_kept(v, w);
                    }
                    return;
                }
            },
        };
        let e = Err(ScenarioError::new(ErrorKind::Include, file, line, message));
        proof {
            lemma_entries_push(self.entries@, e);
        }
        self.entries.push(e);
        proof {
            lemma_wf_kept(v, self@);
        }
    }

    /// Takes the answer to a `Read` request: the lines of the file, or why
    /// it cannot be read. The file's lines are composed next. An included
    /// file that cannot be read is an `INCLUDE` error at the include; the
    /// root file, an error of the whole file.
    pub fn loaded(&mut self, answer: Result<Vec<String>, String>)
        requires
            composer_wf(old(self)@),
            old(self)@.waiting is Read,
        ensures
            composer_wf(final(self)@),
            final(self)@.files == old(self)@.files,
            final(self)@.waiting == WaitingView::Nothing,
            ({
                let v = old(self)@;
                let file = waiting_file(v.waiting);
                match answer {
                    Err(m) => {
                        &&& final(self)@.entries == v.entries.push(
                            unreadable_entry(file, waiting_site(v.waiting), m@),
                        )
                        &&& final(self)@.frames == v.frames
                    },
                    Ok(lines) => if lines@.len() >= u32::MAX {
                        &&& final(self)@.entries == v.entries.push(
                            unreadable_entry(file, waiting_site(v.waiting), too_long_msg()),
                        )
                        &&& final(self)@.frames == v.frames
                    } else {
                        &&& final(self)@.entries == v.entries
                        &&& final(self)@.frames == v.frames.push(
                            FrameView { file, lines: texts(lines@), next: 0, buf: Seq::empty() },
                        )
                    },
                }
            }),
    {
        let ghost v = self@;
        let (file, site) = match &self.waiting {
            Waiting::Read { file, site } => (*file, *site),
            _ => (0, None),
        };
        self.waiting = Waiting::Nothing;
        let message = match answer {
            Err(m) => m,
            Ok(lines) => {
                if lines.len() < u32::MAX as usize {
                    let frame = Frame { file, lines, next: 0, buf: String::new() };
                    proof {
                        lemma_frames_push(self.frames@, frame);
                    }
                    self.frames.push(frame);
                    proof {
                        let w = self@;
                        assert forall|i: int, j: int| 0 <= i < j < w.frames.len() implies frame_path(w, i) != frame_path(w, j) by {
                            if j < v.frames.len() {
                                assert(frame_path(w, i) == frame_path(v, i));
                                assert(frame_path(w, j) == frame_path(v, j));
                            } else {
                                assert(frame_path(w, i) == frame_path(v, i));
                            }
                        }
                        assert forall|i: int| 0 <= i < w.frames.len() implies {
                            &&& w.frames[i].file < w.files.len()
                            &&& 0 <= w.frames[i].next <= w.frames[i].lines.len()
                            &&& w.frames[i].lines.len() < u32::MAX
                            &&& w.frames[i].buf == pending_fragment(w.frames[i])
                        } by {
                            if i < v.frames.len() {
                                assert(w.frames[i] == v.frames[i]);
                            } else {
                                assert(w.frames[i].lines.take(0) =~= Seq::<Seq<char>>::empty());
                            }
                        }
                    }
                    return;
                }
                String::from_str("Scenario file has too many lines")
            },
        };
        let e = match site {
            Some((f, l)) => Err(ScenarioError::new(ErrorKind::Include, f, l, message)),
            None => Err(ScenarioError::new(ErrorKind::Io, file, 0, message)),
        };
        proof {
            lemma_entries_push(self.entries@, e);
        }
        self.entries.push(e);
        proof {
            lemma_wf_kept(v, self@);
        }
    }
}

proof fn lemma_advanced_fragment(f: FrameView)
    requires
        0 <= f.next < f.lines.len(),
        f.buf == pending_fragment(f),
    ensures
        advanced(f).buf == pending_fragment(advanced(f)),
{
    assert(f.lines.take(f.next + 1).drop_last() =~= f.lines.take(f.next));
    assert(f.lines.take(f.next + 1).last() == f.lines[f.next]);
}

impl Composer {
    /// Composes until the caller's help is needed, and says what help:
    /// the resolution of an `INCLUDE` target, the reading of a file, or
    /// nothing more, once every file has been composed.
    pub fn next_request(&mut self) -> (r: Request)
        requires
            composer_wf(old(self)@),
        ensures
            composer_wf(final(self)@),
            final(self)@ == run_to_request(old(self)@),
            match r {
                Request::Done => final(self)@.frames.len() == 0 && final(self)@.waiting
                    == WaitingView::Nothing,
                Request::Resolve { base, target } => match final(self)@.waiting {
                    WaitingView::Resolve { file, target: t, .. } => base@ == final(self)@.files[file as int]
                        && target@ == t,
                    _ => false,
                },
                Request::Read { path } => match final(self)@.waiting {
                    WaitingView::Read { file, .. } => path@ == final(self)@.files[file as int],
                    _ => false,
                },
            },
    {
        loop
            invariant
                composer_wf(self@),
                run_to_request(self@) == run_to_request(old(self)@),
            decreases pending(self@.frames),
        {
            match &self.waiting {
                Waiting::Resolve { file, target, .. } => {
                    assert(self@.files[*file as int] == self.files@[*file as int]@);
                    return Request::Resolve { base: self.files[*file].clone(), target: target.clone() };
                },
                Waiting::Read { file, .. } => {
                    assert(self@.files[*file as int] == self.files@[*file as int]@);
                    return Request::Read { path: self.files[*file].clone() };
                },
                Waiting::Nothing => {},
            }
            if self.frames.len() == 0 {
                return Request::Done;
            }
            let ghost v = self@;
            self.step();
            proof {
                lemma_step_decreases(v);
                lemma_run_fuel(self@, (pending(v.frames) - 1) as nat);
            }
        }
    }

    /// The composed scenario.
    pub fn finish(self) -> (r: Scenario)
        ensures
            r@.files == self@.files,
            r@.entries == self@.entries,
    {
        Scenario { files: self.files, entries: self.entries }
    }
}

pub struct ScenarioView {
    pub files: Seq<Seq<char>>,
    pub entries: Seq<Entry>,
}

/// A composed scenario: its file table, and its commands and errors in
/// the order of depth-first inlining.
pub struct Scenario {
    files: Vec<String>,
    entries: Vec<Result<Command, ScenarioError>>,
}

impl View for Scenario {
    type V = ScenarioView;

    closed spec fn view(&self) -> ScenarioView {
        ScenarioView { files: texts(self.files@), entries: entries_view(self.entries@) }
    }
}

impl Scenario {
    /// The entries, in order.
    pub fn commands(&self) -> (r: &Vec<Result<Command, ScenarioError>>)
        ensures
            entries_view(r@) == self@.entries,
    {
        &self.entries
    }

    /// The path of file `id` of the file table.
    pub fn file_name(&self, id: usize) -> (r: &str)
        requires
            id < self@.files.len(),
        ensures
            r@ == self@.files[id as int],
    {
        self.files[id].as_str()
    }

    pub fn file_count(&self) -> (r: usize)
        ensures
            r == self@.files.len(),
    {
        self.files.len()
    }

    /// Succeeds where no entry is an error; otherwise gives the first error.
    pub fn validate(&self) -> (r: Result<(), ScenarioError>)
        ensures
            match r {
                Ok(()) => forall|i: int| 0 <= i < self@.entries.len() ==> self@.entries[i] is Ok,
                Err(e) => exists|i: int|
                    0 <= i < self@.entries.len() && self@.entries[i] == Err::<CommandView, ErrorView>(e@)
                        && forall|j: int| 0 <= j < i ==> self@.entries[j] is Ok,
            },
    {
        let mut i: usize = 0;
        while i < self.entries.len()
            invariant
                i <= self.entries@.len(),
                self@.entries.len() == self.entries@.len(),
                forall|j: int| 0 <= j < i ==> self@.entries[j] is Ok,
            decreases self.entries@.len() - i,
        {
            match &self.entries[i] {
                Ok(_) => {},
                Err(e) => {
                    assert(self@.entries[i as int] == entry_view(self.entries@[i as int]));
                    return Err(e.duplicate());
                },
            }
            i = i + 1;
        }
        Ok(())
    }
}

/// A blank or comment line adds no entry and leaves the pending fragment
/// as it was.
pub proof fn lemma_skipped_line_adds_nothing(file: usize, n: u32, buf: Seq<char>, l: Seq<char>)
    requires
        is_skipped(trimmed(l)),
    ensures
        line_step(file, n, buf, l) == (buf, None::<Entry>),
{
}

/// A file whose last line continues a command gives, for the fragment that
/// the end of the file leaves unfinished, exactly one error, at the last
/// line, and no other entry.
pub proof fn lemma_unfinished_command_at_eof(file: usize, pre: Seq<Seq<char>>, last: Seq<char>)
    requires
        !is_skipped(trimmed(last)),
        continues(trimmed(last)),
        (scan_lines(file, pre).1 + unmarked(trimmed(last))).len() > 0,
    ensures
        file_entries(file, pre.push(last)) == scan_lines(file, pre).0 + seq![
            Err::<CommandView, ErrorView>(
                ErrorView {
                    kind: ErrorKind::Syntax,
                    file,
                    line: (pre.len() + 1) as u32,
                    message: incomplete_msg(),
                },
            ),
        ],
{
    let lines = pre.push(last);
    assert(lines.drop_last() =~= pre);
    assert(scan_lines(file, lines).0 =~= scan_lines(file, pre).0);
}

/// No file is ever composed inside itself: the files open at once are
/// distinct, and there are at most `MAX_INCLUDE_DEPTH` of them.
pub proof fn lemma_no_file_open_twice(v: ComposerView)
    requires
        composer_wf(v),
    ensures
        v.frames.len() <= MAX_INCLUDE_DEPTH,
        forall|i: int, j: int| 0 <= i < j < v.frames.len() ==> frame_path(v, i) != frame_path(v, j),
{
}


/// Whether none of `entries` is an `INCLUDE` command.
pub open spec fn includes_nothing(entries: Seq<Entry>) -> bool {
    forall|i: int| 0 <= i < entries.len() ==> !(#[trigger] entries[i] matches Ok(c) && c.cmd == Cmd::Include)
}

/// The composer `v` once the first `j` lines of its innermost file, which
/// it had not started, are read.
pub open spec fn file_read_to(v: ComposerView, j: int) -> ComposerView {
    let f = v.frames.last();
    let s = scan_lines(f.file, f.lines.take(j));
    ComposerView {
        files: v.files,
        frames: v.frames.drop_last().push(FrameView { file: f.file, lines: f.lines, next: j, buf: s.1 }),
        entries: v.entries + s.0,
        waiting: WaitingView::Nothing,
    }
}

/// The composer `v` once its innermost file is composed and closed.
pub open spec fn file_closed(v: ComposerView) -> ComposerView {
    let f = v.frames.last();
    ComposerView {
        files: v.files,
        frames: v.frames.drop_last(),
        entries: v.entries + file_entries(f.file, f.lines),
        waiting: WaitingView::Nothing,
    }
}

proof fn lemma_scan_prefix(file: usize, lines: Seq<Seq<char>>, m: int)
    requires
        0 <= m <= lines.len(),
    ensures
        scan_lines(file, lines.take(m)).0.is_prefix_of(scan_lines(file, lines).0),
    decreases lines.len(),
{
    if m == lines.len() {
        assert(lines.take(m) =~= lines);
    } else {
        assert(lines.drop_last().take(m) =~= lines.take(m));
        lemma_scan_prefix(file, lines.drop_last(), m);
    }
}

proof fn lemma_run_to_request_step(w: ComposerView)
    requires
        w.waiting is Nothing,
        w.frames.len() > 0,
    ensures
        run_to_request(w) == run_to_request(step_view(w)),
{
    lemma_step_decreases(w);
    lemma_run_fuel(step_view(w), (pending(w.frames) - 1) as nat);
}

proof fn lemma_file_rest(v: ComposerView, j: int)
    requires
        v.frames.len() > 0,
        v.frames.last().lines.len() < u32::MAX,
        0 <= j <= v.frames.last().lines.len(),
        includes_nothing(scan_lines(v.frames.last().file, v.frames.last().lines).0),
    ensures
        run_steps(file_read_to(v, j), (v.frames.last().lines.len() - j + 1) as nat) == file_closed(v),
        run_to_request(file_read_to(v, j)) == run_to_request(file_closed(v)),
    decreases v.frames.last().lines.len() - j,
{
    let f = v.frames.last();
    let w = file_read_to(v, j);
    assert(w.frames.drop_last() =~= v.frames.drop_last());
    assert(w.frames.last().file == f.file);
    lemma_run_to_request_step(w);
    if j == f.lines.len() {
        assert(f.lines.take(j) =~= f.lines);
        assert(step_view(w).entries =~= file_closed(v).entries);
        assert(step_view(w) == file_closed(v));
        assert(run_steps(step_view(w), 0) == step_view(w));
    } else {
        let n = (j + 1) as u32;
        let prev = scan_lines(f.file, f.lines.take(j));
        let step = line_step(f.file, n, prev.1, f.lines[j]);
        assert(f.lines.take(j + 1).drop_last() =~= f.lines.take(j));
        assert(f.lines.take(j + 1).last() == f.lines[j]);
        let next = scan_lines(f.file, f.lines.take(j + 1));
        assert(next.0 == prev.0 + opt_seq(step.1));
        lemma_scan_prefix(f.file, f.lines, j + 1);
        if step.1 is Some {
            assert(next.0[prev.0.len() as int] == step.1->Some_0);
            assert(scan_lines(f.file, f.lines).0[prev.0.len() as int] == step.1->Some_0);
        }
        assert(waiting_after(f.file, n, step.1) == WaitingView::Nothing);
        assert(step_view(w).entries =~= file_read_to(v, j + 1).entries);
        assert(step_view(w).frames =~= file_read_to(v, j + 1).frames);
        assert(step_view(w) == file_read_to(v, j + 1));
        lemma_file_rest(v, j + 1);
    }
}

/// A file that includes nothing is composed in place: once opened, the
/// next steps append exactly its own entries, in order, and close it, and
/// composition then goes on from there.
pub proof fn lemma_file_composed_in_place(v: ComposerView)
    requires
        composer_wf(v),
        v.waiting is Nothing,
        v.frames.len() > 0,
        v.frames.last().next == 0,
        includes_nothing(scan_lines(v.frames.last().file, v.frames.last().lines).0),
    ensures
        run_steps(v, (v.frames.last().lines.len() + 1) as nat) == file_closed(v),
        run_to_request(v) == run_to_request(file_closed(v)),
{
    let f = v.frames.last();
    assert(0 <= v.frames[v.frames.len() - 1].next);
    assert(f.lines.take(0) =~= Seq::<Seq<char>>::empty());
    assert(file_read_to(v, 0).entries =~= v.entries);
    assert(file_read_to(v, 0).frames =~= v.frames);
    assert(file_read_to(v, 0) == v);
    lemma_file_rest(v, 0);
}

/// A file of blank and comment lines alone has no entries.
pub proof fn lemma_skipped_file_has_no_entries(file: usize, lines: Seq<Seq<char>>)
    requires
        forall|i: int| 0 <= i < lines.len() ==> is_skipped(#[trigger] trimmed(lines[i])),
    ensures
        file_entries(file, lines) == Seq::<Entry>::empty(),
        scan_lines(file, lines) == (Seq::<Entry>::empty(), Seq::<char>::empty()),
    decreases lines.len(),
{
    if lines.len() > 0 {
        assert(forall|i: int| 0 <= i < lines.drop_last().len() ==> lines.drop_last()[i] == lines[i]);
        lemma_skipped_file_has_no_entries(file, lines.drop_last());
        assert(is_skipped(trimmed(lines[lines.len() - 1])));
        assert(scan_lines(file, lines).0 =~= Seq::<Entry>::empty());
    }
    assert(file_entries(file, lines) =~= Seq::<Entry>::empty());
}


/// The report of error `e` of a scenario whose file table is `files`.
pub open spec fn error_text(files: Seq<Seq<char>>, e: ErrorView) -> Seq<char> {
    let name = if e.file < files.len() { files[e.file as int] } else { "?"@ };
    match e.kind {
        ErrorKind::Syntax => "file:"@ + name + " line:"@ + decimal_spec(e.line as nat) + " message:"@
            + e.message,
        ErrorKind::Include => "file:"@ + name + " line:"@ + decimal_spec(e.line as nat)
            + " INCLUDE error\n"@ + e.message,
        ErrorKind::Io => "unable to read scenario "@ + name + "\n"@ + e.message,
    }
}

impl Scenario {
    /// The report of error `e`: its file, its line and its message.
    pub fn describe(&self, e: &ScenarioError) -> (r: String)
        ensures
            r@ == error_text(self@.files, e@),
    {
        let name = if e.file < self.files.len() {
            self.files[e.file].as_str()
        } else {
            "?"
        };
        assert(name@ == (if e.file < self@.files.len() { self@.files[e.file as int] } else { "?"@ }));
        match e.kind {
            ErrorKind::Syntax => {
                let mut r = String::from_str("file:");
                r.append(name);
                r.append(" line:");
                r.append(decimal(e.line).as_str());
                r.append(" message:");
                r.append(e.message.as_str());
                r
            },
            ErrorKind::Include => {
                let mut r = String::from_str("file:");
                r.append(name);
                r.append(" line:");
                r.append(decimal(e.line).as_str());
                r.append(" INCLUDE error\n");
                r.append(e.message.as_str());
                r
            },
            ErrorKind::Io => {
                let mut r = String::from_str("unable to read scenario ");
                r.append(name);
                r.append("\n");
                r.append(e.message.as_str());
                r
            },
        }
    }
}

} // verus!
