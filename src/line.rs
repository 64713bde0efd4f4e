//! Lexing of one logical scenario line into its four fields.
use vstd::prelude::*;
use vstd::string::*;

verus! {

/// The character that marks a reference or back-reference label.
pub const SIGIL: char = '@';

/// The field separators of a scenario line.
pub open spec fn is_blank(c: char) -> bool {
    c == ' ' || c == '\t'
}

/// The first index at or after `i` that holds no blank (or the length).
pub open spec fn skip_blanks(s: Seq<char>, i: int) -> int
    decreases s.len() - i,
{
    if i >= s.len() {
        s.len() as int
    } else if is_blank(s[i]) {
        skip_blanks(s, i + 1)
    } else {
        i
    }
}

/// The first index at or after `i` that holds a blank (or the length).
pub open spec fn token_end(s: Seq<char>, i: int) -> int
    decreases s.len() - i,
{
    if i >= s.len() {
        s.len() as int
    } else if is_blank(s[i]) {
        i
    } else {
        token_end(s, i + 1)
    }
}

/// The four fields of a line, as sequences of characters. An absent
/// reference, back-reference or argument string is empty; a present label
/// keeps its sigil.
pub struct LineFields {
    pub reference: Seq<char>,
    pub command: Seq<char>,
    pub back_reference: Seq<char>,
    pub args: Seq<char>,
}

/// Where the keyword starts: after the reference token, if the line opens
/// with one.
pub open spec fn command_start(s: Seq<char>) -> int {
    let a = skip_blanks(s, 0);
    if a < s.len() && s[a] == SIGIL {
        skip_blanks(s, token_end(s, a))
    } else {
        a
    }
}

pub open spec fn reference_of(s: Seq<char>) -> Seq<char> {
    let a = skip_blanks(s, 0);
    if a < s.len() && s[a] == SIGIL {
        s.subrange(a, token_end(s, a))
    } else {
        Seq::empty()
    }
}

/// The fields that a line holds, or `None` where it holds no keyword.
pub open spec fn parse_spec(s: Seq<char>) -> Option<LineFields> {
    let c0 = command_start(s);
    if c0 >= s.len() {
        None
    } else {
        let c1 = token_end(s, c0);
        let b0 = skip_blanks(s, c1);
        if b0 < s.len() && s[b0] == SIGIL {
            let b1 = token_end(s, b0);
            Some(
                LineFields {
                    reference: reference_of(s),
                    command: s.subrange(c0, c1),
                    back_reference: s.subrange(b0, b1),
                    args: s.subrange(skip_blanks(s, b1), s.len() as int),
                },
            )
        } else {
            Some(
                LineFields {
                    reference: reference_of(s),
                    command: s.subrange(c0, c1),
                    back_reference: Seq::empty(),
                    args: s.subrange(b0, s.len() as int),
                },
            )
        }
    }
}

/// The canonical rendering of a line: the four fields, each followed by
/// one space but the last.
pub open spec fn line_text(f: LineFields) -> Seq<char> {
    f.reference + seq![' '] + f.command + seq![' '] + f.back_reference + seq![' '] + f.args
}

/// The message of a line without a keyword.
pub open spec fn missing_command_msg() -> Seq<char> {
    "missing command in line"@
}

/// A line that holds no keyword.
#[derive(Debug)]
pub struct ParseError {
    pub message: String,
}

/// One lexed line. Absent fields are empty strings; labels keep their sigil.
#[derive(Debug)]
pub struct ParsedLine {
    pub reference: String,
    pub command: String,
    pub back_reference: String,
    pub args: String,
}

impl View for ParsedLine {
    type V = LineFields;

    open spec fn view(&self) -> LineFields {
        LineFields {
            reference: self.reference@,
            command: self.command@,
            back_reference: self.back_reference@,
            args: self.args@,
        }
    }
}

/// A grammar rule that a line broke.
#[derive(Debug)]
pub struct ValidationError {
    pub message: String,
}

pub open spec fn reference_forbidden_msg() -> Seq<char> {
    "Reference is not allowed for this command"@
}

pub open spec fn back_reference_required_msg() -> Seq<char> {
    "This command requires back reference to be specified"@
}

pub open spec fn back_reference_forbidden_msg() -> Seq<char> {
    "Back reference is not allowed for this command"@
}

pub open spec fn args_required_msg() -> Seq<char> {
    "This command requires some arguments"@
}

pub open spec fn args_forbidden_msg() -> Seq<char> {
    "This command does not expect any arguments"@
}

fn blank(c: char) -> (r: bool)
    ensures
        r == is_blank(c),
{
    c == ' ' || c == '\t'
}

fn skip_blank_chars(s: &str, n: usize, i: usize) -> (r: usize)
    requires
        n == s@.len(),
        i <= n,
    ensures
        r == skip_blanks(s@, i as int),
        i <= r <= n,
{
    let mut j = i;
    while j < n && blank(s.get_char(j))
        invariant
            n == s@.len(),
            i <= j <= n,
            skip_blanks(s@, i as int) == skip_blanks(s@, j as int),
        decreases n - j,
    {
        j = j + 1;
    }
    j
}

fn token_end_index(s: &str, n: usize, i: usize) -> (r: usize)
    requires
        n == s@.len(),
        i <= n,
    ensures
        r == token_end(s@, i as int),
        i <= r <= n,
{
    let mut j = i;
    while j < n && !blank(s.get_char(j))
        invariant
            n == s@.len(),
            i <= j <= n,
            token_end(s@, i as int) == token_end(s@, j as int),
        decreases n - j,
    {
        j = j + 1;
    }
    j
}

fn slice_text(s: &str, from: usize, to: usize) -> (r: String)
    requires
        from <= to <= s@.len(),
    ensures
        r@ == s@.subrange(from as int, to as int),
{
    String::from_str(s.substring_char(from, to))
}

/// Lexes one logical line: an optional `@reference`, the keyword, an
/// optional `@back-reference` right after it, and the rest of the line as
/// arguments. Blanks separate the fields and collapse.
pub fn parse(s: &str) -> (r: Result<ParsedLine, ParseError>)
    ensures
        match r {
            Ok(p) => parse_spec(s@) == Some(p@),
            Err(e) => parse_spec(s@) is None && e.message@ == missing_command_msg(),
        },
{
    let n = s.unicode_len();
    let a = skip_blank_chars(s, n, 0);
    let mut reference = String::new();
    let mut c0 = a;
    if a < n && s.get_char(a) == SIGIL {
        let e = token_end_index(s, n, a);
        reference = slice_text(s, a, e);
        c0 = skip_blank_chars(s, n, e);
    }
    if c0 >= n {
        return Err(ParseError { message: String::from_str("missing command in line") });
    }
    let c1 = token_end_index(s, n, c0);
    let command = slice_text(s, c0, c1);
    let b0 = skip_blank_chars(s, n, c1);
    if b0 < n && s.get_char(b0) == SIGIL {
        let b1 = token_end_index(s, n, b0);
        let back_reference = slice_text(s, b0, b1);
        let a0 = skip_blank_chars(s, n, b1);
        let args = slice_text(s, a0, n);
        Ok(ParsedLine { reference, command, back_reference, args })
    } else {
        let args = slice_text(s, b0, n);
        Ok(ParsedLine { reference, command, back_reference: String::new(), args })
    }
}

impl ParsedLine {
    /// A line made of the given fields, taken as they are.
    pub fn new(reference: &str, command: &str, back_reference: &str, args: &str) -> (r: ParsedLine)
        ensures
            r@ == (LineFields {
                reference: reference@,
                command: command@,
                back_reference: back_reference@,
                args: args@,
            }),
    {
        ParsedLine {
            reference: String::from_str(reference),
            command: String::from_str(command),
            back_reference: String::from_str(back_reference),
            args: String::from_str(args),
        }
    }

    pub fn has_reference(&self) -> (r: bool)
        ensures
            r == (self@.reference.len() > 0),
    {
        self.reference.as_str().unicode_len() > 0
    }

    pub fn has_back_reference(&self) -> (r: bool)
        ensures
            r == (self@.back_reference.len() > 0),
    {
        self.back_reference.as_str().unicode_len() > 0
    }

    pub fn has_args(&self) -> (r: bool)
        ensures
            r == (self@.args.len() > 0),
    {
        self.args.as_str().unicode_len() > 0
    }

    /// The rule that the line carries no reference.
    pub fn has_no_reference(&self) -> (r: Result<(), ValidationError>)
        ensures
            r is Ok <==> self@.reference.len() == 0,
            r matches Err(e) ==> e.message@ == reference_forbidden_msg(),
    {
        if self.has_reference() {
            return Err(ValidationError { message: String::from_str("Reference is not allowed for this command") });
        }
        Ok(())
    }

    /// The rule that the line carries a back-reference.
    pub fn require_back_reference(&self) -> (r: Result<(), ValidationError>)
        ensures
            r is Ok <==> self@.back_reference.len() > 0,
            r matches Err(e) ==> e.message@ == back_reference_required_msg(),
    {
        if !self.has_back_reference() {
            return Err(ValidationError { message: String::from_str("This command requires back reference to be specified") });
        }
        Ok(())
    }

    /// The rule that the line carries no back-reference.
    pub fn has_no_back_reference(&self) -> (r: Result<(), ValidationError>)
        ensures
            r is Ok <==> self@.back_reference.len() == 0,
            r matches Err(e) ==> e.message@ == back_reference_forbidden_msg(),
    {
        if self.has_back_reference() {
            return Err(ValidationError { message: String::from_str("Back reference is not allowed for this command") });
        }
        Ok(())
    }

    /// The rule that the line carries arguments.
    pub fn require_args(&self) -> (r: Result<(), ValidationError>)
        ensures
            r is Ok <==> self@.args.len() > 0,
            r matches Err(e) ==> e.message@ == args_required_msg(),
    {
        if !self.has_args() {
            return Err(ValidationError { message: String::from_str("This command requires some arguments") });
        }
        Ok(())
    }

    /// The rule that the line carries no arguments.
    pub fn has_no_args(&self) -> (r: Result<(), ValidationError>)
        ensures
            r is Ok <==> self@.args.len() == 0,
            r matches Err(e) ==> e.message@ == args_forbidden_msg(),
    {
        if self.has_args() {
            return Err(ValidationError { message: String::from_str("This command does not expect any arguments") });
        }
        Ok(())
    }

    /// The canonical rendering: `"{reference} {command} {back_reference} {args}"`.
    pub fn display(&self) -> (r: String)
        ensures
            r@ == line_text(self@),
    {
        render_fields(
            self.reference.as_str(),
            self.command.as_str(),
            self.back_reference.as_str(),
            self.args.as_str(),
        )
    }
}

impl std::str::FromStr for ParsedLine {
    type Err = ParseError;

    fn from_str(s: &str) -> Result<ParsedLine, ParseError> {
        parse(s)
    }
}

/// The four fields joined by single spaces.
pub fn render_fields(reference: &str, command: &str, back_reference: &str, args: &str) -> (r: String)
    ensures
        r@ == line_text(
            LineFields {
                reference: reference@,
                command: command@,
                back_reference: back_reference@,
                args: args@,
            },
        ),
{
    let sep = " ";
    proof {
        reveal_strlit(" ");
    }
    let mut r = String::from_str(reference);
    r.append(sep);
    r.append(command);
    r.append(sep);
    r.append(back_reference);
    r.append(sep);
    r.append(args);
    r
}

/// The shape of the fields that lexing gives: labels and keyword hold no
/// blank, the keyword is not empty and opens with the sigil only after a
/// reference, a present label opens with the sigil, and the arguments
/// open with neither a blank nor, without a back-reference, the sigil.
pub open spec fn fields_wf(f: LineFields) -> bool {
    &&& forall|k: int| 0 <= k < f.reference.len() ==> !is_blank(#[trigger] f.reference[k])
    &&& forall|k: int| 0 <= k < f.command.len() ==> !is_blank(#[trigger] f.command[k])
    &&& forall|k: int| 0 <= k < f.back_reference.len() ==> !is_blank(#[trigger] f.back_reference[k])
    &&& f.command.len() > 0
    &&& f.reference.len() > 0 ==> f.reference[0] == SIGIL
    &&& f.reference.len() == 0 ==> f.command[0] != SIGIL
    &&& f.back_reference.len() > 0 ==> f.back_reference[0] == SIGIL
    &&& f.args.len() > 0 ==> !is_blank(f.args[0])
    &&& (f.back_reference.len() == 0 && f.args.len() > 0) ==> f.args[0] != SIGIL
}

proof fn lemma_skip_blanks(s: Seq<char>, i: int)
    requires
        0 <= i <= s.len(),
    ensures
        i <= skip_blanks(s, i) <= s.len(),
        skip_blanks(s, i) < s.len() ==> !is_blank(s[skip_blanks(s, i)]),
    decreases s.len() - i,
{
    if i < s.len() && is_blank(s[i]) {
        lemma_skip_blanks(s, i + 1);
    }
}

proof fn lemma_token_end(s: Seq<char>, i: int)
    requires
        0 <= i <= s.len(),
    ensures
        i <= token_end(s, i) <= s.len(),
        forall|k: int| i <= k < token_end(s, i) ==> !is_blank(#[trigger] s[k]),
    decreases s.len() - i,
{
    if i < s.len() && !is_blank(s[i]) {
        lemma_token_end(s, i + 1);
    }
}

proof fn lemma_skip_blanks_to(s: Seq<char>, i: int, j: int)
    requires
        0 <= i <= j <= s.len(),
        forall|k: int| i <= k < j ==> is_blank(#[trigger] s[k]),
        j == s.len() || !is_blank(s[j]),
    ensures
        skip_blanks(s, i) == j,
    decreases j - i,
{
    if i < j {
        lemma_skip_blanks_to(s, i + 1, j);
    }
}

proof fn lemma_token_end_at(s: Seq<char>, i: int, j: int)
    requires
        0 <= i <= j <= s.len(),
        forall|k: int| i <= k < j ==> !is_blank(#[trigger] s[k]),
        j == s.len() || is_blank(s[j]),
    ensures
        token_end(s, i) == j,
    decreases j - i,
{
    if i < j {
        lemma_token_end_at(s, i + 1, j);
    }
}

/// What lexing gives has the shape of `fields_wf`.
pub proof fn lemma_parse_wf(s: Seq<char>)
    requires
        parse_spec(s) is Some,
    ensures
        fields_wf(parse_spec(s)->Some_0),
{
    let f = parse_spec(s)->Some_0;
    let a = skip_blanks(s, 0);
    lemma_skip_blanks(s, 0);
    if a < s.len() && s[a] == SIGIL {
        lemma_token_end(s, a);
        lemma_token_end(s, a + 1);
        assert(token_end(s, a) == token_end(s, a + 1));
        lemma_skip_blanks(s, token_end(s, a));
        assert(f.reference[0] == s[a]);
    }
    let c0 = command_start(s);
    lemma_token_end(s, c0);
    lemma_token_end(s, c0 + 1);
    assert(token_end(s, c0) == token_end(s, c0 + 1));
    let c1 = token_end(s, c0);
    lemma_skip_blanks(s, c1);
    let b0 = skip_blanks(s, c1);
    assert(f.command[0] == s[c0]);
    if b0 < s.len() && s[b0] == SIGIL {
        lemma_token_end(s, b0);
        lemma_token_end(s, b0 + 1);
        assert(token_end(s, b0) == token_end(s, b0 + 1));
        lemma_skip_blanks(s, token_end(s, b0));
        assert(f.back_reference[0] == s[b0]);
    }
}

/// The canonical rendering of well-formed fields lexes back to them.
pub proof fn lemma_render_parses_back(f: LineFields)
    requires
        fields_wf(f),
    ensures
        parse_spec(line_text(f)) == Some(f),
{
    let t = line_text(f);
    let r = f.reference.len() as int;
    let c = f.command.len() as int;
    let b = f.back_reference.len() as int;
    let a = f.args.len() as int;
    let p = r + 2 + c + b;
    assert(t.len() == p + 1 + a);
    assert forall|k: int| 0 <= k < r implies t[k] == f.reference[k] by {}
    assert(t[r] == ' ');
    assert forall|k: int| 0 <= k < c implies t[r + 1 + k] == f.command[k] by {}
    assert(t[r + 1 + c] == ' ');
    assert forall|k: int| 0 <= k < b implies t[r + 2 + c + k] == f.back_reference[k] by {}
    assert(t[p] == ' ');
    assert forall|k: int| 0 <= k < a implies t[p + 1 + k] == f.args[k] by {}
    // the reference
    if r > 0 {
        lemma_skip_blanks_to(t, 0, 0);
        assert forall|k: int| 0 <= k < r implies !is_blank(#[trigger] t[k]) by {
            assert(t[k] == f.reference[k]);
        }
        lemma_token_end_at(t, 0, r);
        assert(t.subrange(0, r) =~= f.reference);
        assert(t[r + 1] == f.command[0]);
        lemma_skip_blanks_to(t, r, r + 1);
    } else {
        assert(t[1] == f.command[0]);
        lemma_skip_blanks_to(t, 0, 1);
        assert(reference_of(t) =~= f.reference);
    }
    assert(command_start(t) == r + 1);
    // the keyword
    assert forall|k: int| r + 1 <= k < r + 1 + c implies !is_blank(#[trigger] t[k]) by {
        assert(t[r + 1 + (k - r - 1)] == f.command[k - r - 1]);
    }
    lemma_token_end_at(t, r + 1, r + 1 + c);
    assert(t.subrange(r + 1, r + 1 + c) =~= f.command);
    // the back-reference and the arguments
    if b > 0 {
        assert(t[r + 2 + c] == f.back_reference[0]);
        lemma_skip_blanks_to(t, r + 1 + c, r + 2 + c);
        assert forall|k: int| r + 2 + c <= k < p implies !is_blank(#[trigger] t[k]) by {
            assert(t[r + 2 + c + (k - r - 2 - c)] == f.back_reference[k - r - 2 - c]);
        }
        lemma_token_end_at(t, r + 2 + c, p);
        assert(t.subrange(r + 2 + c, p) =~= f.back_reference);
        if a > 0 {
            assert(t[p + 1] == f.args[0]);
        }
        lemma_skip_blanks_to(t, p, p + 1);
        assert(t.subrange(p + 1, t.len() as int) =~= f.args);
    } else {
        if a > 0 {
            assert(t[p + 1] == f.args[0]);
        }
        lemma_skip_blanks_to(t, r + 1 + c, p + 1);
        assert(t.subrange(p + 1, t.len() as int) =~= f.args);
        assert(f.back_reference =~= Seq::<char>::empty());
    }
}

/// Rendering a lexed line and lexing the rendering again gives the same
/// four fields.
pub proof fn lemma_display_round_trip(s: Seq<char>)
    requires
        parse_spec(s) is Some,
    ensures
        parse_spec(line_text(parse_spec(s)->Some_0)) == parse_spec(s),
{
    lemma_parse_wf(s);
    lemma_render_parses_back(parse_spec(s)->Some_0);
}

/// A line of blanks alone holds no keyword.
pub proof fn lemma_blank_line_has_no_command(s: Seq<char>)
    requires
        forall|k: int| 0 <= k < s.len() ==> is_blank(#[trigger] s[k]),
    ensures
        parse_spec(s) is None,
{
    lemma_skip_blanks_to(s, 0, s.len() as int);
}

} // verus!
