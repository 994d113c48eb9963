//! The outcome grammar parser: a test file may declare, on its first line,
//! that it is expected to abort with particular error messages.  The
//! directive has the form
//! `// fails_with = "<message>"[, "<message>", ...]`.
//! Any other first line means the test is expected to finish cleanly.

use vstd::prelude::*;

use crate::text::{find_char, find_from, trim_spec, trim_str};

verus! {

/// The outcome a test file declares for itself.
#[derive(Debug, PartialEq)]
pub enum TestOutcome {
    /// The pipeline is expected to run every stage successfully.
    Finished,
    /// Some stage is expected to fail, with a standard-error text that
    /// contains every one of these messages.
    Aborted { error_messages: Vec<String> },
}

/// Specification-level image of [`TestOutcome`].
pub ghost enum OutcomeSpec {
    Finished,
    Aborted { required: Seq<Seq<char>> },
}

impl View for TestOutcome {
    type V = OutcomeSpec;

    open spec fn view(&self) -> OutcomeSpec {
        match self {
            TestOutcome::Finished => OutcomeSpec::Finished,
            TestOutcome::Aborted { error_messages } => OutcomeSpec::Aborted {
                required: error_messages.deep_view(),
            },
        }
    }
}

/// A malformed directive: a declared message was not a properly quoted
/// literal.
#[derive(Debug, PartialEq, Eq, Structural, Clone, Copy)]
pub enum DirectiveError {
    /// A message did not begin with a double quote.
    MissingOpeningQuote,
    /// A message began with a double quote but did not end with one.
    MissingClosingQuote,
}

/// The keyword that introduces a failure directive.
pub open spec fn fails_with_keyword() -> Seq<char> {
    seq!['f', 'a', 'i', 'l', 's', '_', 'w', 'i', 't', 'h']
}

/// One declared message: after trimming it must start and end with a double
/// quote; the message is the text between the quotes.
pub open spec fn parse_message(piece: Seq<char>) -> Result<Seq<char>, DirectiveError> {
    let t = trim_spec(piece);
    if t.len() == 0 || t[0] != '"' {
        Err(DirectiveError::MissingOpeningQuote)
    } else if t.len() < 2 || t[t.len() - 1] != '"' {
        Err(DirectiveError::MissingClosingQuote)
    } else {
        Ok(t.subrange(1, t.len() - 1))
    }
}

/// The comma-separated list of declared messages, in declaration order; the
/// first malformed entry, if any, decides the error.
pub open spec fn parse_message_list(s: Seq<char>) -> Result<Seq<Seq<char>>, DirectiveError>
    decreases s.len(),
    via parse_message_list_decreases
{
    let e = find_from(s, ',', 0);
    match parse_message(s.subrange(0, e)) {
        Err(err) => Err(err),
        Ok(m) => if e == s.len() {
            Ok(seq![m])
        } else {
            match parse_message_list(s.subrange(e + 1, s.len() as int)) {
                Err(err) => Err(err),
                Ok(ms) => Ok(seq![m] + ms),
            }
        },
    }
}

#[via_fn]
proof fn parse_message_list_decreases(s: Seq<char>) {
    crate::text::lemma_find_from(s, ',', 0);
}

/// A parsed message list always holds at least one message.
pub proof fn lemma_message_list_nonempty(s: Seq<char>)
    ensures
        parse_message_list(s) matches Ok(ms) ==> ms.len() >= 1,
    decreases s.len(),
{
    crate::text::lemma_find_from(s, ',', 0);
    let e = find_from(s, ',', 0);
    if parse_message(s.subrange(0, e)) is Ok && e < s.len() {
        lemma_message_list_nonempty(s.subrange(e + 1, s.len() as int));
    }
}

/// The first line of a file: everything before the first line feed.
pub open spec fn first_line_of(text: Seq<char>) -> Seq<char> {
    text.subrange(0, find_from(text, '\n', 0))
}

/// The expectation a file's text declares.  The first line is trimmed; if it
/// does not begin with `//` the test is expected to finish.  Otherwise the
/// comment text is split at its first two `=` signs: when the left-hand side
/// trims to `fails_with`, the right-hand side is parsed as a message list,
/// and any other shape again means the test is expected to finish.
pub open spec fn spec_expected_outcome(text: Seq<char>) -> Result<OutcomeSpec, DirectiveError> {
    let line = trim_spec(first_line_of(text));
    if !(line.len() >= 2 && line[0] == '/' && line[1] == '/') {
        Ok(OutcomeSpec::Finished)
    } else {
        let cmd = trim_spec(line.subrange(2, line.len() as int));
        let e1 = find_from(cmd, '=', 0);
        if e1 == cmd.len() {
            Ok(OutcomeSpec::Finished)
        } else if trim_spec(cmd.subrange(0, e1)) != fails_with_keyword() {
            Ok(OutcomeSpec::Finished)
        } else {
            match parse_message_list(trim_spec(cmd.subrange(e1 + 1, find_from(cmd, '=', e1 + 1)))) {
                Ok(ms) => Ok(OutcomeSpec::Aborted { required: ms }),
                Err(err) => Err(err),
            }
        }
    }
}

/// The first line carries no failure directive: it is not a comment, or the
/// comment has no `=`, or its left-hand side is not the keyword.
pub open spec fn lacks_directive(text: Seq<char>) -> bool {
    let line = trim_spec(first_line_of(text));
    if !(line.len() >= 2 && line[0] == '/' && line[1] == '/') {
        true
    } else {
        let cmd = trim_spec(line.subrange(2, line.len() as int));
        let e1 = find_from(cmd, '=', 0);
        e1 == cmd.len() || trim_spec(cmd.subrange(0, e1)) != fails_with_keyword()
    }
}

/// A test file lacking a directive is always expected to finish
/// successfully.
pub proof fn lemma_no_directive_means_finished(text: Seq<char>)
    requires
        lacks_directive(text),
    ensures
        spec_expected_outcome(text) == Ok::<OutcomeSpec, DirectiveError>(OutcomeSpec::Finished),
{
}

/// Only the first line decides the expectation: two files with the same
/// first line declare the same outcome, whatever follows.
pub proof fn lemma_only_first_line_matters(a: Seq<char>, b: Seq<char>)
    requires
        first_line_of(a) == first_line_of(b),
    ensures
        spec_expected_outcome(a) == spec_expected_outcome(b),
{
}

/// Decides whether `s` reads exactly `fails_with`.
fn is_fails_with_keyword(s: &str) -> (b: bool)
    ensures
        b == (s@ == fails_with_keyword()),
{
    let kw: Vec<char> = vec!['f', 'a', 'i', 'l', 's', '_', 'w', 'i', 't', 'h'];
    proof {
        assert(kw@ =~= fails_with_keyword());
    }
    let n = s.unicode_len();
    if n != kw.len() {
        return false;
    }
    let mut i: usize = 0;
    while i < n
        invariant
            0 <= i <= n,
            n == s@.len() == kw@.len(),
            kw@ == fails_with_keyword(),
            forall|t: int| 0 <= t < i ==> s@[t] == kw@[t],
        decreases n - i,
    {
        if s.get_char(i) != kw[i] {
            return false;
        }
        i = i + 1;
    }
    proof {
        assert(s@ =~= kw@);
    }
    true
}

/// Parses one trimmed, quoted message.
fn parse_message_piece(piece: &str) -> (r: Result<String, DirectiveError>)
    ensures
        match r {
            Ok(m) => parse_message(piece@) == Ok::<Seq<char>, DirectiveError>(m@),
            Err(e) => parse_message(piece@) == Err::<Seq<char>, DirectiveError>(e),
        },
{
    let t = trim_str(piece);
    let n = t.unicode_len();
    if n == 0 || t.get_char(0) != '"' {
        return Err(DirectiveError::MissingOpeningQuote);
    }
    if n < 2 || t.get_char(n - 1) != '"' {
        return Err(DirectiveError::MissingClosingQuote);
    }
    Ok(t.substring_char(1, n - 1).to_owned())
}

/// Parses a comma-separated list of quoted messages.
fn parse_message_list_str(s: &str) -> (r: Result<Vec<String>, DirectiveError>)
    ensures
        match r {
            Ok(v) => parse_message_list(s@) == Ok::<Seq<Seq<char>>, DirectiveError>(v.deep_view()),
            Err(e) => parse_message_list(s@) == Err::<Seq<Seq<char>>, DirectiveError>(e),
        },
    decreases s@.len(),
{
    let len = s.unicode_len();
    let e = find_char(s, 0, ',');
    let piece = s.substring_char(0, e);
    match parse_message_piece(piece) {
        Err(err) => Err(err),
        Ok(m) => {
            if e == len {
                let mut v: Vec<String> = Vec::new();
                v.push(m);
                proof {
                    assert(v.deep_view() =~= seq![m@]);
                }
                Ok(v)
            } else {
                match parse_message_list_str(s.substring_char(e + 1, len)) {
                    Err(err) => Err(err),
                    Ok(rest) => {
                        let ghost rest0 = rest.deep_view();
                        let mut v = rest;
                        v.insert(0, m);
                        proof {
                            assert(v.deep_view() =~= seq![m@] + rest0);
                        }
                        Ok(v)
                    },
                }
            }
        },
    }
}

/// Reads the expectation a test file declares on its first line.  Any first
/// line other than a well-formed `fails_with` comment yields `Finished`; a
/// comment with the keyword but malformed quoting is the one parse error.
pub fn determine_expected_outcome(text: &str) -> (r: Result<TestOutcome, DirectiveError>)
    ensures
        match r {
            Ok(o) => spec_expected_outcome(text@) == Ok::<OutcomeSpec, DirectiveError>(o@),
            Err(e) => spec_expected_outcome(text@) == Err::<OutcomeSpec, DirectiveError>(e),
        },
        lacks_directive(text@) ==> (r matches Ok(o) && o@ == OutcomeSpec::Finished),
        match r {
            Ok(o) => (o@ matches OutcomeSpec::Aborted { required } ==> required.len() >= 1),
            Err(_) => true,
        },
{
    let nl = find_char(text, 0, '\n');
    let line = trim_str(text.substring_char(0, nl));
    let n = line.unicode_len();
    if !(n >= 2 && line.get_char(0) == '/' && line.get_char(1) == '/') {
        return Ok(TestOutcome::Finished);
    }
    let cmd = trim_str(line.substring_char(2, n));
    let m = cmd.unicode_len();
    let e1 = find_char(cmd, 0, '=');
    if e1 == m {
        return Ok(TestOutcome::Finished);
    }
    let lhs = trim_str(cmd.substring_char(0, e1));
    if !is_fails_with_keyword(lhs) {
        return Ok(TestOutcome::Finished);
    }
    let e2 = find_char(cmd, e1 + 1, '=');
    let rhs = trim_str(cmd.substring_char(e1 + 1, e2));
    proof {
        lemma_message_list_nonempty(rhs@);
    }
    match parse_message_list_str(rhs) {
        Ok(error_messages) => Ok(TestOutcome::Aborted { error_messages }),
        Err(err) => Err(err),
    }
}

/// The diagnostic text for a quoting error, naming the offending file.
pub open spec fn directive_error_text(e: DirectiveError, filename: Seq<char>) -> Seq<char> {
    match e {
        DirectiveError::MissingOpeningQuote => "\" prefix not found in "@ + filename,
        DirectiveError::MissingClosingQuote => "\" suffix not found in "@ + filename,
    }
}

/// Renders a [`DirectiveError`] as the diagnostic text for one test file.
pub fn directive_error_message(e: &DirectiveError, filename: &str) -> (s: String)
    ensures
        s@ == directive_error_text(*e, filename@),
{
    let mut s = String::new();
    match e {
        DirectiveError::MissingOpeningQuote => s.append("\" prefix not found in "),
        DirectiveError::MissingClosingQuote => s.append("\" suffix not found in "),
    }
    s.append(filename);
    proof {
        assert(s@ =~= directive_error_text(*e, filename@));
    }
    s
}

} // verus!
