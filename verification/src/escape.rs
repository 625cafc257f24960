//! Stripping of terminal control sequences from captured lines.
//!
//! A control sequence (CSI) is the escape character, `[`, any number of
//! parameter characters (`0` to `?`), any number of intermediate characters
//! (space to `/`) and one final character (`@` to `~`). Stripping removes
//! every such sequence, scanning from the left, and keeps all other
//! characters in place.

use vstd::prelude::*;

verus! {

/// `regex::Regex`, a compiled pattern. Nothing inside it is seen here.
#[verifier::external_type_specification]
#[verifier::external_body]
pub struct ExRegex(::regex::Regex);

/// `regex::Error`, why a pattern was turned down. Nothing inside it is seen
/// here.
#[verifier::external_type_specification]
#[verifier::external_body]
pub struct ExRegexError(::regex::Error);

/// Whether the regex engine accepts `pattern`: it parses, and what it
/// compiles to stays under the engine's default size limit.
pub uninterp spec fn regex_accepts(pattern: Seq<char>) -> bool;

/// The pattern of a control sequence, in the syntax of the regex engine.
pub const CSI_PATTERN: &'static str = r"\x1b\[([\x30-\x3f]*[\x20-\x2f]*[\x40-\x7e])";

/// Calls `regex::Regex::new`. The engine compiles the same pattern to the
/// same outcome every time; `regex_accepts` names whether it succeeds.
#[verifier::external_body]
fn compile(pattern: &str) -> (res: Result<::regex::Regex, ::regex::Error>)
    ensures
        res is Ok <==> regex_accepts(pattern@),
{
    ::regex::Regex::new(pattern)
}

/// The stripper of control sequences: the compiled [`CSI_PATTERN`].
pub struct ClearRegex {
    inner: ::regex::Regex,
}

impl ClearRegex {
    /// Compiles the stripper. `None` when the regex engine turns the pattern
    /// down.
    pub fn new() -> (res: Option<Self>)
        ensures
            res is Some <==> regex_accepts(CSI_PATTERN@),
    {
        match compile(CSI_PATTERN) {
            Ok(inner) => Some(ClearRegex { inner }),
            Err(_) => None,
        }
    }

    /// Calls `regex::Regex::replace_all` on the compiled [`CSI_PATTERN`], which
    /// is the only pattern a `ClearRegex` is built from. The engine
    /// replaces every match, found from the left and without overlap, by the
    /// replacement. A match of this pattern is one control sequence, and from a
    /// given start at most one match exists because the three character
    /// classes do not overlap. With the empty replacement the result is the
    /// line with every control sequence removed.
    #[verifier::external_body]
    fn replace_all(&self, haystack: &str, replacement: &str) -> (res: String)
        requires
            replacement@.len() == 0,
        ensures
            res@ == strip_csi(haystack@),
    {
        self.inner.replace_all(haystack, replacement).to_string()
    }

    /// The line with every control sequence removed.
    pub fn clear(&self, line: String) -> (res: String)
        ensures
            res@ == strip_csi(line@),
    {
        proof {
            reveal_strlit("");
        }
        self.replace_all(line.as_str(), "")
    }
}

/// The escape character that opens a control sequence.
pub open spec fn is_escape(c: char) -> bool {
    c == '\u{1b}'
}

/// A parameter character of a control sequence.
pub open spec fn is_parameter(c: char) -> bool {
    '\u{30}' <= c <= '\u{3f}'
}

/// An intermediate character of a control sequence.
pub open spec fn is_intermediate(c: char) -> bool {
    '\u{20}' <= c <= '\u{2f}'
}

/// A final character of a control sequence.
pub open spec fn is_final(c: char) -> bool {
    '\u{40}' <= c <= '\u{7e}'
}

/// The first position at or after `i` that holds no parameter character.
pub open spec fn skip_parameters(s: Seq<char>, i: int) -> int
    decreases s.len() - i,
{
    if 0 <= i < s.len() && is_parameter(s[i]) {
        skip_parameters(s, i + 1)
    } else {
        i
    }
}

/// The first position at or after `i` that holds no intermediate character.
pub open spec fn skip_intermediates(s: Seq<char>, i: int) -> int
    decreases s.len() - i,
{
    if 0 <= i < s.len() && is_intermediate(s[i]) {
        skip_intermediates(s, i + 1)
    } else {
        i
    }
}

/// Where the control sequence that starts at `i` ends (one past its final
/// character), if one starts there.
pub open spec fn sequence_end(s: Seq<char>, i: int) -> Option<int> {
    if 0 <= i && i + 1 < s.len() && is_escape(s[i]) && s[i + 1] == '[' {
        let last = skip_intermediates(s, skip_parameters(s, i + 2));
        if last < s.len() && is_final(s[last]) {
            Some(last + 1)
        } else {
            None
        }
    } else {
        None
    }
}

/// What is left of `s` from position `i` on once every control sequence is
/// removed.
pub open spec fn strip_from(s: Seq<char>, i: int) -> Seq<char>
    decreases s.len() - i,
    when 0 <= i
    via strip_from_decreases
{
    if i >= s.len() {
        Seq::empty()
    } else {
        match sequence_end(s, i) {
            Some(end) => strip_from(s, end),
            None => seq![s[i]] + strip_from(s, i + 1),
        }
    }
}

#[via_fn]
proof fn strip_from_decreases(s: Seq<char>, i: int) {
    if i < s.len() {
        if let Some(end) = sequence_end(s, i) {
            lemma_skip_parameters_bounds(s, i + 2);
            lemma_skip_intermediates_bounds(s, skip_parameters(s, i + 2));
        }
    }
}

/// The line `s` with every control sequence removed.
pub open spec fn strip_csi(s: Seq<char>) -> Seq<char> {
    strip_from(s, 0)
}

/// Skipping parameter characters moves forward and stays inside the line.
pub proof fn lemma_skip_parameters_bounds(s: Seq<char>, i: int)
    requires
        0 <= i <= s.len(),
    ensures
        i <= skip_parameters(s, i) <= s.len(),
    decreases s.len() - i,
{
    if i < s.len() && is_parameter(s[i]) {
        lemma_skip_parameters_bounds(s, i + 1);
    }
}

/// Skipping intermediate characters moves forward and stays inside the line.
pub proof fn lemma_skip_intermediates_bounds(s: Seq<char>, i: int)
    requires
        0 <= i <= s.len(),
    ensures
        i <= skip_intermediates(s, i) <= s.len(),
    decreases s.len() - i,
{
    if i < s.len() && is_intermediate(s[i]) {
        lemma_skip_intermediates_bounds(s, i + 1);
    }
}

/// A text without escape characters.
pub open spec fn no_escape(text: Seq<char>) -> bool {
    forall|i: int| 0 <= i < text.len() ==> !is_escape(#[trigger] text[i])
}

/// Whether `s` is one control sequence with `parameters` parameter
/// characters: escape, `[`, the parameters, intermediates up to the last
/// character, and a final character at the end.
pub open spec fn is_control_sequence(s: Seq<char>, parameters: int) -> bool {
    &&& 0 <= parameters <= s.len() - 3
    &&& is_escape(s[0])
    &&& s[1] == '['
    &&& forall|i: int| 2 <= i < 2 + parameters ==> is_parameter(#[trigger] s[i])
    &&& forall|i: int| 2 + parameters <= i < s.len() - 1 ==> is_intermediate(#[trigger] s[i])
    &&& is_final(s[s.len() - 1])
}

proof fn lemma_skip_parameters_shift(s: Seq<char>, i: int, j: int)
    requires
        0 <= i <= j <= s.len(),
    ensures
        skip_parameters(s, j) == i + skip_parameters(s.skip(i), j - i),
    decreases s.len() - j,
{
    if j < s.len() && is_parameter(s[j]) {
        lemma_skip_parameters_shift(s, i, j + 1);
    }
}

proof fn lemma_skip_intermediates_shift(s: Seq<char>, i: int, j: int)
    requires
        0 <= i <= j <= s.len(),
    ensures
        skip_intermediates(s, j) == i + skip_intermediates(s.skip(i), j - i),
    decreases s.len() - j,
{
    if j < s.len() && is_intermediate(s[j]) {
        lemma_skip_intermediates_shift(s, i, j + 1);
    }
}

proof fn lemma_sequence_end_shift(s: Seq<char>, i: int)
    requires
        0 <= i <= s.len(),
    ensures
        sequence_end(s, i) == match sequence_end(s.skip(i), 0) {
            Some(end) => Some(end + i),
            None => None,
        },
{
    if i + 1 < s.len() && is_escape(s[i]) && s[i + 1] == '[' {
        lemma_skip_parameters_shift(s, i, i + 2);
        lemma_skip_parameters_bounds(s, i + 2);
        lemma_skip_intermediates_shift(s, i, skip_parameters(s, i + 2));
        lemma_skip_intermediates_bounds(s, skip_parameters(s, i + 2));
    }
}

/// Stripping from a position on is stripping the rest of the line.
pub proof fn lemma_strip_from_is_strip_of_rest(s: Seq<char>, i: int)
    requires
        0 <= i <= s.len(),
    ensures
        strip_from(s, i) == strip_csi(s.skip(i)),
    decreases s.len() - i,
{
    let rest = s.skip(i);
    if i == 0 {
        assert(rest == s);
    } else if i < s.len() {
        lemma_sequence_end_shift(s, i);
        match sequence_end(s, i) {
            Some(end) => {
                lemma_skip_parameters_bounds(s, i + 2);
                lemma_skip_intermediates_bounds(s, skip_parameters(s, i + 2));
                lemma_strip_from_is_strip_of_rest(s, end);
                lemma_strip_from_is_strip_of_rest(rest, end - i);
                assert(rest.skip(end - i) == s.skip(end));
            },
            None => {
                lemma_strip_from_is_strip_of_rest(s, i + 1);
                lemma_strip_from_is_strip_of_rest(rest, 1);
                assert(rest.skip(1) == s.skip(i + 1));
            },
        }
    }
}

/// Text without escape characters passes through the stripper as it is.
pub proof fn lemma_strip_keeps_text(text: Seq<char>, rest: Seq<char>)
    requires
        no_escape(text),
    ensures
        strip_csi(text + rest) == text + strip_csi(rest),
    decreases text.len(),
{
    let s = text + rest;
    if text.len() == 0 {
        assert(s == rest);
        assert(text + strip_csi(rest) == strip_csi(rest));
    } else {
        assert(s[0] == text[0]);
        assert(sequence_end(s, 0) is None);
        lemma_strip_from_is_strip_of_rest(s, 1);
        assert(s.skip(1) == text.skip(1) + rest);
        assert(no_escape(text.skip(1))) by {
            assert forall|i: int| 0 <= i < text.skip(1).len() implies !is_escape(
                #[trigger] text.skip(1)[i],
            ) by {
                assert(text.skip(1)[i] == text[i + 1]);
            }
        }
        lemma_strip_keeps_text(text.skip(1), rest);
        assert(seq![s[0]] + (text.skip(1) + strip_csi(rest)) == text + strip_csi(rest));
    }
}

proof fn lemma_skip_parameters_run(s: Seq<char>, from: int, to: int)
    requires
        0 <= from <= to < s.len(),
        forall|i: int| from <= i < to ==> is_parameter(#[trigger] s[i]),
        !is_parameter(s[to]),
    ensures
        skip_parameters(s, from) == to,
    decreases to - from,
{
    if from < to {
        assert(is_parameter(s[from]));
        lemma_skip_parameters_run(s, from + 1, to);
    }
}

proof fn lemma_skip_intermediates_run(s: Seq<char>, from: int, to: int)
    requires
        0 <= from <= to < s.len(),
        forall|i: int| from <= i < to ==> is_intermediate(#[trigger] s[i]),
        !is_intermediate(s[to]),
    ensures
        skip_intermediates(s, from) == to,
    decreases to - from,
{
    if from < to {
        assert(is_intermediate(s[from]));
        lemma_skip_intermediates_run(s, from + 1, to);
    }
}

/// A control sequence at the start of a line is removed whole.
pub proof fn lemma_strip_removes_sequence(sequence: Seq<char>, parameters: int, rest: Seq<char>)
    requires
        is_control_sequence(sequence, parameters),
    ensures
        strip_csi(sequence + rest) == strip_csi(rest),
{
    let s = sequence + rest;
    let last = sequence.len() - 1;
    assert forall|i: int| 0 <= i < sequence.len() implies s[i] == sequence[i] by {}
    assert(s[0] == sequence[0] && s[1] == sequence[1] && s[last] == sequence[last]);
    assert forall|i: int| 2 <= i < 2 + parameters implies is_parameter(#[trigger] s[i]) by {
        assert(s[i] == sequence[i]);
    }
    assert forall|i: int| 2 + parameters <= i < last implies is_intermediate(#[trigger] s[i]) by {
        assert(s[i] == sequence[i]);
    }
    assert(!is_parameter(s[2 + parameters])) by {
        assert(s[2 + parameters] == sequence[2 + parameters]);
        if 2 + parameters < last {
            assert(is_intermediate(sequence[2 + parameters]));
        }
    }
    lemma_skip_parameters_run(s, 2, 2 + parameters);
    lemma_skip_intermediates_run(s, 2 + parameters, last);
    assert(sequence_end(s, 0) == Some(last + 1));
    lemma_strip_from_is_strip_of_rest(s, sequence.len() as int);
    assert(s.skip(sequence.len() as int) == rest);
}

/// Stripping keeps the visible text and removes the control sequences: a
/// line made of text without escape characters, one control sequence, and
/// any rest is stripped to the text followed by the stripped rest.
pub proof fn lemma_strip_round_trip(
    text: Seq<char>,
    sequence: Seq<char>,
    parameters: int,
    rest: Seq<char>,
)
    requires
        no_escape(text),
        is_control_sequence(sequence, parameters),
    ensures
        strip_csi(text + sequence + rest) == text + strip_csi(rest),
{
    assert(text + sequence + rest == text + (sequence + rest));
    lemma_strip_keeps_text(text, sequence + rest);
    lemma_strip_removes_sequence(sequence, parameters, rest);
}

/// A line without escape characters is stored as it came.
pub proof fn lemma_strip_plain_line(line: Seq<char>)
    requires
        no_escape(line),
    ensures
        strip_csi(line) == line,
{
    lemma_strip_keeps_text(line, Seq::empty());
    assert(line + Seq::<char>::empty() == line);
    assert(strip_csi(Seq::<char>::empty()) == Seq::<char>::empty());
}

} // verus!
