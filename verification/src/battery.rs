//! Battery-reader logic: the error taxonomy of battery queries, the
//! charging decision over a charge state, and the parser that extracts
//! the battery condition from line-oriented `key: value` output.
//!
//! The queries themselves (asking the OS for a battery, running the
//! power-report process) are I/O performed by the embedding
//! application, which hands the resulting plain values to the
//! functions here.

use vstd::prelude::*;
use vstd::string::StrSliceExecFns;
use vstd::string::StringExecFns;
use crate::text::{trim, trimmed, str_eq};

verus! {

/// Why a battery query failed.
#[derive(Clone, Copy, Debug, PartialEq, Eq, Structural)]
pub enum ReadError {
    /// The host reports zero batteries.
    NoDevice,
    /// The underlying OS query mechanism could not be invoked or
    /// returned malformed output.
    BackendUnavailable,
    /// The condition text carries no `Condition` line.
    NotFound,
}

impl ReadError {
    /// The caller-visible message for this error.
    pub fn message(&self) -> (r: String)
        ensures
            *self is NoDevice ==> r@ == "No battery found"@,
            *self is BackendUnavailable ==> r@ == "Battery backend unavailable"@,
            *self is NotFound ==> r@ == "Battery condition not found"@,
    {
        match self {
            ReadError::NoDevice => String::from_str("No battery found"),
            ReadError::BackendUnavailable => String::from_str("Battery backend unavailable"),
            ReadError::NotFound => String::from_str("Battery condition not found"),
        }
    }
}

/// The charge state a battery reports.
#[derive(Clone, Copy, Debug, PartialEq, Eq, Structural)]
pub enum ChargeState {
    Unknown,
    Charging,
    Discharging,
    Empty,
    Full,
}

/// A battery counts as charging when it is actively charging or
/// already full (on mains power).
pub fn is_charging_state(state: ChargeState) -> (r: bool)
    ensures
        r == (state is Charging || state is Full),
{
    match state {
        ChargeState::Charging => true,
        ChargeState::Full => true,
        _ => false,
    }
}

/// `i` is the position of the first colon in `l`.
pub open spec fn first_colon_at(l: Seq<char>, i: int) -> bool {
    &&& 0 <= i < l.len()
    &&& l[i] == ':'
    &&& forall|k: int| 0 <= k < i ==> l[k] != ':'
}

/// `l` contains a colon.
pub open spec fn has_colon(l: Seq<char>) -> bool {
    exists|i: int| first_colon_at(l, i)
}

/// The position of the first colon in `l`.
pub open spec fn first_colon(l: Seq<char>) -> int {
    choose|i: int| first_colon_at(l, i)
}

proof fn lemma_first_colon_unique(l: Seq<char>, i: int, j: int)
    requires
        first_colon_at(l, i),
        first_colon_at(l, j),
    ensures
        i == j,
{
}

/// What a single `key: value` line contributes: the trimmed value if
/// the trimmed key equals `Condition`, nothing otherwise.
pub open spec fn line_condition(l: Seq<char>) -> Option<Seq<char>> {
    if has_colon(l) && trimmed(l.subrange(0, first_colon(l))) == "Condition"@ {
        Some(trimmed(l.subrange(first_colon(l) + 1, l.len() as int)))
    } else {
        None
    }
}

/// The condition reported by the first matching line, if any line
/// matches.
pub open spec fn spec_parse_condition(lines: Seq<Seq<char>>) -> Option<Seq<char>>
    decreases lines.len(),
{
    if lines.len() == 0 {
        None
    } else if line_condition(lines.first()) is Some {
        line_condition(lines.first())
    } else {
        spec_parse_condition(lines.drop_first())
    }
}

/// The condition `l` carries, if its trimmed key is `Condition`.
fn line_condition_exec(l: &str) -> (r: Option<String>)
    ensures
        match r {
            Some(v) => line_condition(l@) == Some(v@),
            None => line_condition(l@) is None,
        },
{
    let len = l.unicode_len();
    let mut k: usize = 0;
    while k < len && l.get_char(k) != ':'
        invariant
            0 <= k <= len,
            len == l@.len(),
            forall|m: int| 0 <= m < k ==> l@[m] != ':',
        decreases len - k,
    {
        k += 1;
    }
    if k == len {
        proof {
            assert(forall|i: int| !first_colon_at(l@, i));
            assert(!has_colon(l@));
        }
        return None;
    }
    proof {
        assert(first_colon_at(l@, k as int));
        assert(has_colon(l@));
        lemma_first_colon_unique(l@, first_colon(l@), k as int);
    }
    let key = trim(l.substring_char(0, k));
    if str_eq(key, "Condition") {
        let value = trim(l.substring_char(k + 1, len));
        Some(String::from_str(value))
    } else {
        None
    }
}

/// Scans line-oriented `key: value` output for a line whose trimmed
/// key equals `Condition` and returns that line's trimmed value
/// verbatim; reports `NotFound` when no line matches. `NotFound` is
/// distinct from a backend failure, which the caller raises when the
/// output could not be obtained at all.
pub fn parse_condition(lines: &Vec<String>) -> (r: Result<String, ReadError>)
    ensures
        match r {
            Ok(v) => spec_parse_condition(lines.deep_view()) == Some(v@),
            Err(e) => spec_parse_condition(lines.deep_view()) is None && e == ReadError::NotFound,
        },
{
    let ghost ls = lines.deep_view();
    let n = lines.len();
    proof {
        assert(ls.skip(0) =~= ls);
    }
    let mut idx: usize = 0;
    while idx < n
        invariant
            0 <= idx <= n,
            n == lines.len(),
            ls == lines.deep_view(),
            ls.len() == n,
            forall|k: int| 0 <= k < n ==> ls[k] == lines[k]@,
            spec_parse_condition(ls) == spec_parse_condition(ls.skip(idx as int)),
        decreases n - idx,
    {
        let line = &lines[idx];
        proof {
            assert(ls.skip(idx as int).len() > 0);
            assert(ls.skip(idx as int).first() == line@);
            assert(ls.skip(idx as int).drop_first() =~= ls.skip(idx as int + 1));
        }
        match line_condition_exec(line.as_str()) {
            Some(v) => {
                return Ok(v);
            },
            None => {},
        }
        idx += 1;
    }
    proof {
        assert(ls.skip(n as int) =~= Seq::<Seq<char>>::empty());
    }
    Err(ReadError::NotFound)
}

/// `i` is the position of the first line feed in `s`.
pub open spec fn line_break_at(s: Seq<char>, i: int) -> bool {
    &&& 0 <= i < s.len()
    &&& s[i] == '\n'
    &&& forall|m: int| 0 <= m < i ==> s[m] != '\n'
}

/// `s` contains a line feed.
pub open spec fn has_line_break(s: Seq<char>) -> bool {
    exists|i: int| line_break_at(s, i)
}

/// The position of the first line feed in `s`.
pub open spec fn first_line_break(s: Seq<char>) -> int {
    choose|i: int| line_break_at(s, i)
}

/// A line without the carriage return a `\r\n` ending leaves behind.
pub open spec fn strip_cr(l: Seq<char>) -> Seq<char> {
    if l.len() > 0 && l.last() == '\r' {
        l.drop_last()
    } else {
        l
    }
}

/// The lines of `s`: split at `\n` or `\r\n`, with a final line ending
/// optional, so text ending in a line break yields no trailing empty
/// line.
pub open spec fn spec_split_lines(s: Seq<char>) -> Seq<Seq<char>>
    decreases s.len(),
{
    if s.len() == 0 {
        Seq::empty()
    } else if has_line_break(s) {
        seq![strip_cr(s.subrange(0, first_line_break(s)))] + spec_split_lines(
            s.subrange(first_line_break(s) + 1, s.len() as int),
        )
    } else {
        seq![s]
    }
}

proof fn lemma_line_break_unique(s: Seq<char>, i: int, j: int)
    requires
        line_break_at(s, i),
        line_break_at(s, j),
    ensures
        i == j,
{
}

/// Splits process output into its lines, as the parser wants them.
pub fn split_lines(s: &str) -> (r: Vec<String>)
    ensures
        r.deep_view() == spec_split_lines(s@),
{
    let len = s.unicode_len();
    let mut out: Vec<String> = Vec::new();
    proof {
        assert(s@.subrange(0, len as int) =~= s@);
    }
    let mut pos: usize = 0;
    while pos < len
        invariant
            0 <= pos <= len,
            len == s@.len(),
            spec_split_lines(s@) == out.deep_view() + spec_split_lines(
                s@.subrange(pos as int, len as int),
            ),
        decreases len - pos,
    {
        let ghost old_out = out.deep_view();
        let ghost rest = s@.subrange(pos as int, len as int);
        let mut k: usize = pos;
        while k < len && s.get_char(k) != '\n'
            invariant
                pos <= k <= len,
                len == s@.len(),
                forall|m: int| pos <= m < k ==> s@[m] != '\n',
            decreases len - k,
        {
            k += 1;
        }
        if k == len {
            let piece = s.substring_char(pos, len);
            out.push(String::from_str(piece));
            proof {
                assert(forall|i: int| !line_break_at(rest, i));
                assert(!has_line_break(rest));
                assert(out.deep_view() =~= old_out + seq![rest]);
                assert(old_out + spec_split_lines(rest) =~= out.deep_view());
                assert(s@.subrange(len as int, len as int) =~= Seq::<char>::empty());
            }
            pos = len;
        } else {
            let end = if k > pos && s.get_char(k - 1) == '\r' {
                k - 1
            } else {
                k
            };
            let piece = s.substring_char(pos, end);
            out.push(String::from_str(piece));
            proof {
                let b = k - pos;
                assert(rest[b as int] == s@[k as int]);
                assert(forall|m: int| 0 <= m < b ==> rest[m] == s@[pos + m] && rest[m] != '\n');
                assert(line_break_at(rest, b as int));
                assert(has_line_break(rest));
                lemma_line_break_unique(rest, first_line_break(rest), b as int);
                let raw = rest.subrange(0, b as int);
                assert(raw =~= s@.subrange(pos as int, k as int));
                if k > pos && s@[k as int - 1] == '\r' {
                    assert(raw.len() > 0 && raw.last() == '\r');
                    assert(raw.drop_last() =~= s@.subrange(pos as int, k as int - 1));
                    assert(strip_cr(raw) == piece@);
                } else {
                    if raw.len() > 0 {
                        assert(raw.last() == s@[k as int - 1]);
                    }
                    assert(strip_cr(raw) == piece@);
                }
                assert(rest.subrange(b as int + 1, rest.len() as int) =~= s@.subrange(
                    k as int + 1,
                    len as int,
                ));
                assert(out.deep_view() =~= old_out + seq![piece@]);
                assert(old_out + spec_split_lines(rest) =~= out.deep_view() + spec_split_lines(
                    s@.subrange(k as int + 1, len as int),
                ));
            }
            pos = k + 1;
        }
    }
    proof {
        assert(s@.subrange(pos as int, len as int) =~= Seq::<char>::empty());
        assert(out.deep_view() + spec_split_lines(Seq::<char>::empty()) =~= out.deep_view());
    }
    out
}

/// What the battery condition query returns for given process output:
/// the parsed condition of its lines, or `NotFound`.
pub open spec fn spec_condition_of_output(output: Seq<char>) -> Result<Seq<char>, ReadError> {
    match spec_parse_condition(spec_split_lines(output)) {
        Some(v) => Ok(v),
        None => Err(ReadError::NotFound),
    }
}

/// Extracts the battery condition from the raw output of the power
/// report process.
pub fn condition_from_output(output: &str) -> (r: Result<String, ReadError>)
    ensures
        match r {
            Ok(v) => spec_condition_of_output(output@) == Ok::<Seq<char>, ReadError>(v@),
            Err(e) => spec_condition_of_output(output@) == Err::<Seq<char>, ReadError>(e),
        },
{
    let lines = split_lines(output);
    parse_condition(&lines)
}

} // verus!
