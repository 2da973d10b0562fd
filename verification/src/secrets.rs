//! The local secrets file: one `key=value` assignment per line, the value
//! optionally in double quotes.
//!
//! Lines end with a line feed or with a carriage return and a line feed; the
//! last line needs no ending. Empty lines are passed over. Nothing is trimmed: a
//! key is all that precedes the first `=` of its line, the value all that
//! follows it. Where a key is assigned twice, the later assignment counts.

use crate::text::{chars_of, find_char, position};
use vstd::prelude::*;

verus! {

/// One assignment of the file.
#[derive(Debug, Clone, PartialEq, Eq)]
pub struct Assignment {
    pub key: String,
    pub value: String,
}

/// What an [`Assignment`] stands for in contracts.
pub struct AssignmentView {
    pub key: Seq<char>,
    pub value: Seq<char>,
}

impl View for Assignment {
    type V = AssignmentView;

    open spec fn view(&self) -> AssignmentView {
        AssignmentView { key: self.key@, value: self.value@ }
    }
}

/// The assignments of a file, as contracts read them.
pub open spec fn assignments_view(assignments: Vec<Assignment>) -> Seq<AssignmentView> {
    assignments@.map_values(|assignment: Assignment| assignment@)
}

/// A line that is not empty and holds no `=`.
#[derive(Debug, Clone, PartialEq, Eq)]
pub struct InvalidLine {
    pub line: String,
}

impl View for InvalidLine {
    type V = Seq<char>;

    open spec fn view(&self) -> Seq<char> {
        self.line@
    }
}

/// The text shown for a line that is no assignment.
pub open spec fn invalid_line_message(line: Seq<char>) -> Seq<char> {
    "Invalid 'Secrets.toml' line '"@ + line + "'"@
}

impl InvalidLine {
    /// `"Invalid 'Secrets.toml' line '<line>'"`.
    pub fn to_string(&self) -> (shown: String)
        ensures
            shown@ == invalid_line_message(self@),
    {
        let mut shown = String::from_str("Invalid 'Secrets.toml' line '");
        shown.append(self.line.as_str());
        shown.append("'");
        shown
    }
}

/// `line` without the carriage return that it may end with.
pub open spec fn without_carriage_return(line: Seq<char>) -> Seq<char> {
    if line.len() > 0 && line.last() == '\r' {
        line.drop_last()
    } else {
        line
    }
}

/// The first line of a text that is not empty: what precedes the first line
/// feed, less a carriage return before it; the whole text where it holds no
/// line feed.
pub open spec fn first_line(text: Seq<char>) -> Seq<char> {
    let end = position(text, '\n');
    if end < text.len() {
        without_carriage_return(text.take(end))
    } else {
        text
    }
}

/// What follows the first line and its ending.
pub open spec fn after_first_line(text: Seq<char>) -> Seq<char> {
    let end = position(text, '\n');
    if end < text.len() {
        text.skip(end + 1)
    } else {
        Seq::empty()
    }
}

/// The lines of `text`, without their endings.
pub open spec fn lines_of(text: Seq<char>) -> Seq<Seq<char>>
    decreases text.len(),
{
    if text.len() == 0 {
        Seq::empty()
    } else {
        seq![first_line(text)] + lines_of(after_first_line(text))
    }
}

/// `value` without the double quotes around it, where it has both.
pub open spec fn unquoted(value: Seq<char>) -> Seq<char> {
    if value.len() >= 2 && value.first() == '"' && value.last() == '"' {
        value.subrange(1, value.len() - 1)
    } else {
        value
    }
}

/// The assignment that `line` holds: split at its first `=`.
pub open spec fn assignment_of(line: Seq<char>) -> Option<AssignmentView> {
    let at = position(line, '=');
    if at < line.len() {
        Some(AssignmentView { key: line.take(at), value: unquoted(line.skip(at + 1)) })
    } else {
        None
    }
}

/// The assignments of `lines`, in order; the first line that is neither empty
/// nor an assignment, where there is one.
pub open spec fn assignments_of(lines: Seq<Seq<char>>) -> Result<Seq<AssignmentView>, Seq<char>>
    decreases lines.len(),
{
    if lines.len() == 0 {
        Ok(Seq::empty())
    } else {
        match assignments_of(lines.drop_last()) {
            Err(line) => Err(line),
            Ok(assignments) => {
                let line = lines.last();
                if line.len() == 0 {
                    Ok(assignments)
                } else {
                    match assignment_of(line) {
                        Some(assignment) => Ok(assignments.push(assignment)),
                        None => Err(line),
                    }
                }
            },
        }
    }
}

/// What the secrets file `text` holds.
pub open spec fn parse_spec(text: Seq<char>) -> Result<Seq<AssignmentView>, Seq<char>> {
    assignments_of(lines_of(text))
}

/// What [`parse`] returns, as its callers read it.
pub open spec fn parsed_view(parsed: Result<Vec<Assignment>, InvalidLine>) -> Result<
    Seq<AssignmentView>,
    Seq<char>,
> {
    match parsed {
        Ok(assignments) => Ok(assignments_view(assignments)),
        Err(invalid) => Err(invalid@),
    }
}

/// Once a line is refused, the lines after it change nothing.
pub proof fn lemma_refused_stays_refused(lines: Seq<Seq<char>>, more: Seq<Seq<char>>)
    requires
        assignments_of(lines) is Err,
    ensures
        assignments_of(lines + more) == assignments_of(lines),
    decreases more.len(),
{
    if more.len() == 0 {
        assert(lines + more =~= lines);
    } else {
        lemma_refused_stays_refused(lines, more.drop_last());
        assert((lines + more).drop_last() =~= lines + more.drop_last());
    }
}

/// Where the first line of `chars[start..]` ends and where the text after it
/// begins.
fn first_line_bounds(chars: &Vec<char>, start: usize) -> (bounds: (usize, usize))
    requires
        start < chars.len(),
    ensures
        start <= bounds.0 <= bounds.1 <= chars.len(),
        start < bounds.1,
        chars@.subrange(start as int, bounds.0 as int) == first_line(chars@.skip(start as int)),
        chars@.skip(bounds.1 as int) == after_first_line(chars@.skip(start as int)),
{
    let ghost rest = chars@.skip(start as int);
    let end = find_char(chars, start, chars.len(), '\n');
    proof {
        assert(chars@.subrange(start as int, chars.len() as int) =~= rest);
    }
    if end < chars.len() {
        let stop = if end > start && chars[end - 1] == '\r' {
            end - 1
        } else {
            end
        };
        proof {
            let before = chars@.subrange(start as int, end as int);
            assert(rest.take(end - start) =~= before);
            if stop < end {
                assert(before.drop_last() =~= chars@.subrange(start as int, stop as int));
            }
            assert(rest.skip(end - start + 1) =~= chars@.skip(end + 1));
        }
        (stop, end + 1)
    } else {
        proof {
            assert(chars@.skip(end as int) =~= Seq::<char>::empty());
        }
        (end, end)
    }
}

/// The assignment that the line `chars[from..to]` of `text` holds.
fn assignment_in(text: &str, chars: &Vec<char>, from: usize, to: usize) -> (found: Option<
    Assignment,
>)
    requires
        chars@ == text@,
        from <= to <= chars.len(),
    ensures
        match found {
            Some(assignment) => assignment_of(chars@.subrange(from as int, to as int)) == Some(
                assignment@,
            ),
            None => assignment_of(chars@.subrange(from as int, to as int)) is None,
        },
{
    let ghost line = chars@.subrange(from as int, to as int);
    let equals = find_char(chars, from, to, '=');
    if equals == to {
        return None;
    }
    let after = equals + 1;
    let quoted = to - after >= 2 && chars[after] == '"' && chars[to - 1] == '"';
    let key = text.substring_char(from, equals).to_owned();
    let value = if quoted {
        text.substring_char(after + 1, to - 1).to_owned()
    } else {
        text.substring_char(after, to).to_owned()
    };
    proof {
        let raw = chars@.subrange(after as int, to as int);
        assert(line.take(equals - from) =~= key@);
        assert(line.skip(equals - from + 1) =~= raw);
        if quoted {
            assert(raw.subrange(1, raw.len() - 1) =~= value@);
        }
    }
    Some(Assignment { key, value })
}

/// Reads the secrets file `text`: its assignments in order, or the first line
/// that is neither empty nor an assignment.
pub fn parse(text: &str) -> (parsed: Result<Vec<Assignment>, InvalidLine>)
    ensures
        parsed_view(parsed) == parse_spec(text@),
{
    let chars = chars_of(text);
    let mut assignments: Vec<Assignment> = Vec::new();
    let ghost mut done: Seq<Seq<char>> = Seq::empty();
    let mut start: usize = 0;
    proof {
        assert(text@.skip(0) =~= text@);
        assert(done + lines_of(text@) =~= lines_of(text@));
        assert(assignments_view(assignments) =~= Seq::empty());
    }
    while start < chars.len()
        invariant
            chars@ == text@,
            start <= chars.len(),
            lines_of(text@) == done + lines_of(text@.skip(start as int)),
            assignments_of(done) == Ok::<Seq<AssignmentView>, Seq<char>>(
                assignments_view(assignments),
            ),
        decreases chars.len() - start,
    {
        let (stop, next) = first_line_bounds(&chars, start);
        let ghost line = text@.subrange(start as int, stop as int);
        let ghost after = lines_of(text@.skip(next as int));
        proof {
            assert(done + (seq![line] + after) =~= done.push(line) + after);
            assert(done.push(line).drop_last() =~= done);
        }
        if stop > start {
            match assignment_in(text, &chars, start, stop) {
                Some(assignment) => {
                    let ghost before = assignments_view(assignments);
                    assignments.push(assignment);
                    proof {
                        assert(assignments_view(assignments) =~= before.push(assignment@));
                    }
                },
                None => {
                    proof {
                        lemma_refused_stays_refused(done.push(line), after);
                    }
                    return Err(InvalidLine { line: text.substring_char(start, stop).to_owned() });
                },
            }
        }
        proof {
            done = done.push(line);
        }
        start = next;
    }
    proof {
        assert(text@.skip(start as int) =~= Seq::<char>::empty());
        assert(done + lines_of(Seq::<char>::empty()) =~= done);
    }
    Ok(assignments)
}

/// The value that `assignments` give `key`: that of the last assignment to it.
pub open spec fn value_of(assignments: Seq<AssignmentView>, key: Seq<char>) -> Option<Seq<char>>
    decreases assignments.len(),
{
    if assignments.len() == 0 {
        None
    } else if assignments.last().key == key {
        Some(assignments.last().value)
    } else {
        value_of(assignments.drop_last(), key)
    }
}

/// Earlier assignments to some other key than the last do not count.
proof fn lemma_value_of_tail(assignments: Seq<AssignmentView>, key: Seq<char>, from: int)
    requires
        0 <= from <= assignments.len(),
        forall|j: int| from <= j < assignments.len() ==> assignments[j].key != key,
    ensures
        value_of(assignments, key) == value_of(assignments.take(from), key),
    decreases assignments.len() - from,
{
    if from == assignments.len() {
        assert(assignments.take(from) =~= assignments);
    } else {
        lemma_value_of_tail(assignments.drop_last(), key, from);
        assert(assignments.drop_last().take(from) =~= assignments.take(from));
    }
}

/// A copy of the value that `assignments` give `key`.
pub fn lookup(assignments: &Vec<Assignment>, key: &str) -> (found: Option<String>)
    ensures
        match found {
            Some(value) => value_of(assignments_view(*assignments), key@) == Some(value@),
            None => value_of(assignments_view(*assignments), key@) is None,
        },
{
    let wanted = String::from_str(key);
    let ghost all = assignments_view(*assignments);
    let mut at: usize = assignments.len();
    while at > 0
        invariant
            at <= assignments.len(),
            wanted@ == key@,
            all == assignments_view(*assignments),
            forall|j: int| at <= j < assignments.len() ==> all[j].key != key@,
        decreases at,
    {
        at -= 1;
        if assignments[at].key == wanted {
            proof {
                lemma_value_of_tail(all, key@, at + 1);
                assert(all.take(at + 1).last() == all[at as int]);
            }
            return Some(assignments[at].value.clone());
        }
    }
    proof {
        lemma_value_of_tail(all, key@, 0);
        assert(all.take(0).len() == 0);
    }
    None
}

} // verus!
