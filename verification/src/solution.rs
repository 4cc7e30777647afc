//! The solution file format, as far as it names projects.
//!
//! A solution is read line by line. A line that begins, white space aside,
//! with `Project(` names a project in its second comma-separated field; every
//! other line is passed over.

use crate::text::{
    chars_of, find, first_index, lines, strip_bounds, trimmed, unquoted, Padding,
};
use vstd::prelude::*;

verus! {

/// The text that a line naming a project begins with: `Project(`.
pub open spec fn project_marker() -> Seq<char> {
    seq!['P', 'r', 'o', 'j', 'e', 'c', 't', '(']
}

/// Whether `line` names a project.
pub open spec fn is_project_line(line: Seq<char>) -> bool {
    project_marker().is_prefix_of(trimmed(line))
}

/// What stands between the first comma of `line` and the next one, or the
/// end of the line; nothing where the line has no comma.
pub open spec fn second_field(line: Seq<char>) -> Option<Seq<char>> {
    let comma = first_index(line, ',');
    if comma >= line.len() {
        None
    } else {
        let rest = line.subrange(comma as int + 1, line.len() as int);
        Some(rest.subrange(0, first_index(rest, ',') as int))
    }
}

/// The project that `line` refers to: the second field of a project line,
/// without the white space around it and, inside that, without the quotes
/// around it.
pub open spec fn line_reference(line: Seq<char>) -> Option<Seq<char>> {
    if is_project_line(line) {
        match second_field(line) {
            Some(field) => Some(unquoted(trimmed(field))),
            None => None,
        }
    } else {
        None
    }
}

/// The references that `lines` hold, in their order.
pub open spec fn references(lines: Seq<Seq<char>>) -> Seq<Seq<char>> {
    lines.filter_map(|line: Seq<char>| line_reference(line))
}

/// The projects that a solution with the given text refers to.
pub open spec fn project_references(text: Seq<char>) -> Seq<Seq<char>> {
    references(lines(text))
}

/// The references of some lines followed by one more.
pub proof fn lemma_references_push(lines: Seq<Seq<char>>, line: Seq<char>)
    ensures
        references(lines.push(line)) == match line_reference(line) {
            Some(r) => references(lines).push(r),
            None => references(lines),
        },
{
    assert(lines.push(line).drop_last() =~= lines);
    assert(lines.push(line).last() == line);
}

/// The references of two runs of lines, one after the other.
pub proof fn lemma_references_concat(first: Seq<Seq<char>>, second: Seq<Seq<char>>)
    ensures
        references(first + second) == references(first) + references(second),
    decreases second.len(),
{
    if second.len() == 0 {
        assert(first + second =~= first);
        assert(references(first) + references(second) =~= references(first));
    } else {
        let init = second.drop_last();
        lemma_references_concat(first, init);
        assert(first + second =~= (first + init).push(second.last()));
        lemma_references_push(first + init, second.last());
        assert(second =~= init.push(second.last()));
        lemma_references_push(init, second.last());
        match line_reference(second.last()) {
            Some(r) => {
                assert((references(first) + references(init)).push(r) =~= references(first)
                    + references(init).push(r));
            },
            None => {},
        }
    }
}

/// A line that does not begin with the project marker adds no reference,
/// wherever it stands among the others.
pub proof fn lemma_other_lines_add_nothing(
    before: Seq<Seq<char>>,
    line: Seq<char>,
    after: Seq<Seq<char>>,
)
    requires
        !is_project_line(line),
    ensures
        line_reference(line) is None,
        references(before.push(line) + after) == references(before + after),
{
    lemma_references_push(before, line);
    lemma_references_concat(before.push(line), after);
    lemma_references_concat(before, after);
}

/// Every reference comes from a project line.
pub proof fn lemma_references_come_from_project_lines(lines: Seq<Seq<char>>, k: int)
    requires
        0 <= k < references(lines).len(),
    ensures
        exists|i: int|
            0 <= i < lines.len() && is_project_line(#[trigger] lines[i]) && line_reference(
                lines[i],
            ) == Some(references(lines)[k]),
    decreases lines.len(),
{
    let init = lines.drop_last();
    let last = lines.last();
    assert(lines =~= init.push(last));
    lemma_references_push(init, last);
    if k < references(init).len() {
        lemma_references_come_from_project_lines(init, k);
        let i = choose|i: int|
            0 <= i < init.len() && is_project_line(#[trigger] init[i]) && line_reference(init[i])
                == Some(references(init)[k]);
        assert(lines[i] == init[i]);
    } else {
        assert(is_project_line(lines[lines.len() - 1]));
    }
}

/// Tells whether `chars[lo..hi]` begins with the project marker.
fn begins_with_marker(chars: &Vec<char>, lo: usize, hi: usize) -> (r: bool)
    requires
        lo <= hi <= chars.len(),
    ensures
        r == project_marker().is_prefix_of(chars@.subrange(lo as int, hi as int)),
{
    let ghost s = chars@.subrange(lo as int, hi as int);
    if hi - lo < 8 {
        return false;
    }
    let r = chars[lo] == 'P' && chars[lo + 1] == 'r' && chars[lo + 2] == 'o' && chars[lo + 3] == 'j'
        && chars[lo + 4] == 'e' && chars[lo + 5] == 'c' && chars[lo + 6] == 't' && chars[lo + 7]
        == '(';
    proof {
        let m = project_marker();
        if r {
            assert(m =~= s.subrange(0, 8));
        } else {
            if m.is_prefix_of(s) {
                assert(forall|i: int| 0 <= i < 8 ==> m[i] == s.subrange(0, 8)[i]);
                assert(m[0] == s[0] && m[1] == s[1] && m[2] == s[2] && m[3] == s[3]);
                assert(m[4] == s[4] && m[5] == s[5] && m[6] == s[6] && m[7] == s[7]);
            }
        }
    }
    r
}

/// Where in `chars[lo..hi]` the reference of that line stands, if it has one.
fn reference_bounds(chars: &Vec<char>, lo: usize, hi: usize) -> (r: Option<(usize, usize)>)
    requires
        lo <= hi <= chars.len(),
    ensures
        match r {
            Some((a, b)) => lo <= a <= b <= hi && line_reference(
                chars@.subrange(lo as int, hi as int),
            ) == Some(chars@.subrange(a as int, b as int)),
            None => line_reference(chars@.subrange(lo as int, hi as int)) is None,
        },
{
    let ghost line = chars@.subrange(lo as int, hi as int);
    let (a, b) = strip_bounds(chars, lo, hi, Padding::Whitespace);
    if !begins_with_marker(chars, a, b) {
        return None;
    }
    let comma = find(chars, lo, hi, ',');
    if comma >= hi {
        return None;
    }
    let next = find(chars, comma + 1, hi, ',');
    let (c, d) = strip_bounds(chars, comma + 1, next, Padding::Whitespace);
    let (e, f) = strip_bounds(chars, c, d, Padding::Quote);
    proof {
        let rest = line.subrange(comma - lo + 1, line.len() as int);
        assert(rest =~= chars@.subrange(comma as int + 1, hi as int));
        assert(rest.subrange(0, next - comma - 1) =~= chars@.subrange(
            comma as int + 1,
            next as int,
        ));
    }
    Some((e, f))
}

/// The project that `line` refers to, if it is a project line with a second
/// field.
pub fn project_reference(line: &str) -> (r: Option<String>)
    ensures
        match r {
            Some(name) => line_reference(line@) == Some(name@),
            None => line_reference(line@) is None,
        },
{
    let chars = chars_of(line);
    assert(chars@.subrange(0, chars.len() as int) =~= line@);
    match reference_bounds(&chars, 0, chars.len()) {
        Some((a, b)) => Some(line.substring_char(a, b).to_owned()),
        None => None,
    }
}

/// Reads the text of a solution and returns the projects it refers to, in
/// the order of their lines.
pub fn parse_sln_for_projects(text: &str) -> (r: Vec<String>)
    ensures
        r.deep_view() == project_references(text@),
{
    let chars = chars_of(text);
    let n = chars.len();
    let mut out: Vec<String> = Vec::new();
    let mut pos: usize = 0;
    let ghost mut done: Seq<Seq<char>> = Seq::empty();
    proof {
        assert(chars@.subrange(0, n as int) =~= chars@);
        assert(done + lines(chars@) =~= lines(chars@));
        assert(out.deep_view() =~= references(done));
    }
    while pos < n
        invariant
            pos <= n == chars.len(),
            chars@ == text@,
            lines(chars@) == done + lines(chars@.subrange(pos as int, n as int)),
            out.deep_view() == references(done),
        decreases n - pos,
    {
        let ghost rest = chars@.subrange(pos as int, n as int);
        let ghost before = out.deep_view();
        let feed = find(&chars, pos, n, '\n');
        let end = if feed < n && feed > pos && chars[feed - 1] == '\r' {
            feed - 1
        } else {
            feed
        };
        let ghost line = chars@.subrange(pos as int, end as int);
        let next = if feed < n {
            feed + 1
        } else {
            n
        };
        proof {
            if feed < n {
                assert(rest.subrange(0, feed - pos) =~= chars@.subrange(pos as int, feed as int));
                assert(rest.subrange(feed - pos + 1, rest.len() as int) =~= chars@.subrange(
                    next as int,
                    n as int,
                ));
                if feed > pos && chars[feed - 1] == '\r' {
                    assert(chars@.subrange(pos as int, feed as int).drop_last() =~= line);
                }
            } else {
                assert(line =~= rest);
                assert(lines(chars@.subrange(next as int, n as int)) =~= Seq::empty());
            }
            assert(lines(rest) =~= seq![line] + lines(chars@.subrange(next as int, n as int)));
            assert(done + lines(rest) =~= done.push(line) + lines(
                chars@.subrange(next as int, n as int),
            ));
            lemma_references_push(done, line);
            done = done.push(line);
        }
        match reference_bounds(&chars, pos, end) {
            Some((a, b)) => {
                let name = text.substring_char(a, b).to_owned();
                out.push(name);
                assert(out.deep_view() =~= before.push(name@));
            },
            None => {},
        }
        pos = next;
    }
    proof {
        assert(lines(chars@.subrange(n as int, n as int)) =~= Seq::empty());
        assert(done + Seq::<Seq<char>>::empty() =~= done);
    }
    out
}

} // verus!
