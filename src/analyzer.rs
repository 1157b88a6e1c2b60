//! The diagnostic analyzer: a pure scan that reports every line of a text
//! holding the `TODO` marker.
//!
//! Lines are split at `'\n'` alone: a `'\r'` before it stays part of the line,
//! and a line's length is counted in characters.

use vstd::prelude::*;
use crate::protocol::{Diagnostic, DiagnosticSeverity, DiagnosticView, Position, Range, views_of};

verus! {

/// The marker whose presence in a line is reported.
pub open spec fn marker() -> Seq<char> {
    seq!['T', 'O', 'D', 'O']
}

/// The source tag carried by every diagnostic of this analyzer.
pub open spec fn source_tag() -> Seq<char> {
    "todo-checker"@
}

/// The message carried by every diagnostic of this analyzer.
pub open spec fn marker_message() -> Seq<char> {
    "TODO found"@
}

/// The lines of `text`, cut at each `'\n'`; the empty text is one empty line,
/// and a text ending in `'\n'` ends with an empty line.
pub open spec fn split_lines(text: Seq<char>) -> Seq<Seq<char>>
    decreases text.len(),
{
    if text.len() == 0 {
        seq![Seq::<char>::empty()]
    } else {
        let prev = split_lines(text.drop_last());
        if text.last() == '\n' {
            prev.push(Seq::<char>::empty())
        } else {
            prev.update(prev.len() - 1, prev.last().push(text.last()))
        }
    }
}

/// Whether the marker occurs somewhere in `line`.
pub open spec fn contains_marker(line: Seq<char>) -> bool {
    exists|j: int| 0 <= j && j + 4 <= line.len() && #[trigger] line.subrange(j, j + 4) == marker()
}

/// The diagnostic for line `n` of a text, the line being `len` characters long.
pub open spec fn line_diagnostic(n: int, len: int) -> DiagnosticView {
    DiagnosticView {
        range: Range {
            start: Position { line: n as u32, character: 0 },
            end: Position { line: n as u32, character: len as u32 },
        },
        severity: DiagnosticSeverity::Warning,
        source: source_tag(),
        message: marker_message(),
    }
}

/// The diagnostics of the first `n` of `lines`, in line order.
pub open spec fn diagnostics_upto(lines: Seq<Seq<char>>, n: nat) -> Seq<DiagnosticView>
    decreases n,
{
    if n == 0 {
        Seq::empty()
    } else {
        let prev = diagnostics_upto(lines, (n - 1) as nat);
        if contains_marker(lines[n - 1]) {
            prev.push(line_diagnostic(n - 1, lines[n - 1].len() as int))
        } else {
            prev
        }
    }
}

/// The diagnostics of `text`: one per line holding the marker, in line order.
pub open spec fn diagnostics_of(text: Seq<char>) -> Seq<DiagnosticView> {
    diagnostics_upto(split_lines(text), split_lines(text).len())
}

/// The diagnostics of the first `n` lines depend on those lines alone.
proof fn lemma_diagnostics_upto_prefix(a: Seq<Seq<char>>, b: Seq<Seq<char>>, n: nat)
    requires
        n <= a.len(),
        n <= b.len(),
        forall|j: int| 0 <= j < n ==> a[j] == b[j],
    ensures
        diagnostics_upto(a, n) == diagnostics_upto(b, n),
    decreases n,
{
    if n > 0 {
        lemma_diagnostics_upto_prefix(a, b, (n - 1) as nat);
    }
}

/// Appending a character to a line finds the marker either where it was
/// already, or in the window that ends at the new character.
proof fn lemma_contains_marker_push(line: Seq<char>, c: char)
    ensures
        contains_marker(line.push(c)) <==> contains_marker(line) || (line.len() >= 3
            && line.push(c).subrange(line.len() - 3, line.len() + 1 as int) == marker()),
{
    let l = line.push(c);
    if contains_marker(l) {
        let j = choose|j: int| 0 <= j && j + 4 <= l.len() && #[trigger] l.subrange(j, j + 4) == marker();
        if j + 4 <= line.len() {
            assert(line.subrange(j, j + 4) =~= l.subrange(j, j + 4));
        }
    }
    if contains_marker(line) {
        let j = choose|j: int| 0 <= j && j + 4 <= line.len() && #[trigger] line.subrange(j, j + 4) == marker();
        assert(line.subrange(j, j + 4) =~= l.subrange(j, j + 4));
    }
    if line.len() >= 3 {
        let k = line.len() - 3;
        assert(l.subrange(k, k + 4) == l.subrange(line.len() - 3, line.len() + 1 as int));
    }
}

/// The facts of the exact-count law, for the first `k` lines.
proof fn lemma_diagnostics_upto_facts(lines: Seq<Seq<char>>, k: nat)
    requires
        k <= lines.len() <= 0x1_0000_0000,
    ensures
        forall|i: int|
            0 <= i < diagnostics_upto(lines, k).len() ==> {
                let m = (#[trigger] diagnostics_upto(lines, k)[i]).range.start.line as int;
                &&& 0 <= m < k
                &&& contains_marker(lines[m])
                &&& diagnostics_upto(lines, k)[i] == line_diagnostic(m, lines[m].len() as int)
            },
        forall|i: int, j: int|
            0 <= i < j < diagnostics_upto(lines, k).len() ==> (#[trigger] diagnostics_upto(
                lines,
                k,
            )[i]).range.start.line < (#[trigger] diagnostics_upto(lines, k)[j]).range.start.line,
        forall|n: int|
            0 <= n < k && #[trigger] contains_marker(lines[n]) ==> exists|i: int|
                0 <= i < diagnostics_upto(lines, k).len() && (#[trigger] diagnostics_upto(
                    lines,
                    k,
                )[i]).range.start.line == n,
    decreases k,
{
    if k > 0 {
        let km = (k - 1) as nat;
        lemma_diagnostics_upto_facts(lines, km);
        let prev = diagnostics_upto(lines, km);
        let cur = diagnostics_upto(lines, k);
        if contains_marker(lines[km as int]) {
            let d = line_diagnostic(km as int, lines[km as int].len() as int);
            assert(cur == prev.push(d));
            assert(d.range.start.line == km);
            assert forall|n: int| 0 <= n < k && #[trigger] contains_marker(lines[n]) implies exists|
                i: int,
            | 0 <= i < cur.len() && (#[trigger] cur[i]).range.start.line == n by {
                if n == km {
                    assert(cur[prev.len() as int].range.start.line == n);
                } else {
                    let i = choose|i: int|
                        0 <= i < prev.len() && (#[trigger] prev[i]).range.start.line == n;
                    assert(cur[i] == prev[i]);
                }
            }
        }
    }
}

/// One diagnostic per line that holds the marker and none for any other line,
/// in strictly ascending line order; stated where every line number fits a
/// position.
pub proof fn lemma_one_diagnostic_per_marked_line(text: Seq<char>)
    requires
        split_lines(text).len() <= 0x1_0000_0000,
    ensures
        forall|i: int|
            0 <= i < diagnostics_of(text).len() ==> {
                let m = (#[trigger] diagnostics_of(text)[i]).range.start.line as int;
                &&& 0 <= m < split_lines(text).len()
                &&& contains_marker(split_lines(text)[m])
                &&& diagnostics_of(text)[i] == line_diagnostic(
                    m,
                    split_lines(text)[m].len() as int,
                )
            },
        forall|i: int, j: int|
            0 <= i < j < diagnostics_of(text).len() ==> (#[trigger] diagnostics_of(
                text,
            )[i]).range.start.line < (#[trigger] diagnostics_of(text)[j]).range.start.line,
        forall|n: int|
            0 <= n < split_lines(text).len() && #[trigger] contains_marker(split_lines(text)[n])
                ==> exists|i: int|
                0 <= i < diagnostics_of(text).len() && (#[trigger] diagnostics_of(
                    text,
                )[i]).range.start.line == n,
{
    lemma_diagnostics_upto_facts(split_lines(text), split_lines(text).len());
}

/// The empty text has no diagnostics.
pub proof fn lemma_empty_text_has_no_diagnostics()
    ensures
        diagnostics_of(Seq::<char>::empty()) == Seq::<DiagnosticView>::empty(),
{
    let lines = split_lines(Seq::<char>::empty());
    assert(lines[0] == Seq::<char>::empty());
    assert(!contains_marker(lines[0]));
    assert(diagnostics_upto(lines, 0) == Seq::<DiagnosticView>::empty());
}

/// Analysis depends on the text alone: two analyses of one text give the same
/// diagnostics.
pub proof fn lemma_analysis_is_deterministic(
    text: Seq<char>,
    first: Seq<DiagnosticView>,
    second: Seq<DiagnosticView>,
)
    requires
        first == diagnostics_of(text),
        second == diagnostics_of(text),
    ensures
        first == second,
{
}

/// Builds the diagnostic reported for line `line_no`, of `len` characters.
fn marker_diagnostic(line_no: usize, len: usize) -> (d: Diagnostic)
    ensures
        d@ == line_diagnostic(line_no as int, len as int),
{
    #[verifier::truncate]
    let line = line_no as u32;
    #[verifier::truncate]
    let character = len as u32;
    Diagnostic {
        range: Range {
            start: Position { line, character: 0 },
            end: Position { line, character },
        },
        severity: DiagnosticSeverity::Warning,
        source: String::from_str("todo-checker"),
        message: String::from_str("TODO found"),
    }
}

/// The characters of `text`, in order.
fn chars_of(text: &str) -> (r: Vec<char>)
    ensures
        r@ == text@,
{
    broadcast use vstd::string::group_string_axioms;
    let mut r: Vec<char> = Vec::new();
    for c in it: text.chars()
        invariant
            r@ == it.seq().take(it.index() as int),
    {
        r.push(c);
    }
    r
}

/// Reports every line of `text` that holds the marker, in ascending line
/// order, one diagnostic per such line.
pub fn analyze(text: &str) -> (r: Vec<Diagnostic>)
    ensures
        views_of(r@) == diagnostics_of(text@),
{
    let chars = chars_of(text);
    let n = chars.len();
    let ghost s = chars@;
    let mut r: Vec<Diagnostic> = Vec::new();
    let mut line_no: usize = 0;
    let mut line_start: usize = 0;
    let mut found = false;
    proof {
        assert(s.take(0) =~= Seq::<char>::empty());
        assert(s.subrange(0, 0) =~= Seq::<char>::empty());
        assert(views_of(r@) =~= Seq::<DiagnosticView>::empty());
    }
    for i in 0..n
        invariant
            n == chars.len(),
            s == chars@,
            line_start <= i,
            line_no <= i,
            split_lines(s.take(i as int)).len() == line_no + 1,
            split_lines(s.take(i as int)).last() == s.subrange(line_start as int, i as int),
            found == contains_marker(s.subrange(line_start as int, i as int)),
            views_of(r@) == diagnostics_upto(split_lines(s.take(i as int)), line_no as nat),
    {
        let c = chars[i];
        let ghost before = split_lines(s.take(i as int));
        let ghost cur = s.subrange(line_start as int, i as int);
        let ghost old_r = r@;
        proof {
            assert(s.take(i + 1).drop_last() =~= s.take(i as int));
            assert(s.take(i + 1).last() == c);
        }
        if c == '\n' {
            let ghost after = before.push(Seq::<char>::empty());
            proof {
                lemma_diagnostics_upto_prefix(after, before, line_no as nat);
                assert(after[line_no as int] == cur);
                assert(s.subrange(i + 1, i + 1) =~= Seq::<char>::empty());
            }
            if found {
                let d = marker_diagnostic(line_no, i - line_start);
                r.push(d);
                proof {
                    assert(views_of(r@) =~= views_of(old_r).push(d@));
                }
            }
            line_no = line_no + 1;
            line_start = i + 1;
            found = false;
        } else {
            let ghost after = before.update(line_no as int, cur.push(c));
            proof {
                lemma_diagnostics_upto_prefix(after, before, line_no as nat);
                assert(s.subrange(line_start as int, i + 1) =~= cur.push(c));
                lemma_contains_marker_push(cur, c);
                if cur.len() >= 3 {
                    let w = cur.push(c).subrange(cur.len() - 3, cur.len() + 1 as int);
                    assert(w[0] == chars@[i - 3]);
                    assert(w[1] == chars@[i - 2]);
                    assert(w[2] == chars@[i - 1]);
                    assert(w[3] == c);
                    assert(w == marker() <==> (w[0] == 'T' && w[1] == 'O' && w[2] == 'D' && w[3]
                        == 'O')) by {
                        if w[0] == 'T' && w[1] == 'O' && w[2] == 'D' && w[3] == 'O' {
                            assert(w =~= marker());
                        }
                    }
                }
            }
            if !found && i - line_start >= 3 && chars[i - 3] == 'T' && chars[i - 2] == 'O'
                && chars[i - 1] == 'D' && c == 'O' {
                found = true;
            }
        }
    }
    proof {
        assert(s.take(n as int) =~= s);
    }
    let ghost old_r = r@;
    if found {
        let d = marker_diagnostic(line_no, n - line_start);
        r.push(d);
        proof {
            assert(views_of(r@) =~= views_of(old_r).push(d@));
        }
    }
    r
}

} // verus!
