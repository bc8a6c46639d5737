//! The decisions of the lint-report tool: counting compiler diagnostics in
//! tool output, and the status badges of the report.

use vstd::prelude::*;

use crate::text::{append_decimal, chars_of, decimal, has_prefix, prefix_at, string_of};

verus! {

/// A white-space character in Unicode's `White_Space` property
/// (`char::is_whitespace`).
pub open spec fn is_white(c: char) -> bool {
    ('\t' <= c && c <= '\r') || c == ' ' || c == '\u{85}' || c == '\u{a0}' || c == '\u{1680}'
        || ('\u{2000}' <= c && c <= '\u{200a}') || c == '\u{2028}' || c == '\u{2029}' || c
        == '\u{202f}' || c == '\u{205f}' || c == '\u{3000}'
}

/// `s` without its leading white space.
pub open spec fn trim_start_seq(s: Seq<char>) -> Seq<char>
    decreases s.len(),
{
    if s.len() > 0 && is_white(s[0]) {
        trim_start_seq(s.drop_first())
    } else {
        s
    }
}

/// `s` without its trailing white space.
pub open spec fn trim_end_seq(s: Seq<char>) -> Seq<char>
    decreases s.len(),
{
    if s.len() > 0 && is_white(s.last()) {
        trim_end_seq(s.drop_last())
    } else {
        s
    }
}

/// The pieces of `s` between newline characters (a final empty piece when
/// `s` ends with a newline).
pub open spec fn newline_pieces(s: Seq<char>) -> Seq<Seq<char>>
    decreases s.len(),
{
    if s.len() == 0 {
        seq![Seq::<char>::empty()]
    } else if s.last() == '\n' {
        newline_pieces(s.drop_last()).push(Seq::<char>::empty())
    } else {
        let p = newline_pieces(s.drop_last());
        p.update(p.len() - 1, p.last().push(s.last()))
    }
}

/// A summary line that cargo itself prints, not a diagnostic.
pub open spec fn is_summary_line(t: Seq<char>) -> bool {
    has_prefix(t, "error: could not compile"@) || has_prefix(t, "error: aborting"@) || has_prefix(
        t,
        "warning: build failed"@,
    )
}

/// What one line contributes to the `(errors, warnings)` tally.
pub open spec fn line_tally(line: Seq<char>) -> (nat, nat) {
    let t = trim_start_seq(line);
    if is_summary_line(t) {
        (0, 0)
    } else if has_prefix(t, "error["@) || has_prefix(t, "error: "@) {
        (1, 0)
    } else if has_prefix(t, "warning["@) || has_prefix(t, "warning: "@) {
        (0, 1)
    } else {
        (0, 0)
    }
}

/// The `(errors, warnings)` tally of a list of lines.
pub open spec fn lines_tally(lines: Seq<Seq<char>>) -> (nat, nat)
    decreases lines.len(),
{
    if lines.len() == 0 {
        (0, 0)
    } else {
        let a = lines_tally(lines.drop_last());
        let b = line_tally(lines.last());
        (a.0 + b.0, a.1 + b.1)
    }
}

/// Whether a character is white space.
pub fn is_whitespace(c: char) -> (r: bool)
    ensures
        r == is_white(c),
{
    ('\t' <= c && c <= '\r') || c == ' ' || c == '\u{85}' || c == '\u{a0}' || c == '\u{1680}' || (
    '\u{2000}' <= c && c <= '\u{200a}') || c == '\u{2028}' || c == '\u{2029}' || c == '\u{202f}'
        || c == '\u{205f}' || c == '\u{3000}'
}

/// The number of leading white-space characters of `cs`.
fn leading_white(cs: &Vec<char>) -> (k: usize)
    ensures
        k <= cs@.len(),
        trim_start_seq(cs@) == cs@.subrange(k as int, cs@.len() as int),
{
    let mut k: usize = 0;
    assert(cs@.subrange(0, cs@.len() as int) =~= cs@);
    while k < cs.len() && is_whitespace(cs[k])
        invariant
            k <= cs@.len(),
            trim_start_seq(cs@) == trim_start_seq(cs@.subrange(k as int, cs@.len() as int)),
        decreases cs.len() - k,
    {
        let ghost rest = cs@.subrange(k as int, cs@.len() as int);
        assert(rest.drop_first() =~= cs@.subrange(k + 1, cs@.len() as int));
        k += 1;
    }
    let ghost rest = cs@.subrange(k as int, cs@.len() as int);
    assert(rest.len() == 0 || !is_white(rest[0]));
    k
}

/// The tally contribution of one line.
fn tally_line(line: &Vec<char>) -> (r: (usize, usize))
    ensures
        r.0 as nat == line_tally(line@).0,
        r.1 as nat == line_tally(line@).1,
        r.0 + r.1 <= 1,
        r.0 + r.1 <= line@.len(),
{
    if line.len() == 0 {
        proof {
            reveal_strlit("error: could not compile");
            reveal_strlit("error: aborting");
            reveal_strlit("warning: build failed");
            reveal_strlit("error[");
            reveal_strlit("error: ");
            reveal_strlit("warning[");
            reveal_strlit("warning: ");
            assert(trim_start_seq(line@) == line@);
        }
        return (0, 0);
    }
    let k = leading_white(line);
    let summary = prefix_at(line, k, "error: could not compile") || prefix_at(
        line,
        k,
        "error: aborting",
    ) || prefix_at(line, k, "warning: build failed");
    if summary {
        (0, 0)
    } else if prefix_at(line, k, "error[") || prefix_at(line, k, "error: ") {
        (1, 0)
    } else if prefix_at(line, k, "warning[") || prefix_at(line, k, "warning: ") {
        (0, 1)
    } else {
        (0, 0)
    }
}

/// Counts the `error[..]`/`error: ` and `warning[..]`/`warning: ` lines of a
/// tool's output, ignoring leading white space and cargo's own summary lines
/// (`error: could not compile`, `error: aborting`, `warning: build failed`).
/// Returns `(errors, warnings)`.
pub fn count_diagnostics(output: &str) -> (r: (usize, usize))
    ensures
        r.0 as nat == lines_tally(newline_pieces(output@)).0,
        r.1 as nat == lines_tally(newline_pieces(output@)).1,
{
    let cs = chars_of(output);
    let n = cs.len();
    let mut errors: usize = 0;
    let mut warnings: usize = 0;
    let mut line: Vec<char> = Vec::new();
    let mut i: usize = 0;
    while i < n
        invariant
            n == cs@.len(),
            cs@ == output@,
            i <= n,
            newline_pieces(cs@.subrange(0, i as int)).len() >= 1,
            line@ == newline_pieces(cs@.subrange(0, i as int)).last(),
            errors as nat == lines_tally(newline_pieces(cs@.subrange(0, i as int)).drop_last()).0,
            warnings as nat == lines_tally(newline_pieces(cs@.subrange(0, i as int)).drop_last()).1,
            errors + warnings + line@.len() <= i,
        decreases n - i,
    {
        let ghost prev = cs@.subrange(0, i as int);
        let ghost next = cs@.subrange(0, i + 1);
        assert(next.drop_last() =~= prev);
        assert(next.last() == cs@[i as int]);
        if cs[i] == '\n' {
            let (e, w) = tally_line(&line);
            proof {
                let pp = newline_pieces(prev);
                let np = newline_pieces(next);
                assert(np == pp.push(Seq::<char>::empty()));
                assert(np.drop_last() =~= pp);
                assert(pp =~= pp.drop_last().push(pp.last()));
                assert(lines_tally(pp) == (
                    lines_tally(pp.drop_last()).0 + line_tally(pp.last()).0,
                    lines_tally(pp.drop_last()).1 + line_tally(pp.last()).1,
                ));
            }
            errors += e;
            warnings += w;
            line = Vec::new();
        } else {
            line.push(cs[i]);
            proof {
                let pp = newline_pieces(prev);
                let np = newline_pieces(next);
                assert(np == pp.update(pp.len() - 1, pp.last().push(cs@[i as int])));
                assert(np.drop_last() =~= pp.drop_last());
            }
        }
        i += 1;
    }
    let (e, w) = tally_line(&line);
    proof {
        let pp = newline_pieces(cs@.subrange(0, n as int));
        assert(cs@.subrange(0, n as int) =~= output@);
        assert(pp =~= pp.drop_last().push(pp.last()));
    }
    (errors + e, warnings + w)
}

/// The report badge of one tool run: `✅ Pass` on success,
/// `❌ {n} error(s)` when it failed with `n > 0` errors, `❌ Fail` otherwise.
pub fn badge(exit_ok: bool, error_count: usize) -> (r: String)
    ensures
        r@ == if exit_ok {
            "✅ Pass"@
        } else if error_count > 0 {
            "❌ "@ + decimal(error_count as nat) + " error(s)"@
        } else {
            "❌ Fail"@
        },
{
    if exit_ok {
        String::from_str("✅ Pass")
    } else if error_count > 0 {
        let mut r = String::from_str("❌ ");
        append_decimal(&mut r, error_count as u64);
        r.append(" error(s)");
        r
    } else {
        String::from_str("❌ Fail")
    }
}

/// The report's overall status line: success only when every tool run
/// succeeded.
pub fn overall_status(exit_oks: &Vec<bool>) -> (r: &'static str)
    ensures
        r@ == if forall|i: int| 0 <= i < exit_oks@.len() ==> #[trigger] exit_oks@[i] {
            "✅ All checks passed"@
        } else {
            "❌ One or more checks failed"@
        },
{
    let mut i: usize = 0;
    while i < exit_oks.len()
        invariant
            i <= exit_oks@.len(),
            forall|j: int| 0 <= j < i ==> #[trigger] exit_oks@[j],
        decreases exit_oks.len() - i,
    {
        if !exit_oks[i] {
            return "❌ One or more checks failed";
        }
        i += 1;
    }
    "✅ All checks passed"
}

/// The body of a report section: the tool output without surrounding white
/// space, or `No output.` when nothing is left.
pub fn output_block(output: &str) -> (r: String)
    ensures
        r@ == if trim_end_seq(trim_start_seq(output@)).len() == 0 {
            "No output."@
        } else {
            trim_end_seq(trim_start_seq(output@))
        },
{
    let cs = chars_of(output);
    let start = leading_white(&cs);
    let mut end: usize = cs.len();
    while end > start && is_whitespace(cs[end - 1])
        invariant
            start <= end <= cs@.len(),
            trim_start_seq(cs@) == cs@.subrange(start as int, cs@.len() as int),
            trim_end_seq(cs@.subrange(start as int, cs@.len() as int)) == trim_end_seq(
                cs@.subrange(start as int, end as int),
            ),
        decreases end,
    {
        assert(cs@.subrange(start as int, end as int).drop_last() =~= cs@.subrange(
            start as int,
            end - 1,
        ));
        end -= 1;
    }
    let ghost mid = cs@.subrange(start as int, end as int);
    assert(mid.len() == 0 || !is_white(mid.last()));
    assert(trim_end_seq(mid) == mid);
    if end == start {
        return String::from_str("No output.");
    }
    let mut kept: Vec<char> = Vec::new();
    let mut j: usize = start;
    while j < end
        invariant
            start <= j <= end <= cs@.len(),
            kept@ == cs@.subrange(start as int, j as int),
        decreases end - j,
    {
        kept.push(cs[j]);
        j += 1;
    }
    string_of(&kept)
}

} // verus!
