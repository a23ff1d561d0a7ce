//! Extraction of runnable code from a markdown-fenced model reply, and
//! the cosmetic cleanup transforms applied to terminal deliverables.
use vstd::prelude::*;

use crate::errors::CodeError;
use crate::text::contains_pat;
use crate::text::count_matches;
use crate::text::count_matches_from;
use crate::text::find_from;
use crate::text::find_pat;
use crate::text::lemma_count_zero_iff_no_match;
use crate::text::lemma_find_pat;
use crate::text::match_at;
use crate::text::trim;
use crate::text::trimmed;

verus! {

/// The code-fence delimiter.
pub open spec fn fence() -> Seq<char> {
    "```"@
}

/// The pieces of `s` that lie between consecutive occurrences of `pat`,
/// scanning left to right without overlap; the piece after the last
/// occurrence (or all of `s`, if there is none) included.
pub open spec fn segments(s: Seq<char>, pat: Seq<char>) -> Seq<Seq<char>>
    decreases s.len(),
{
    let f = find_pat(s, pat, 0);
    if pat.len() == 0 || f < 0 || f + pat.len() > s.len() {
        seq![s]
    } else {
        seq![s.subrange(0, f)] + segments(s.skip(f + pat.len() as int), pat)
    }
}

/// Splits `s` at each occurrence of `pat`.
pub fn split_all(s: &str, pat: &str) -> (r: Vec<String>)
    requires
        pat@.len() >= 1,
    ensures
        r.deep_view() == segments(s@, pat@),
        r.len() >= 1,
    decreases s@.len(),
{
    proof {
        lemma_find_pat(s@, pat@, 0);
    }
    match find_from(s, 0, pat) {
        None => {
            proof {
                if find_pat(s@, pat@, 0) != -1 {
                    assert(match_at(s@, pat@, find_pat(s@, pat@, 0)));
                }
            }
            let mut v: Vec<String> = Vec::new();
            v.push(s.to_owned());
            assert(v.deep_view() =~~= seq![s@]);
            v
        },
        Some(i) => {
            let ghost f = find_pat(s@, pat@, 0);
            proof {
                if f == -1 {
                    assert(!match_at(s@, pat@, i as int));
                }
                if f < i {
                    assert(!match_at(s@, pat@, f));
                }
                if i < f {
                    assert(!match_at(s@, pat@, i as int));
                }
                assert(f == i);
            }
            let n = s.unicode_len();
            let m = pat.unicode_len();
            let pre = s.substring_char(0, i).to_owned();
            let rest = s.substring_char(i + m, n);
            assert(rest@ =~= s@.skip(i + m as int));
            let mut v = split_all(rest, pat);
            v.insert(0, pre);
            assert(v.deep_view() =~~= seq![s@.subrange(0, i as int)] + segments(
                s@.skip(i + m as int),
                pat@,
            ));
            v
        },
    }
}

/// The fence-delimited contents among `segs` from index `i` on: each
/// segment at an odd index, trimmed, the pieces joined by single
/// newlines. `first` records whether no piece has been emitted yet.
pub open spec fn joined_code(segs: Seq<Seq<char>>, i: int, first: bool) -> Seq<char>
    decreases segs.len() + 1 - i,
{
    if i < 0 || i >= segs.len() {
        Seq::empty()
    } else if i % 2 == 0 {
        joined_code(segs, i + 1, first)
    } else {
        let piece = trimmed(segs[i]);
        let rest = joined_code(segs, i + 1, false);
        if first {
            piece + rest
        } else {
            seq!['\n'] + piece + rest
        }
    }
}

fn join_code_from(v: &Vec<String>, i: usize, first: bool) -> (r: String)
    ensures
        r@ == joined_code(v.deep_view(), i as int, first),
    decreases v.len() - i,
{
    if i >= v.len() {
        String::new()
    } else if i % 2 == 0 {
        join_code_from(v, i + 1, first)
    } else {
        let piece = trim(v[i].as_str());
        let rest = join_code_from(v, i + 1, false);
        assert(v.deep_view()[i as int] == v@[i as int]@);
        if first {
            piece.concat(rest.as_str())
        } else {
            let mut out = "\n".to_owned();
            out.append(piece.as_str());
            out.append(rest.as_str());
            assert(out@ =~= seq!['\n'] + piece@ + rest@) by {
                reveal_strlit("\n");
            }
            out
        }
    }
}

/// The reply, with a lone trailing fence appended when the fence count
/// is odd, so that every opening fence is closed.
pub open spec fn balanced(s: Seq<char>) -> Seq<char> {
    if count_matches_from(s, fence(), 0) % 2 == 1 {
        s + "\n```"@
    } else {
        s
    }
}

/// The code a fenced reply holds: the contents of its fence-delimited
/// blocks, trimmed and joined by newlines, tolerating one missing
/// closing fence.
pub open spec fn extract_code_spec(s: Seq<char>) -> Seq<char> {
    joined_code(segments(balanced(s), fence()), 0, true)
}

/// Extracts the fenced code blocks of `s`, closing an unclosed final
/// fence first.
pub fn extract_fenced_code(s: &str) -> (r: String)
    ensures
        r@ == extract_code_spec(s@),
{
    proof {
        reveal_strlit("```");
        reveal_strlit("\n```");
    }
    let c = count_matches(s, "```");
    let t: String = if c % 2 == 1 {
        let mut t = s.to_owned();
        t.append("\n```");
        t
    } else {
        s.to_owned()
    };
    assert(t@ == balanced(s@));
    let segs = split_all(t.as_str(), "```");
    join_code_from(&segs, 0, true)
}

/// The extractor behind the code-producing agents: fence labels are
/// normalised away, then the fenced blocks are extracted.
pub open spec fn format_code_output_spec(s: Seq<char>) -> Seq<char> {
    extract_code_spec(
        crate::text::replaced(
            crate::text::replaced(s, "```python"@, "```"@),
            "```py"@,
            "```"@,
        ),
    )
}

/// Shapes a free-form model reply into the code it carries: `python` and
/// `py` fence labels are dropped, an unclosed final fence is closed, and
/// the fenced blocks are trimmed and joined by newlines.
pub fn format_code_output(output: &str) -> (r: Result<String, CodeError>)
    ensures
        r is Ok,
        r matches Ok(code) ==> code@ == format_code_output_spec(output@),
{
    proof {
        reveal_strlit("```python");
        reveal_strlit("```py");
    }
    let a = crate::text::replace_all(output, "```python", "```");
    let b = crate::text::replace_all(a.as_str(), "```py", "```");
    Ok(extract_fenced_code(b.as_str()))
}

proof fn lemma_count_append_closer(s: Seq<char>, i: int)
    requires
        0 <= i,
    ensures
        count_matches_from(s + "\n```"@, fence(), i) == count_matches_from(s, fence(), i) + (
        if i <= s.len() + 1 {
            1int
        } else {
            0int
        }),
    decreases s.len() + 5 - i,
{
    reveal_strlit("\n```");
    reveal_strlit("```");
    let app = "\n```"@;
    let t = s + app;
    let n = s.len() as int;
    assert(app.len() == 4);
    assert(t.len() == n + 4);
    if i > n + 1 {
        assert(count_matches_from(t, fence(), i) == 0);
        assert(count_matches_from(s, fence(), i) == 0);
    } else {
        lemma_count_append_closer(s, i + 1);
        if i + 3 <= n {
            assert(t.subrange(i, i + 3) =~= s.subrange(i, i + 3));
            assert(match_at(t, fence(), i) == match_at(s, fence(), i));
        } else if i <= n {
            // the window crosses into the appended newline
            assert(t[n] == '\n');
            assert(!match_at(t, fence(), i)) by {
                if match_at(t, fence(), i) {
                    assert(t.subrange(i, i + 3)[n - i] == t[n]);
                    assert(fence()[n - i] == '\n');
                }
            }
            assert(count_matches_from(s, fence(), i) == 0);
        } else {
            // i == n + 1: exactly the appended fence
            assert(t.subrange(n + 1, n + 4) =~= app.subrange(1, 4));
            assert(app.subrange(1, 4) =~= fence());
            assert(match_at(t, fence(), i));
            assert(count_matches_from(s, fence(), i) == 0);
        }
    }
}

/// Appending a lone closing fence to a reply whose fences are unbalanced
/// does not change what the extractor returns: the missing fence is
/// supplied either way.
pub proof fn lemma_extract_missing_fence(s: Seq<char>)
    requires
        count_matches_from(s, fence(), 0) % 2 == 1,
    ensures
        extract_code_spec(s + "\n```"@) == extract_code_spec(s),
{
    lemma_count_append_closer(s, 0);
    assert(balanced(s) == s + "\n```"@);
    assert(balanced(s + "\n```"@) == s + "\n```"@);
}

/// A reply with exactly one fence is missing its closing fence: the
/// extractor returns exactly the trimmed content between that fence and
/// the end of the text.
pub proof fn lemma_extract_single_fence(s: Seq<char>)
    requires
        count_matches_from(s, fence(), 0) == 1,
    ensures
        find_pat(s, fence(), 0) >= 0,
        extract_code_spec(s) == trimmed(s.skip(find_pat(s, fence(), 0) + 3)),
{
    reveal_strlit("\n```");
    reveal_strlit("```");
    let app = "\n```"@;
    let t = s + app;
    let n = s.len() as int;
    let p = find_pat(s, fence(), 0);
    lemma_find_pat(s, fence(), 0);
    if p == -1 {
        lemma_count_zero_iff_no_match(s, fence(), 0);
        assert(false);
    }
    assert(match_at(s, fence(), p));
    assert(p + 3 <= n);
    // the single occurrence in s sits at p and nowhere else
    crate::text::lemma_count_same_over_gap(s, fence(), 0, p);
    assert(count_matches_from(s, fence(), p) == 1);
    assert(count_matches_from(s, fence(), p + 1) == 0);
    lemma_count_zero_iff_no_match(s, fence(), p + 1);
    // occurrences in t: p, and the appended fence at n + 1
    assert(balanced(s) == t);
    assert(t.subrange(p, p + 3) =~= s.subrange(p, p + 3));
    assert(match_at(t, fence(), p));
    assert(t.subrange(n + 1, n + 4) =~= app.subrange(1, 4));
    assert(app.subrange(1, 4) =~= fence());
    assert(match_at(t, fence(), n + 1));
    assert forall|j: int| 0 <= j < t.len() && j != p && j != n + 1 implies !match_at(
        t,
        fence(),
        j,
    ) by {
        if j + 3 <= n {
            assert(t.subrange(j, j + 3) =~= s.subrange(j, j + 3));
            if match_at(t, fence(), j) {
                assert(match_at(s, fence(), j));
            }
        } else if j <= n {
            assert(t[n] == '\n');
            if match_at(t, fence(), j) {
                assert(t.subrange(j, j + 3)[n - j] == t[n]);
                assert(fence()[n - j] == '\n');
            }
        } else {
            assert(j + 3 > t.len());
        }
    }
    // hence the first occurrence in t is p
    lemma_find_pat(t, fence(), 0);
    let f = find_pat(t, fence(), 0);
    assert(f != -1);
    assert(f == p) by {
        if f < p {
            assert(!match_at(t, fence(), f));
        }
        if p < f {
            assert(!match_at(t, fence(), p));
        }
    }
    // segments of t: the prefix, then the remainder holding the closer
    let u = t.skip(p + 3);
    let k = n - (p + 3);
    assert(u.len() == k + 4);
    assert(segments(t, fence()) == seq![t.subrange(0, p)] + segments(u, fence()));
    // within u the only occurrence is the appended fence at k + 1
    assert(u =~= s.skip(p + 3) + app);
    assert(u.subrange(k + 1, k + 4) =~= app.subrange(1, 4));
    assert(match_at(u, fence(), k + 1));
    assert forall|j: int| 0 <= j < k + 1 implies !match_at(u, fence(), j) by {
        if match_at(u, fence(), j) {
            if j + 3 <= k {
                assert(u.subrange(j, j + 3) =~= t.subrange(p + 3 + j, p + 3 + j + 3));
                assert(match_at(t, fence(), p + 3 + j));
            } else {
                assert(u[k] == '\n');
                assert(u.subrange(j, j + 3)[k - j] == u[k]);
                assert(fence()[k - j] == '\n');
            }
        }
    }
    lemma_find_pat(u, fence(), 0);
    let g = find_pat(u, fence(), 0);
    assert(g != -1);
    assert(g == k + 1) by {
        if g < k + 1 {
            assert(!match_at(u, fence(), g));
        }
        if k + 1 < g {
            assert(!match_at(u, fence(), k + 1));
        }
    }
    let w = u.skip(k + 4);
    assert(w =~= Seq::<char>::empty());
    assert(find_pat(w, fence(), 0) == -1);
    assert(segments(w, fence()) == seq![w]);
    assert(segments(u, fence()) == seq![u.subrange(0, k + 1)] + seq![w]);
    let segs = segments(t, fence());
    assert(segs =~= seq![t.subrange(0, p), u.subrange(0, k + 1), w]);
    // joining picks exactly the middle segment
    assert(joined_code(segs, 3, false) =~= Seq::<char>::empty());
    assert(joined_code(segs, 2, false) =~= Seq::<char>::empty());
    assert(joined_code(segs, 1, true) == trimmed(u.subrange(0, k + 1)) + joined_code(
        segs,
        2,
        false,
    ));
    assert(joined_code(segs, 0, true) == trimmed(u.subrange(0, k + 1)) + Seq::<
        char,
    >::empty());
    assert(joined_code(segs, 0, true) =~= trimmed(u.subrange(0, k + 1)));
    // the middle segment is the tail of s with the appended newline
    assert(u.subrange(0, k + 1) =~= s.skip(p + 3) + seq!['\n']);
    lemma_trim_drop_trailing_space(s.skip(p + 3), '\n');
    assert(extract_code_spec(s) == trimmed(s.skip(p + 3)));
}

/// Trailing whitespace does not survive trimming.
proof fn lemma_trim_drop_trailing_space(x: Seq<char>, c: char)
    requires
        crate::text::is_space_char(c),
    ensures
        trimmed(x + seq![c]) == trimmed(x),
{
    let y = x + seq![c];
    assert(y[y.len() - 1] == c);
    assert(y.take(y.len() - 1) =~= x);
    assert(crate::text::trim_back_spec(y) == crate::text::trim_back_spec(x));
}

/// The marker a tool turn carries when its tool produced no output.
pub open spec fn empty_output_marker() -> Seq<char> {
    "output: none: null"@
}

/// The cosmetic cleanup applied to terminal deliverables: code fences
/// (labelled `yaml` or bare) and the empty-output marker are removed.
pub open spec fn cleanup_spec(s: Seq<char>) -> Seq<char> {
    crate::text::replaced(
        crate::text::replaced(
            crate::text::replaced(s, "```yaml"@, Seq::empty()),
            fence(),
            Seq::empty(),
        ),
        empty_output_marker(),
        Seq::empty(),
    )
}

/// Text on which the cleanup transform has nothing left to do.
pub open spec fn is_cleaned(s: Seq<char>) -> bool {
    !contains_pat(s, fence()) && !contains_pat(s, empty_output_marker())
}

/// Removes code-fence delimiters and the empty-output marker from a
/// terminal deliverable.
pub fn cleanup_transform(s: &str) -> (r: String)
    ensures
        r@ == cleanup_spec(s@),
{
    proof {
        reveal_strlit("```yaml");
        reveal_strlit("```");
        reveal_strlit("output: none: null");
        reveal_strlit("");
        assert(""@ =~= Seq::<char>::empty());
    }
    let a = crate::text::replace_all(s, "```yaml", "");
    let b = crate::text::replace_all(a.as_str(), "```", "");
    crate::text::replace_all(b.as_str(), "output: none: null", "")
}

/// The number of leading occurrences of `c` in `s`.
pub open spec fn leading(s: Seq<char>, c: char) -> nat
    decreases s.len(),
{
    if s.len() > 0 && s[0] == c {
        1 + leading(s.skip(1), c)
    } else {
        0
    }
}

proof fn lemma_leading_le_len(s: Seq<char>, c: char)
    ensures
        leading(s, c) <= s.len(),
    decreases s.len(),
{
    if s.len() > 0 && s[0] == c {
        lemma_leading_le_len(s.skip(1), c);
    }
}

proof fn lemma_match_shift(x: char, t: Seq<char>, pat: Seq<char>, j: int)
    requires
        j >= 1,
        match_at(seq![x] + t, pat, j),
    ensures
        match_at(t, pat, j - 1),
{
    assert((seq![x] + t).subrange(j, j + pat.len() as int) =~= t.subrange(
        j - 1,
        j - 1 + pat.len() as int,
    ));
}

proof fn lemma_match0_leading(r: Seq<char>, c: char)
    requires
        match_at(r, seq![c, c, c], 0),
    ensures
        leading(r, c) >= 3,
{
    assert(r[0] == seq![c, c, c][0]) by {
        assert(r.subrange(0, 3)[0] == r[0]);
    }
    assert(r[1] == c) by {
        assert(r.subrange(0, 3)[1] == r[1]);
    }
    assert(r[2] == c) by {
        assert(r.subrange(0, 3)[2] == r[2]);
    }
    assert(r.skip(1)[0] == c);
    assert(r.skip(1).skip(1) =~= r.skip(2));
    assert(r.skip(2)[0] == c);
    assert(leading(r.skip(2), c) >= 1);
    assert(leading(r.skip(1), c) >= 2);
}

/// Removing every occurrence of a three-character run of `c` leaves no
/// such run behind, and never lengthens the leading run of `c`.
proof fn lemma_strip_uniform(s: Seq<char>, c: char)
    ensures
        !contains_pat(crate::text::replaced(s, seq![c, c, c], Seq::empty()), seq![c, c, c]),
        leading(crate::text::replaced(s, seq![c, c, c], Seq::empty()), c) <= leading(s, c),
    decreases s.len(),
{
    let pat = seq![c, c, c];
    let r = crate::text::replaced(s, pat, Seq::empty());
    if s.len() == 0 {
        assert(forall|i: int| !match_at(r, pat, i));
    } else if pat.len() <= s.len() && s.subrange(0, pat.len() as int) == pat {
        lemma_strip_uniform(s.skip(3), c);
        assert(r =~= crate::text::replaced(s.skip(3), pat, Seq::empty()));
        assert(s[0] == c) by {
            assert(s.subrange(0, 3)[0] == s[0]);
        }
        assert(s[1] == c) by {
            assert(s.subrange(0, 3)[1] == s[1]);
        }
        assert(s[2] == c) by {
            assert(s.subrange(0, 3)[2] == s[2]);
        }
        assert(s.skip(1)[0] == c);
        assert(s.skip(1).skip(1) =~= s.skip(2));
        assert(s.skip(2)[0] == c);
        assert(s.skip(2).skip(1) =~= s.skip(3));
        assert(leading(s.skip(2), c) == 1 + leading(s.skip(3), c));
        assert(leading(s.skip(1), c) == 1 + leading(s.skip(2), c));
        assert(leading(s, c) == 1 + leading(s.skip(1), c));
        assert(leading(s, c) == 3 + leading(s.skip(3), c));
    } else {
        lemma_strip_uniform(s.skip(1), c);
        let rr = crate::text::replaced(s.skip(1), pat, Seq::empty());
        assert(r == seq![s[0]] + rr);
        // no occurrence in the tail of r
        assert forall|j: int| 1 <= j implies !match_at(r, pat, j) by {
            if match_at(r, pat, j) {
                lemma_match_shift(s[0], rr, pat, j);
            }
        }
        // the leading run stays short, so no occurrence at the front either
        if s[0] == c {
            assert(leading(s, c) <= 2) by {
                lemma_leading_le_len(s, c);
                if s.len() >= 3 {
                    if s[1] == c && s[2] == c {
                        assert(s.subrange(0, 3) =~= pat);
                        assert(false);
                    }
                    if s[1] != c {
                        assert(s.skip(1)[0] != c);
                        assert(leading(s.skip(1), c) == 0);
                        assert(leading(s, c) == 1);
                    } else {
                        assert(s.skip(1)[0] == c);
                        assert(s.skip(1).skip(1) =~= s.skip(2));
                        assert(s.skip(2)[0] != c);
                        assert(leading(s.skip(2), c) == 0);
                        assert(leading(s.skip(1), c) == 1 + leading(s.skip(2), c));
                        assert(leading(s, c) == 1 + leading(s.skip(1), c));
                    }
                }
            }
            assert(r[0] == c);
            assert(r.skip(1) =~= rr);
            assert(leading(r, c) == 1 + leading(rr, c));
        } else {
            assert(r[0] != c);
            assert(leading(r, c) == 0);
            assert(r.skip(1) =~= rr);
        }
        assert(leading(r, c) <= leading(s, c));
        if match_at(r, pat, 0) {
            lemma_match0_leading(r, c);
        }
        assert forall|j: int| !match_at(r, pat, j) by {
            if 1 <= j {
                if match_at(r, pat, j) {
                    lemma_match_shift(s[0], rr, pat, j);
                }
            }
        }
    }
}

/// Stripping bare fences is idempotent on every input: the result never
/// contains a fence.
pub proof fn lemma_fence_strip_clean(s: Seq<char>)
    ensures
        !contains_pat(crate::text::replaced(s, fence(), Seq::empty()), fence()),
{
    reveal_strlit("```");
    assert(fence() =~= seq!['`', '`', '`']);
    lemma_strip_uniform(s, '`');
}

/// An occurrence of a labelled fence is an occurrence of a bare fence.
proof fn lemma_yaml_fence_contains(s: Seq<char>, i: int)
    requires
        match_at(s, "```yaml"@, i),
    ensures
        match_at(s, fence(), i),
{
    reveal_strlit("```yaml");
    reveal_strlit("```");
    assert(s.subrange(i, i + 3) =~= s.subrange(i, i + 7).subrange(0, 3));
    assert("```yaml"@.subrange(0, 3) =~= "```"@);
}

/// Re-running the cosmetic cleanup on already-cleaned text is a no-op.
pub proof fn lemma_cleanup_noop_on_cleaned(s: Seq<char>)
    requires
        is_cleaned(s),
    ensures
        cleanup_spec(s) == s,
{
    reveal_strlit("```yaml");
    reveal_strlit("```");
    reveal_strlit("output: none: null");
    assert(!contains_pat(s, "```yaml"@)) by {
        if contains_pat(s, "```yaml"@) {
            let i = choose|i: int| match_at(s, "```yaml"@, i);
            lemma_yaml_fence_contains(s, i);
        }
    }
    crate::text::lemma_replaced_no_match(s, "```yaml"@, Seq::empty());
    crate::text::lemma_replaced_no_match(s, fence(), Seq::empty());
    crate::text::lemma_replaced_no_match(s, empty_output_marker(), Seq::empty());
}

/// The cleanup transform is idempotent wherever its own output is
/// cleaned text. The fence part needs no such premise
/// (`lemma_fence_strip_clean`); only the empty-output marker can, on
/// contrived inputs, be re-formed by the removal itself.
pub proof fn lemma_cleanup_idempotent(s: Seq<char>)
    requires
        is_cleaned(cleanup_spec(s)),
    ensures
        cleanup_spec(cleanup_spec(s)) == cleanup_spec(s),
{
    lemma_cleanup_noop_on_cleaned(cleanup_spec(s));
}

/// What the planning stage reports: the text after the last `content:`
/// label, the empty-output marker removed, whitespace trimmed, and one
/// leading block-scalar bar dropped.
pub open spec fn report_cleanup_spec(s: Seq<char>) -> Seq<char> {
    let tail = segments(s, "content:"@).last();
    let t = trimmed(crate::text::replaced(tail, empty_output_marker(), Seq::empty()));
    if t.len() > 0 && t[0] == '|' {
        t.skip(1)
    } else {
        t
    }
}

/// Shapes the raw terminal tool turn into the report handed onward.
pub fn clean_report(s: &str) -> (r: String)
    ensures
        r@ == report_cleanup_spec(s@),
{
    proof {
        reveal_strlit("content:");
        reveal_strlit("output: none: null");
        reveal_strlit("");
        assert(""@ =~= Seq::<char>::empty());
    }
    let segs = split_all(s, "content:");
    let last = &segs[segs.len() - 1];
    assert(last@ == segments(s@, "content:"@).last());
    let u = crate::text::replace_all(last.as_str(), "output: none: null", "");
    let t = trim(u.as_str());
    let n = t.as_str().unicode_len();
    if n > 0 && t.as_str().get_char(0) == '|' {
        let r = t.as_str().substring_char(1, n).to_owned();
        assert(r@ =~= t@.skip(1));
        r
    } else {
        t
    }
}

} // verus!
