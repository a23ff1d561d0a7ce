//! Verified primitives over text, modelled as `Seq<char>`.
//!
//! Everything downstream (code extraction, the tool grammar, the cleanup
//! transforms) is specified in terms of the spec functions here.
use vstd::prelude::*;

verus! {

/// The pattern `pat` occurs in `s` at position `i`.
pub open spec fn match_at(s: Seq<char>, pat: Seq<char>, i: int) -> bool {
    0 <= i && i + pat.len() <= s.len() && s.subrange(i, i + pat.len() as int) == pat
}

/// The pattern `pat` occurs somewhere in `s`.
pub open spec fn contains_pat(s: Seq<char>, pat: Seq<char>) -> bool {
    exists|i: int| match_at(s, pat, i)
}

/// Position of the first occurrence of `pat` in `s` at or after `i`,
/// or -1 if there is none.
pub open spec fn find_pat(s: Seq<char>, pat: Seq<char>, i: int) -> int
    decreases s.len() + 1 - i,
{
    if i < 0 || i + pat.len() > s.len() {
        -1
    } else if match_at(s, pat, i) {
        i
    } else {
        find_pat(s, pat, i + 1)
    }
}

/// `find_pat` returns either -1, with no occurrence at or after `i`, or
/// the position of the first occurrence at or after `i`.
pub proof fn lemma_find_pat(s: Seq<char>, pat: Seq<char>, i: int)
    requires
        0 <= i,
    ensures
        find_pat(s, pat, i) == -1 ==> forall|j: int| i <= j ==> !match_at(s, pat, j),
        find_pat(s, pat, i) != -1 ==> {
            let f = find_pat(s, pat, i);
            &&& i <= f
            &&& match_at(s, pat, f)
            &&& forall|j: int| i <= j < f ==> !match_at(s, pat, j)
        },
    decreases s.len() + 1 - i,
{
    if i + pat.len() > s.len() {
        assert forall|j: int| i <= j implies !match_at(s, pat, j) by {
            assert(j + pat.len() > s.len());
        }
    } else if match_at(s, pat, i) {
    } else {
        lemma_find_pat(s, pat, i + 1);
    }
}

/// Reports whether `pat` occurs in `s` at position `i`.
pub fn has_match_at(s: &str, pat: &str, i: usize) -> (r: bool)
    requires
        i + pat@.len() <= s@.len(),
    ensures
        r == match_at(s@, pat@, i as int),
{
    let n = s.unicode_len();
    let m = pat.unicode_len();
    let mut j: usize = 0;
    while j < m
        invariant
            n == s@.len(),
            m == pat@.len(),
            i + m <= n,
            0 <= j <= m,
            forall|k: int| 0 <= k < j ==> s@[i + k] == pat@[k],
        decreases m - j,
    {
        if s.get_char(i + j) != pat.get_char(j) {
            assert(!match_at(s@, pat@, i as int)) by {
                if match_at(s@, pat@, i as int) {
                    assert(s@.subrange(i as int, i + m as int)[j as int] == s@[i + j]);
                }
            }
            return false;
        }
        j += 1;
    }
    assert(s@.subrange(i as int, i + m as int) =~= pat@);
    true
}

/// First occurrence of `pat` in `s` at or after `from`, if any.
pub fn find_from(s: &str, from: usize, pat: &str) -> (r: Option<usize>)
    requires
        pat@.len() >= 1,
    ensures
        match r {
            Some(i) => {
                &&& from <= i
                &&& match_at(s@, pat@, i as int)
                &&& forall|j: int| from <= j < i ==> !match_at(s@, pat@, j)
            },
            None => forall|j: int| from <= j ==> !match_at(s@, pat@, j),
        },
{
    let n = s.unicode_len();
    let m = pat.unicode_len();
    if m > n || from > n - m {
        assert forall|j: int| from <= j implies !match_at(s@, pat@, j) by {
            assert(j + pat@.len() > s@.len());
        }
        return None;
    }
    let mut i = from;
    while i <= n - m
        invariant
            n == s@.len(),
            m == pat@.len(),
            1 <= m <= n,
            from <= i,
            forall|j: int| from <= j < i ==> !match_at(s@, pat@, j),
        decreases n - i,
    {
        if has_match_at(s, pat, i) {
            return Some(i);
        }
        i += 1;
    }
    assert forall|j: int| from <= j implies !match_at(s@, pat@, j) by {
        if j >= i {
            assert(j + pat@.len() > s@.len());
        }
    }
    None
}

/// First occurrence of `pat` at or after `from`, tied to the spec-level
/// `find_pat`.
pub fn find_first(s: &str, from: usize, pat: &str) -> (r: Option<usize>)
    requires
        pat@.len() >= 1,
    ensures
        match r {
            Some(i) => {
                &&& find_pat(s@, pat@, from as int) == i
                &&& from <= i
                &&& match_at(s@, pat@, i as int)
            },
            None => find_pat(s@, pat@, from as int) == -1,
        },
{
    proof {
        lemma_find_pat(s@, pat@, from as int);
    }
    let ghost f = find_pat(s@, pat@, from as int);
    match find_from(s, from, pat) {
        Some(i) => {
            proof {
                if f == -1 {
                    assert(!match_at(s@, pat@, i as int));
                }
                if f < i {
                    assert(!match_at(s@, pat@, f));
                }
                if i < f {
                    assert(!match_at(s@, pat@, i as int));
                }
            }
            Some(i)
        },
        None => {
            proof {
                if f != -1 {
                    assert(!match_at(s@, pat@, f));
                }
            }
            None
        },
    }
}

/// Reports whether `pat` occurs anywhere in `s`.
pub fn contains_str(s: &str, pat: &str) -> (r: bool)
    requires
        pat@.len() >= 1,
    ensures
        r == contains_pat(s@, pat@),
{
    match find_from(s, 0, pat) {
        Some(i) => {
            assert(match_at(s@, pat@, i as int));
            true
        },
        None => {
            assert forall|j: int| !match_at(s@, pat@, j) by {
                if j < 0 {
                } else {
                }
            }
            false
        },
    }
}

/// Reports whether `s` begins with `pat`.
pub fn starts_with_str(s: &str, pat: &str) -> (r: bool)
    ensures
        r == (pat@.len() <= s@.len() && s@.subrange(0, pat@.len() as int) == pat@),
{
    let n = s.unicode_len();
    let m = pat.unicode_len();
    if m > n {
        return false;
    }
    has_match_at(s, pat, 0)
}

/// Reports whether two strings hold the same characters.
pub fn str_eq_str(a: &str, b: &str) -> (r: bool)
    ensures
        r == (a@ == b@),
{
    let n = a.unicode_len();
    if n != b.unicode_len() {
        return false;
    }
    let mut i: usize = 0;
    while i < n
        invariant
            n == a@.len(),
            n == b@.len(),
            0 <= i <= n,
            forall|k: int| 0 <= k < i ==> a@[k] == b@[k],
        decreases n - i,
    {
        if a.get_char(i) != b.get_char(i) {
            return false;
        }
        i += 1;
    }
    assert(a@ =~= b@);
    true
}

/// `s` with every occurrence of `pat` replaced by `rep`, scanning left to
/// right without overlap.
pub open spec fn replaced(s: Seq<char>, pat: Seq<char>, rep: Seq<char>) -> Seq<char>
    decreases s.len(),
{
    if s.len() == 0 {
        s
    } else if 0 < pat.len() && pat.len() <= s.len() && s.subrange(0, pat.len() as int) == pat {
        rep + replaced(s.skip(pat.len() as int), pat, rep)
    } else {
        seq![s[0]] + replaced(s.skip(1), pat, rep)
    }
}

/// Replacement leaves a pattern-free string unchanged.
pub proof fn lemma_replaced_no_match(s: Seq<char>, pat: Seq<char>, rep: Seq<char>)
    requires
        pat.len() >= 1,
        !contains_pat(s, pat),
    ensures
        replaced(s, pat, rep) == s,
    decreases s.len(),
{
    if s.len() == 0 {
    } else {
        assert(!match_at(s, pat, 0));
        assert(!(pat.len() <= s.len() && s.subrange(0, pat.len() as int) == pat));
        assert(!contains_pat(s.skip(1), pat)) by {
            if contains_pat(s.skip(1), pat) {
                let j = choose|j: int| match_at(s.skip(1), pat, j);
                assert(s.skip(1).subrange(j, j + pat.len() as int) =~= s.subrange(
                    j + 1,
                    j + 1 + pat.len() as int,
                ));
                assert(match_at(s, pat, j + 1));
            }
        }
        lemma_replaced_no_match(s.skip(1), pat, rep);
        assert(seq![s[0]] + s.skip(1) =~= s);
    }
}

/// Replaces every occurrence of `pat` in `s` by `rep`.
pub fn replace_all(s: &str, pat: &str, rep: &str) -> (r: String)
    requires
        pat@.len() >= 1,
    ensures
        r@ == replaced(s@, pat@, rep@),
{
    let n = s.unicode_len();
    let m = pat.unicode_len();
    let mut out = String::new();
    let mut i: usize = 0;
    assert(s@.skip(0) =~= s@);
    while i < n
        invariant
            n == s@.len(),
            m == pat@.len(),
            1 <= m,
            0 <= i <= n,
            replaced(s@, pat@, rep@) == out@ + replaced(s@.skip(i as int), pat@, rep@),
        decreases n - i,
    {
        let ghost tail = s@.skip(i as int);
        assert(tail.len() == n - i);
        if m <= n - i && has_match_at(s, pat, i) {
            assert(tail.subrange(0, m as int) =~= s@.subrange(i as int, i + m as int));
            assert(replaced(tail, pat@, rep@) == rep@ + replaced(
                tail.skip(m as int),
                pat@,
                rep@,
            ));
            assert(tail.skip(m as int) =~= s@.skip(i + m as int));
            out.append(rep);
            i += m;
        } else {
            assert(!(m <= tail.len() && tail.subrange(0, m as int) == pat@)) by {
                if i + m <= n {
                    assert(tail.subrange(0, m as int) =~= s@.subrange(i as int, i + m as int));
                }
            }
            assert(replaced(tail, pat@, rep@) == seq![tail[0]] + replaced(
                tail.skip(1),
                pat@,
                rep@,
            ));
            let c = s.substring_char(i, i + 1);
            assert(c@ =~= seq![tail[0]]);
            assert(tail.skip(1) =~= s@.skip(i + 1));
            out.append(c);
            i += 1;
        }
    }
    assert(s@.skip(n as int) =~= Seq::<char>::empty());
    assert(out@ =~= out@ + replaced(s@.skip(n as int), pat@, rep@));
    out
}

/// A whitespace character, as the cleanup transforms understand it.
pub open spec fn is_space_char(c: char) -> bool {
    c == ' ' || c == '\n' || c == '\t' || c == '\r'
}

/// `s` without its trailing whitespace.
pub open spec fn trim_back_spec(s: Seq<char>) -> Seq<char>
    decreases s.len(),
{
    if s.len() > 0 && is_space_char(s[s.len() - 1]) {
        trim_back_spec(s.take(s.len() - 1))
    } else {
        s
    }
}

/// `s` without its leading whitespace.
pub open spec fn trim_front_spec(s: Seq<char>) -> Seq<char>
    decreases s.len(),
{
    if s.len() > 0 && is_space_char(s[0]) {
        trim_front_spec(s.skip(1))
    } else {
        s
    }
}

/// `s` without leading and trailing whitespace.
pub open spec fn trimmed(s: Seq<char>) -> Seq<char> {
    trim_front_spec(trim_back_spec(s))
}

fn is_space_exec(c: char) -> (r: bool)
    ensures
        r == is_space_char(c),
{
    c == ' ' || c == '\n' || c == '\t' || c == '\r'
}

/// Strips leading and trailing whitespace.
pub fn trim(s: &str) -> (r: String)
    ensures
        r@ == trimmed(s@),
{
    let n = s.unicode_len();
    let mut b: usize = n;
    assert(s@.take(n as int) =~= s@);
    while b > 0 && is_space_exec(s.get_char(b - 1))
        invariant
            n == s@.len(),
            0 <= b <= n,
            trim_back_spec(s@) == trim_back_spec(s@.take(b as int)),
        decreases b,
    {
        let ghost u = s@.take(b as int);
        assert(u[b - 1] == s@[b - 1]);
        assert(u.take(b - 1) =~= s@.take(b - 1 as int));
        b -= 1;
    }
    let ghost t = s@.take(b as int);
    assert(trim_back_spec(s@) == t) by {
        if b > 0 {
            assert(t[b - 1] == s@[b - 1]);
        }
    }
    let mut a: usize = 0;
    while a < b && is_space_exec(s.get_char(a))
        invariant
            n == s@.len(),
            0 <= a <= b <= n,
            t == s@.take(b as int),
            trim_front_spec(t) == trim_front_spec(s@.subrange(a as int, b as int)),
        decreases b - a,
    {
        let ghost u = s@.subrange(a as int, b as int);
        assert(u[0] == s@[a as int]);
        assert(u.skip(1) =~= s@.subrange(a + 1 as int, b as int));
        assert(t =~= s@.subrange(0, b as int));
        a += 1;
    }
    let ghost u = s@.subrange(a as int, b as int);
    assert(trim_front_spec(t) == u) by {
        if a < b {
            assert(u[0] == s@[a as int]);
        }
    }
    let r = s.substring_char(a, b);
    r.to_owned()
}

/// What `trim_assistant_prefix` returns: the text behind a leading
/// `Assistant:` tag, its leading whitespace dropped; or the text
/// unchanged if the tag is absent.
pub open spec fn trim_assistant_prefix_spec(s: Seq<char>) -> Seq<char> {
    if "Assistant:"@.len() <= s.len() && s.subrange(0, "Assistant:"@.len() as int)
        == "Assistant:"@ {
        trim_front_spec(s.skip("Assistant:"@.len() as int))
    } else {
        s
    }
}

/// Strips a leading `Assistant:` tag, and the whitespace after it, from
/// a model reply.
pub fn trim_assistant_prefix(s: &str) -> (r: &str)
    ensures
        r@ == trim_assistant_prefix_spec(s@),
{
    proof {
        reveal_strlit("Assistant:");
    }
    let n = s.unicode_len();
    if !starts_with_str(s, "Assistant:") {
        return s;
    }
    let mut a: usize = 10;
    assert(s@.skip(10) =~= s@.subrange(10, n as int));
    while a < n && is_space_exec(s.get_char(a))
        invariant
            n == s@.len(),
            10 <= a <= n,
            trim_front_spec(s@.skip(10)) == trim_front_spec(s@.subrange(a as int, n as int)),
        decreases n - a,
    {
        let ghost u = s@.subrange(a as int, n as int);
        assert(u[0] == s@[a as int]);
        assert(u.skip(1) =~= s@.subrange(a + 1 as int, n as int));
        a += 1;
    }
    assert(s@.skip(10) =~= s@.subrange(10, n as int));
    let ghost u = s@.subrange(a as int, n as int);
    assert(trim_front_spec(s@.skip(10)) == u) by {
        if a < n {
            assert(u[0] == s@[a as int]);
        }
    }
    s.substring_char(a, n)
}

/// The number of positions at which `pat` occurs in `s` at or after `i`,
/// counting overlapping occurrences.
pub open spec fn count_matches_from(s: Seq<char>, pat: Seq<char>, i: int) -> nat
    decreases s.len() + 1 - i,
{
    if i < 0 || i + pat.len() > s.len() {
        0
    } else {
        (if match_at(s, pat, i) {
            1nat
        } else {
            0nat
        }) + count_matches_from(s, pat, i + 1)
    }
}

/// The count from `i` on is zero exactly when no occurrence starts at or
/// after `i`.
pub proof fn lemma_count_zero_iff_no_match(s: Seq<char>, pat: Seq<char>, i: int)
    requires
        0 <= i,
    ensures
        count_matches_from(s, pat, i) == 0 <==> forall|j: int| i <= j ==> !match_at(s, pat, j),
    decreases s.len() + 1 - i,
{
    if i + pat.len() > s.len() {
        assert forall|j: int| i <= j implies !match_at(s, pat, j) by {
            assert(j + pat.len() > s.len());
        }
    } else {
        lemma_count_zero_iff_no_match(s, pat, i + 1);
    }
}

/// Skipping over a match-free stretch does not change the count.
pub proof fn lemma_count_same_over_gap(s: Seq<char>, pat: Seq<char>, i: int, j: int)
    requires
        0 <= i <= j,
        forall|l: int| i <= l < j ==> !match_at(s, pat, l),
    ensures
        count_matches_from(s, pat, i) == count_matches_from(s, pat, j),
    decreases j - i,
{
    if i < j {
        if i + pat.len() > s.len() {
            assert forall|l: int| j <= l implies !match_at(s, pat, l) by {
                assert(l + pat.len() > s.len());
            }
            lemma_count_zero_iff_no_match(s, pat, j);
        } else {
            lemma_count_same_over_gap(s, pat, i + 1, j);
        }
    }
}

/// Counts the positions at which `pat` occurs in `s`, overlapping
/// occurrences included.
pub fn count_matches(s: &str, pat: &str) -> (r: usize)
    requires
        pat@.len() >= 1,
    ensures
        r == count_matches_from(s@, pat@, 0),
{
    let n = s.unicode_len();
    let m = pat.unicode_len();
    if m > n {
        return 0;
    }
    let mut i: usize = 0;
    let mut c: usize = 0;
    while i <= n - m
        invariant
            n == s@.len(),
            m == pat@.len(),
            1 <= m <= n,
            0 <= i <= n - m + 1,
            c <= i,
            count_matches_from(s@, pat@, 0) == c + count_matches_from(s@, pat@, i as int),
        decreases n - i,
    {
        if has_match_at(s, pat, i) {
            c += 1;
        }
        i += 1;
    }
    assert(count_matches_from(s@, pat@, i as int) == 0);
    c
}

} // verus!
