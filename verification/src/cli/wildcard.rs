//! Wildcard matching of file names: `*` matches any run and `?` any one
//! element. The matcher is the greedy one that backtracks to the last `*`
//! only; where the text holds no `*` it decides glob matching (`glob_spec`).

use vstd::laws_eq::obeys_concrete_eq;
use vstd::std_specs::cmp::PartialEqSpec;
use vstd::prelude::*;

verus! {

/// Whether `p[pi..]` holds only stars.
pub open spec fn only_stars<T>(p: Seq<T>, star: T, pi: int) -> bool {
    forall|k: int| pi <= k < p.len() ==> p[k] == star
}

/// Whether a state of the greedy matcher is one it can reach.
pub open spec fn match_state_ok<T>(p: Seq<T>, t: Seq<T>, pi: int, ti: int, si: Option<int>, sti: int) -> bool {
    &&& 0 <= pi <= p.len()
    &&& 0 <= sti <= ti <= t.len()
    &&& match si {
        Some(s) => 0 <= s < pi && s < p.len(),
        None => true,
    }
}

/// The greedy matcher from the state `(pi, ti, si, sti)`: the pattern and
/// text positions, the last star seen and the text position it was tried at.
/// A pattern element matches a text element that equals it or is `question`;
/// a `star` first matches nothing, and on a mismatch it takes one more
/// element; at the end of the text only stars may remain in the pattern.
pub open spec fn greedy_match<T>(
    p: Seq<T>,
    t: Seq<T>,
    star: T,
    question: T,
    pi: int,
    ti: int,
    si: Option<int>,
    sti: int,
) -> bool
    decreases t.len() - sti, t.len() - ti + p.len() - pi,
    when match_state_ok(p, t, pi, ti, si, sti)
{
    if ti < t.len() {
        if pi < p.len() && (p[pi] == question || p[pi] == t[ti]) {
            greedy_match(p, t, star, question, pi + 1, ti + 1, si, sti)
        } else if pi < p.len() && p[pi] == star {
            greedy_match(p, t, star, question, pi + 1, ti, Some(pi), ti)
        } else if let Some(s) = si {
            greedy_match(p, t, star, question, s + 1, sti + 1, si, sti + 1)
        } else {
            false
        }
    } else {
        only_stars(p, star, pi)
    }
}

/// Whether the greedy matcher accepts `t` for `p`.
pub open spec fn wildcard_spec<T>(p: Seq<T>, t: Seq<T>, star: T, question: T) -> bool {
    greedy_match(p, t, star, question, 0, 0, None, 0)
}

/// Glob matching of `p[i..]` against `t[j..]`: `star` matches any run of
/// elements, `question` any one element, and any other element itself.
pub open spec fn glob_from<T>(p: Seq<T>, t: Seq<T>, star: T, question: T, i: int, j: int) -> bool
    decreases p.len() - i + t.len() - j,
    when 0 <= i <= p.len() && 0 <= j <= t.len()
{
    if i == p.len() {
        j == t.len()
    } else if p[i] == star {
        glob_from(p, t, star, question, i + 1, j) || (j < t.len() && glob_from(
            p,
            t,
            star,
            question,
            i,
            j + 1,
        ))
    } else {
        j < t.len() && (p[i] == question || p[i] == t[j]) && glob_from(
            p,
            t,
            star,
            question,
            i + 1,
            j + 1,
        )
    }
}

/// Glob matching of the whole text against the whole pattern.
pub open spec fn glob_spec<T>(p: Seq<T>, t: Seq<T>, star: T, question: T) -> bool {
    glob_from(p, t, star, question, 0, 0)
}

/// A star at `i` matches exactly when the rest of the pattern matches from
/// some later text position.
proof fn lemma_star_expands<T>(p: Seq<T>, t: Seq<T>, star: T, question: T, i: int, j: int)
    requires
        0 <= i < p.len(),
        0 <= j <= t.len(),
        p[i] == star,
    ensures
        glob_from(p, t, star, question, i, j) == exists|k: int|
            j <= k <= t.len() && #[trigger] glob_from(p, t, star, question, i + 1, k),
    decreases t.len() - j,
{
    if j < t.len() {
        lemma_star_expands(p, t, star, question, i, j + 1);
    }
    if glob_from(p, t, star, question, i, j) {
        if !glob_from(p, t, star, question, i + 1, j) {
            let k = choose|k: int| j + 1 <= k <= t.len() && #[trigger] glob_from(p, t, star, question, i + 1, k);
            assert(j <= k <= t.len() && glob_from(p, t, star, question, i + 1, k));
        }
    }
    if exists|k: int| j <= k <= t.len() && #[trigger] glob_from(p, t, star, question, i + 1, k) {
        let k = choose|k: int| j <= k <= t.len() && #[trigger] glob_from(p, t, star, question, i + 1, k);
        if k > j {
            assert(j + 1 <= k <= t.len() && glob_from(p, t, star, question, i + 1, k));
        }
    }
}

/// Whether `p[a..a + len]` holds no star and matches `t[k..k + len]` element
/// by element.
pub open spec fn run_matches<T>(p: Seq<T>, t: Seq<T>, star: T, question: T, a: int, k: int, len: int) -> bool {
    forall|m: int|
        0 <= m < len ==> #[trigger] p[a + m] != star && (p[a + m] == question || p[a + m] == t[k + m])
}

/// A star-free stretch of the pattern consumes exactly as many text
/// elements as it is long.
proof fn lemma_star_free_run<T>(p: Seq<T>, t: Seq<T>, star: T, question: T, a: int, k: int, len: int)
    requires
        0 <= a,
        0 <= len,
        a + len <= p.len(),
        0 <= k <= t.len(),
        forall|m: int| 0 <= m < len ==> #[trigger] p[a + m] != star,
    ensures
        glob_from(p, t, star, question, a, k) ==> k + len <= t.len() && glob_from(
            p,
            t,
            star,
            question,
            a + len,
            k + len,
        ),
        k + len <= t.len() && run_matches(p, t, star, question, a, k, len) ==> glob_from(
            p,
            t,
            star,
            question,
            a,
            k,
        ) == glob_from(p, t, star, question, a + len, k + len),
    decreases len,
{
    if len > 0 {
        assert(p[a + 0] != star);
        if k < t.len() {
            assert forall|m: int| 0 <= m < len - 1 implies #[trigger] p[(a + 1) + m] != star by {
                assert(p[a + (m + 1)] != star);
            }
            lemma_star_free_run(p, t, star, question, a + 1, k + 1, len - 1);
            if k + len <= t.len() && run_matches(p, t, star, question, a, k, len) {
                assert(p[a + 0] == question || p[a + 0] == t[k + 0]);
                assert forall|m: int| 0 <= m < len - 1 implies p[(a + 1) + m] != star && (p[(a
                    + 1) + m] == question || p[(a + 1) + m] == #[trigger] t[(k + 1) + m]) by {
                    assert(p[a + (m + 1)] == question || p[a + (m + 1)] == t[k + (m + 1)]);
                }
            }
        }
    }
}

/// Against the end of the text, only stars match.
proof fn lemma_glob_at_text_end<T>(p: Seq<T>, t: Seq<T>, star: T, question: T, i: int)
    requires
        0 <= i <= p.len(),
    ensures
        glob_from(p, t, star, question, i, t.len() as int) == only_stars(p, star, i),
    decreases p.len() - i,
{
    if i < p.len() {
        lemma_glob_at_text_end(p, t, star, question, i + 1);
        if p[i] != star {
            assert(!only_stars(p, star, i));
        }
    }
}

/// What a reachable state of the greedy matcher still has to decide.
pub open spec fn greedy_target<T>(
    p: Seq<T>,
    t: Seq<T>,
    star: T,
    question: T,
    pi: int,
    si: Option<int>,
    ti: int,
    sti: int,
) -> bool {
    match si {
        None => glob_from(p, t, star, question, pi, ti),
        Some(s) => rest_matches_from(p, t, star, question, s + 1, sti),
    }
}

/// Whether `p[i..]` matches `t[k..]` for some `k` from `from` on.
pub open spec fn rest_matches_from<T>(p: Seq<T>, t: Seq<T>, star: T, question: T, i: int, from: int) -> bool {
    exists|k: int| from <= k <= t.len() && #[trigger] glob_from(p, t, star, question, i, k)
}

/// The facts that hold of every state the greedy matcher reaches when the
/// text holds no star: after the last star, the pattern has matched the text
/// element by element.
pub open spec fn greedy_state_inv<T>(
    p: Seq<T>,
    t: Seq<T>,
    star: T,
    question: T,
    pi: int,
    ti: int,
    si: Option<int>,
    sti: int,
) -> bool {
    &&& match_state_ok(p, t, pi, ti, si, sti)
    &&& star != question
    &&& !t.contains(star)
    &&& match si {
        Some(s) => p[s] == star && pi - (s + 1) == ti - sti && run_matches(
            p,
            t,
            star,
            question,
            s + 1,
            sti,
            ti - sti,
        ),
        None => true,
    }
}

#[verifier::spinoff_prover]
#[verifier::rlimit(40)]
proof fn lemma_greedy_decides_target<T>(
    p: Seq<T>,
    t: Seq<T>,
    star: T,
    question: T,
    pi: int,
    ti: int,
    si: Option<int>,
    sti: int,
)
    requires
        greedy_state_inv(p, t, star, question, pi, ti, si, sti),
    ensures
        greedy_match(p, t, star, question, pi, ti, si, sti) == greedy_target(
            p,
            t,
            star,
            question,
            pi,
            si,
            ti,
            sti,
        ),
    decreases t.len() - sti, t.len() - ti + p.len() - pi,
{
    if let Some(s) = si {
        let len = ti - sti;
        assert(run_matches(p, t, star, question, s + 1, sti, len));
        assert forall|m: int| 0 <= m < len implies #[trigger] p[(s + 1) + m] != star by {
            assert(p[(s + 1) + m] != star && (p[(s + 1) + m] == question || p[(s + 1) + m] == t[sti
                + m]));
        }
        lemma_star_free_run(p, t, star, question, s + 1, sti, len);
        assert forall|k: int| sti < k <= t.len() && #[trigger] glob_from(p, t, star, question, s + 1, k)
            implies k + len <= t.len() by {
            lemma_star_free_run(p, t, star, question, s + 1, k, len);
        }
    }
    if ti < t.len() {
        assert(t[ti] != star) by {
            if t[ti] == star {
                assert(t.contains(star));
            }
        }
        if pi < p.len() && (p[pi] == question || p[pi] == t[ti]) {
            assert(p[pi] != star);
            if let Some(s) = si {
                assert(run_matches(p, t, star, question, s + 1, sti, ti + 1 - sti)) by {
                    assert forall|m: int| 0 <= m < ti + 1 - sti implies p[(s + 1) + m] != star && (p[(s
                        + 1) + m] == question || p[(s + 1) + m] == #[trigger] t[sti + m]) by {
                        if m < ti - sti {
                            assert(run_matches(p, t, star, question, s + 1, sti, ti - sti));
                        }
                    }
                }
            }
            lemma_greedy_decides_target(p, t, star, question, pi + 1, ti + 1, si, sti);
        } else if pi < p.len() && p[pi] == star {
            lemma_greedy_decides_target(p, t, star, question, pi + 1, ti, Some(pi), ti);
            lemma_star_expands(p, t, star, question, pi, ti);
            if let Some(s) = si {
                let len = ti - sti;
                assert forall|k: int| sti <= k <= t.len() && #[trigger] glob_from(p, t, star, question, s + 1, k)
                    implies greedy_target(p, t, star, question, pi + 1, Some(pi), ti, ti) by {
                    assert forall|m: int| 0 <= m < len implies #[trigger] p[(s + 1) + m] != star by {
                        assert(p[(s + 1) + m] != star && (p[(s + 1) + m] == question || p[(s + 1) + m]
                            == t[sti + m]));
                    }
                    lemma_star_free_run(p, t, star, question, s + 1, k, len);
                    assert(k + len <= t.len());
                    assert((s + 1) + len == pi);
                    assert(glob_from(p, t, star, question, pi, k + len));
                    lemma_star_expands(p, t, star, question, pi, k + len);
                    let k2 = choose|k2: int| k + len <= k2 <= t.len() && #[trigger] glob_from(p, t, star, question, pi + 1, k2);
                    assert(ti <= k2 <= t.len() && glob_from(p, t, star, question, pi + 1, k2));
                    assert(rest_matches_from(p, t, star, question, pi + 1, ti));
                }
                if greedy_target(p, t, star, question, pi + 1, Some(pi), ti, ti) {
                    assert(glob_from(p, t, star, question, s + 1, sti));
                }
            }
        } else if let Some(s) = si {
            assert(!glob_from(p, t, star, question, pi, ti));
            assert(!glob_from(p, t, star, question, s + 1, sti));
            lemma_greedy_decides_target(p, t, star, question, s + 1, sti + 1, si, sti + 1);
            if greedy_target(p, t, star, question, pi, si, ti, sti) {
                let k = choose|k: int| sti <= k <= t.len() && #[trigger] glob_from(p, t, star, question, s + 1, k);
                assert(sti + 1 <= k <= t.len() && glob_from(p, t, star, question, s + 1, k));
            }
        } else {
            assert(!glob_from(p, t, star, question, pi, ti));
        }
    } else {
        lemma_glob_at_text_end(p, t, star, question, pi);
        if let Some(s) = si {
            if greedy_target(p, t, star, question, pi, si, ti, sti) {
                let k = choose|k: int| sti <= k <= t.len() && #[trigger] glob_from(p, t, star, question, s + 1, k);
                assert(k == sti);
            }
            if only_stars(p, star, pi) {
                assert(glob_from(p, t, star, question, s + 1, sti));
            }
        }
    }
}

/// Where the text holds no star, the wildcard matcher decides glob
/// matching: `star` matches any run of elements and `question` any one.
pub proof fn lemma_wildcard_is_glob<T>(p: Seq<T>, t: Seq<T>, star: T, question: T)
    requires
        star != question,
        !t.contains(star),
    ensures
        wildcard_spec(p, t, star, question) == glob_spec(p, t, star, question),
{
    lemma_greedy_decides_target(p, t, star, question, 0, 0, None, 0);
}

/// Whether the characters `text` match the wildcard pattern `pattern`.
pub fn wildcard_match(pattern: &[char], text: &[char]) -> (r: bool)
    ensures
        r == wildcard_spec(pattern@, text@, '*', '?'),
        !text@.contains('*') ==> r == glob_spec(pattern@, text@, '*', '?'),
{
    proof {
        if !text@.contains('*') {
            lemma_wildcard_is_glob(pattern@, text@, '*', '?');
        }
    }
    let ghost p = pattern@;
    let ghost t = text@;
    let mut pi: usize = 0;
    let mut ti: usize = 0;
    let mut si: Option<usize> = None;
    let mut sti: usize = 0;
    while ti < text.len()
        invariant
            p == pattern@,
            t == text@,
            match_state_ok(p, t, pi as int, ti as int, opt_int(si), sti as int),
            greedy_match(p, t, '*', '?', pi as int, ti as int, opt_int(si), sti as int)
                == wildcard_spec(p, t, '*', '?'),
            !t.contains('*') ==> wildcard_spec(p, t, '*', '?') == glob_spec(p, t, '*', '?'),
        decreases text.len() - sti, text.len() - ti + pattern.len() - pi,
    {
        if pi < pattern.len() && (pattern[pi] == '?' || pattern[pi] == text[ti]) {
            pi = pi + 1;
            ti = ti + 1;
        } else if pi < pattern.len() && pattern[pi] == '*' {
            si = Some(pi);
            pi = pi + 1;
            sti = ti;
        } else if let Some(s) = si {
            pi = s + 1;
            sti = sti + 1;
            ti = sti;
        } else {
            return false;
        }
    }
    while pi < pattern.len() && pattern[pi] == '*'
        invariant
            p == pattern@,
            pi <= p.len(),
            only_stars(p, '*', pi as int) == wildcard_spec(p, t, '*', '?'),
            t == text@,
            !t.contains('*') ==> wildcard_spec(p, t, '*', '?') == glob_spec(p, t, '*', '?'),
        decreases pattern.len() - pi,
    {
        pi = pi + 1;
    }
    pi == pattern.len()
}

/// Whether `text` matches the wildcard pattern `pattern`, where `star`
/// matches any run and `question` any one element; for any element type
/// whose `==` is equality.
pub fn wildcard_match_sequence<T: Copy + Eq>(pattern: &[T], text: &[T], star: T, question: T) -> (r: bool)
    requires
        obeys_concrete_eq::<T>(),
    ensures
        r == wildcard_spec(pattern@, text@, star, question),
        star != question && !text@.contains(star) ==> r == glob_spec(pattern@, text@, star, question),
{
    proof {
        reveal(obeys_concrete_eq);
        if star != question && !text@.contains(star) {
            lemma_wildcard_is_glob(pattern@, text@, star, question);
        }
    }
    let ghost p = pattern@;
    let ghost t = text@;
    let mut pi: usize = 0;
    let mut ti: usize = 0;
    let mut si: Option<usize> = None;
    let mut sti: usize = 0;
    while ti < text.len()
        invariant
            p == pattern@,
            t == text@,
            T::obeys_eq_spec(),
            forall|x: T, y: T| x.eq_spec(&y) <==> (x == y),
            match_state_ok(p, t, pi as int, ti as int, opt_int(si), sti as int),
            greedy_match(p, t, star, question, pi as int, ti as int, opt_int(si), sti as int)
                == wildcard_spec(p, t, star, question),
            star != question && !t.contains(star) ==> wildcard_spec(p, t, star, question)
                == glob_spec(p, t, star, question),
        decreases text.len() - sti, text.len() - ti + pattern.len() - pi,
    {
        if pi < pattern.len() && (pattern[pi] == question || pattern[pi] == text[ti]) {
            pi = pi + 1;
            ti = ti + 1;
        } else if pi < pattern.len() && pattern[pi] == star {
            si = Some(pi);
            pi = pi + 1;
            sti = ti;
        } else if let Some(s) = si {
            pi = s + 1;
            sti = sti + 1;
            ti = sti;
        } else {
            return false;
        }
    }
    while pi < pattern.len() && pattern[pi] == star
        invariant
            p == pattern@,
            t == text@,
            T::obeys_eq_spec(),
            forall|x: T, y: T| x.eq_spec(&y) <==> (x == y),
            pi <= p.len(),
            only_stars(p, star, pi as int) == wildcard_spec(p, t, star, question),
            star != question && !t.contains(star) ==> wildcard_spec(p, t, star, question)
                == glob_spec(p, t, star, question),
        decreases pattern.len() - pi,
    {
        pi = pi + 1;
    }
    pi == pattern.len()
}

/// Whether the bytes `text` match the wildcard pattern `pattern`.
pub fn wildcard_match_bytes(pattern: &[u8], text: &[u8]) -> (r: bool)
    ensures
        r == wildcard_spec(pattern@, text@, 42u8, 63u8),
        !text@.contains(42u8) ==> r == glob_spec(pattern@, text@, 42u8, 63u8),
{
    proof {
        broadcast use vstd::laws_eq::group_laws_eq;
    }
    wildcard_match_sequence(pattern, text, 42u8, 63u8)
}

/// An optional index as an integer.
pub open spec fn opt_int(o: Option<usize>) -> Option<int> {
    match o {
        Some(v) => Some(v as int),
        None => None,
    }
}

} // verus!
