//! A verified screen over the engine's tokenizer.  The `htmlparser` crate
//! that mrml parses with panics, instead of returning an error, on malformed
//! downlevel conditional comments: after an opening `<!--[if`, `<![if` or
//! `<!--<![endif` the text up to the first `]` must be followed by `>`,
//! `-->`, `>-->` or `><!-->`, and an opening `<![endif` must read
//! `<![endif]` — anything else reaches a `panic!` in its
//! `parse_conditional_comment_impl`.  The pipeline therefore admits a text
//! to the engine only after this screen accepts it, which keeps the
//! library's no-panic promise; a screened-out text is reported as a parse
//! error.  The screen checks every position of the text, a superset of the
//! positions where the tokenizer can dispatch, so it errs only towards
//! rejecting.

use vstd::prelude::*;

verus! {

/// Whether `pat` occurs in `s` at position `i`.
pub open spec fn matches_at(s: Seq<char>, i: int, pat: Seq<char>) -> bool {
    0 <= i && i + pat.len() <= s.len() && s.subrange(i, i + pat.len()) == pat
}

/// The characters from `t` on close a conditional comment as the tokenizer
/// demands: `>` (which also covers `>-->` and `><!-->`) or `-->`.
pub open spec fn good_ender(s: Seq<char>, t: int) -> bool {
    t < s.len() && (s[t] == '>' || matches_at(s, t, "-->"@))
}

/// `j` is the first `]` at or after `k`.
pub open spec fn first_closer(s: Seq<char>, k: int, j: int) -> bool {
    k <= j < s.len() && s[j] == ']' && (forall|q: int| k <= q < j ==> s[q] != ']')
}

/// From `k` on, the tokenizer's scan for `]` ends well: a `]` exists and is
/// followed by one of the accepted closings.
pub open spec fn closer_ok(s: Seq<char>, k: int) -> bool {
    exists|j: int| first_closer(s, k, j) && good_ender(s, j + 1)
}

/// No conditional-comment opening at position `i` leads the tokenizer into
/// a panic.  The offsets are where its scan for `]` starts after each
/// opening.
pub open spec fn cc_ok_at(s: Seq<char>, i: int) -> bool {
    (matches_at(s, i, "<!--[if"@) ==> closer_ok(s, i + 5)) && (matches_at(s, i, "<![if"@)
        ==> closer_ok(s, i + 3)) && (matches_at(s, i, "<![endif"@) ==> matches_at(
        s,
        i,
        "<![endif]"@,
    ) && closer_ok(s, i + 3)) && (matches_at(s, i, "<!--<![endif"@) ==> closer_ok(s, i + 7))
}

/// Every conditional-comment opening anywhere in the text is well shaped.
pub open spec fn cc_well_formed(s: Seq<char>) -> bool {
    forall|i: int| 0 <= i < s.len() ==> cc_ok_at(s, i)
}

fn match_at(s: &str, i: usize, pat: &str) -> (r: bool)
    requires
        i <= s@.len(),
    ensures
        r == matches_at(s@, i as int, pat@),
{
    let n = s.unicode_len();
    let m = pat.unicode_len();
    if n - i < m {
        return false;
    }
    let mut k: usize = 0;
    while k < m
        invariant
            k <= m,
            m == pat@.len(),
            n == s@.len(),
            i + m <= n,
            forall|q: int| 0 <= q < k ==> s@[i + q] == pat@[q],
        decreases m - k,
    {
        if s.get_char(i + k) != pat.get_char(k) {
            proof {
                if matches_at(s@, i as int, pat@) {
                    assert(s@.subrange(i as int, i + m)[k as int] == s@[i + k]);
                }
            }
            return false;
        }
        k += 1;
    }
    proof {
        assert(s@.subrange(i as int, i + m) =~= pat@);
    }
    true
}

fn closer_check(s: &str, k: usize) -> (r: bool)
    requires
        k <= s@.len(),
    ensures
        r == closer_ok(s@, k as int),
{
    let n = s.unicode_len();
    let mut j = k;
    while j < n && s.get_char(j) != ']'
        invariant
            k <= j <= n,
            n == s@.len(),
            forall|q: int| k <= q < j ==> s@[q] != ']',
        decreases n - j,
    {
        j += 1;
    }
    if j == n {
        proof {
            if closer_ok(s@, k as int) {
                let jj = choose|jj: int|
                    first_closer(s@, k as int, jj) && good_ender(s@, jj + 1);
                assert(s@[jj] != ']');
            }
        }
        return false;
    }
    let good = j + 1 < n && (s.get_char(j + 1) == '>' || match_at(s, j + 1, "-->"));
    proof {
        if good {
            assert(first_closer(s@, k as int, j as int));
        } else {
            if closer_ok(s@, k as int) {
                let jj = choose|jj: int|
                    first_closer(s@, k as int, jj) && good_ender(s@, jj + 1);
                if jj < j {
                    assert(s@[jj] != ']');
                }
                if jj > j {
                    assert(s@[j as int] != ']');
                }
                assert(jj == j);
            }
        }
    }
    good
}

/// Accepts exactly the texts whose conditional comments the engine's
/// tokenizer handles without panicking.
pub fn conditional_comments_ok(s: &str) -> (r: bool)
    ensures
        r == cc_well_formed(s@),
{
    let n = s.unicode_len();
    let mut i: usize = 0;
    while i < n
        invariant
            i <= n,
            n == s@.len(),
            forall|q: int| 0 <= q < i ==> cc_ok_at(s@, q),
        decreases n - i,
    {
        proof {
            reveal_strlit("<!--[if");
            reveal_strlit("<![if");
            reveal_strlit("<![endif");
            reveal_strlit("<![endif]");
            reveal_strlit("<!--<![endif");
        }
        if match_at(s, i, "<!--[if") && !closer_check(s, i + 5) {
            proof {
                assert(!cc_ok_at(s@, i as int));
            }
            return false;
        }
        if match_at(s, i, "<![if") && !closer_check(s, i + 3) {
            proof {
                assert(!cc_ok_at(s@, i as int));
            }
            return false;
        }
        if match_at(s, i, "<![endif") && !(match_at(s, i, "<![endif]") && closer_check(
            s,
            i + 3,
        )) {
            proof {
                assert(!cc_ok_at(s@, i as int));
            }
            return false;
        }
        if match_at(s, i, "<!--<![endif") && !closer_check(s, i + 7) {
            proof {
                assert(!cc_ok_at(s@, i as int));
            }
            return false;
        }
        proof {
            assert(cc_ok_at(s@, i as int));
        }
        i += 1;
    }
    true
}

} // verus!
