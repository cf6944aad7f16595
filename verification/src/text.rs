//! Verified text passes used by the document pipeline and the CLI: the
//! blank-line-stripping pass applied to the engine's pretty-printed output,
//! and the substitution that turns an input path into its HTML output path.

use vstd::prelude::*;

verus! {

/// The Unicode white-space code points, as `char::is_whitespace` counts them.
pub open spec fn is_ws(c: char) -> bool {
    (c as u32) == 0x20 || (0x9 <= (c as u32) && (c as u32) <= 0xd) || (c as u32) == 0x85
        || (c as u32) == 0xa0 || (c as u32) == 0x1680
        || (0x2000 <= (c as u32) && (c as u32) <= 0x200a)
        || (c as u32) == 0x2028 || (c as u32) == 0x2029 || (c as u32) == 0x202f
        || (c as u32) == 0x205f || (c as u32) == 0x3000
}

pub fn is_whitespace_char(c: char) -> (r: bool)
    ensures
        r == is_ws(c),
{
    let u = c as u32;
    u == 0x20 || (0x9 <= u && u <= 0xd) || u == 0x85 || u == 0xa0 || u == 0x1680
        || (0x2000 <= u && u <= 0x200a) || u == 0x2028 || u == 0x2029 || u == 0x202f
        || u == 0x205f || u == 0x3000
}

/// A line is blank when every character in it is white space; the empty line
/// is blank.
pub open spec fn is_blank(l: Seq<char>) -> bool {
    forall|i: int| 0 <= i < l.len() ==> is_ws(l[i])
}

/// The pieces of `s` between `'\n'` separators, in order.  There is always at
/// least one piece; a trailing `'\n'` contributes a final empty piece.
pub open spec fn split_lines(s: Seq<char>) -> Seq<Seq<char>>
    decreases s.len(),
{
    if s.len() == 0 {
        seq![Seq::<char>::empty()]
    } else if s[0] == '\n' {
        seq![Seq::<char>::empty()] + split_lines(s.skip(1))
    } else {
        let rest = split_lines(s.skip(1));
        seq![seq![s[0]] + rest[0]] + rest.skip(1)
    }
}

proof fn lemma_split_lines_nonempty(s: Seq<char>)
    ensures
        split_lines(s).len() >= 1,
    decreases s.len(),
{
    if s.len() != 0 {
        lemma_split_lines_nonempty(s.skip(1));
    }
}

/// A piece produced by `split_lines` never contains a `'\n'`.
proof fn lemma_split_lines_no_newline(s: Seq<char>)
    ensures
        forall|p: int, i: int|
            0 <= p < split_lines(s).len() && 0 <= i < split_lines(s)[p].len()
                ==> split_lines(s)[p][i] != '\n',
    decreases s.len(),
{
    if s.len() == 0 {
    } else {
        lemma_split_lines_no_newline(s.skip(1));
        lemma_split_lines_nonempty(s.skip(1));
        let rest = split_lines(s.skip(1));
        if s[0] == '\n' {
            assert forall|p: int, i: int|
                0 <= p < split_lines(s).len() && 0 <= i < split_lines(s)[p].len()
                    implies split_lines(s)[p][i] != '\n' by {
                if p >= 1 {
                    assert(split_lines(s)[p] == rest[p - 1]);
                }
            }
        } else {
            assert forall|p: int, i: int|
                0 <= p < split_lines(s).len() && 0 <= i < split_lines(s)[p].len()
                    implies split_lines(s)[p][i] != '\n' by {
                if p == 0 {
                    assert(split_lines(s)[0] == seq![s[0]] + rest[0]);
                    if i >= 1 {
                        assert(split_lines(s)[0][i] == rest[0][i - 1]);
                    }
                } else {
                    assert(split_lines(s)[p] == rest.skip(1)[p - 1]);
                    assert(rest.skip(1)[p - 1] == rest[p]);
                }
            }
        }
    }
}

/// Drops a single carriage return at the end of a line, as `str::lines` does.
pub open spec fn chomp_cr(l: Seq<char>) -> Seq<char> {
    if l.len() > 0 && l[l.len() - 1] == '\r' {
        l.drop_last()
    } else {
        l
    }
}

/// The lines that the blank-line-stripping pass keeps: every non-blank piece,
/// each with a trailing carriage return removed.
pub open spec fn kept_lines(ps: Seq<Seq<char>>) -> Seq<Seq<char>>
    decreases ps.len(),
{
    if ps.len() == 0 {
        Seq::empty()
    } else {
        let tail = kept_lines(ps.skip(1));
        if is_blank(ps[0]) {
            tail
        } else {
            seq![chomp_cr(ps[0])] + tail
        }
    }
}

/// Joins pieces with a single `'\n'` between consecutive pieces.
pub open spec fn join_lines(ps: Seq<Seq<char>>) -> Seq<char>
    decreases ps.len(),
{
    if ps.len() == 0 {
        Seq::empty()
    } else {
        ps[0] + join_tail(ps.skip(1))
    }
}

/// Joins pieces with a `'\n'` before every piece.
pub open spec fn join_tail(ps: Seq<Seq<char>>) -> Seq<char>
    decreases ps.len(),
{
    if ps.len() == 0 {
        Seq::empty()
    } else {
        seq!['\n'] + ps[0] + join_tail(ps.skip(1))
    }
}

/// What the blank-line-stripping pass returns: the non-blank lines of `s`,
/// joined back together with single newlines.
pub open spec fn strip_blank_spec(s: Seq<char>) -> Seq<char> {
    join_lines(kept_lines(split_lines(s)))
}

/// The lines of a text as `str::lines` yields them: the `'\n'`-separated
/// pieces, without a final empty piece after a trailing newline.
pub open spec fn doc_lines(s: Seq<char>) -> Seq<Seq<char>> {
    let ps = split_lines(s);
    if ps.len() > 0 && ps[ps.len() - 1].len() == 0 {
        ps.drop_last()
    } else {
        ps
    }
}

/// Where the first newline of `t` stands at `p` (with `p == t.len()` when `t`
/// has none), the first piece of `split_lines(t)` is `t.take(p)` and the rest
/// is the split of what follows the newline.
proof fn lemma_split_at_first_newline(t: Seq<char>, p: int)
    requires
        0 <= p <= t.len(),
        forall|q: int| 0 <= q < p ==> t[q] != '\n',
        p < t.len() ==> t[p] == '\n',
    ensures
        p < t.len() ==> split_lines(t) == seq![t.take(p)] + split_lines(t.skip(p + 1)),
        p == t.len() ==> split_lines(t) == seq![t],
    decreases p,
{
    if p == 0 {
        if 0 < t.len() {
            assert(t.take(0) =~= Seq::<char>::empty());
            assert(seq![t.take(0)] + split_lines(t.skip(1)) =~~= seq![Seq::<char>::empty()]
                + split_lines(t.skip(1)));
        } else {
            assert(t =~= Seq::<char>::empty());
            assert(split_lines(t) =~~= seq![t]);
        }
    } else {
        let rest = split_lines(t.skip(1));
        lemma_split_at_first_newline(t.skip(1), p - 1);
        lemma_split_lines_nonempty(t.skip(1));
        if p < t.len() {
            assert(t.skip(1).skip(p) =~= t.skip(p + 1));
            assert(rest == seq![t.skip(1).take(p - 1)] + split_lines(t.skip(p + 1)));
            assert(rest[0] == t.skip(1).take(p - 1));
            assert(seq![t[0]] + t.skip(1).take(p - 1) =~= t.take(p));
            assert(rest.skip(1) =~~= split_lines(t.skip(p + 1)));
            assert(split_lines(t) =~~= seq![t.take(p)] + split_lines(t.skip(p + 1)));
        } else {
            assert(rest == seq![t.skip(1)]);
            assert(rest[0] == t.skip(1));
            assert(seq![t[0]] + t.skip(1) =~= t);
            assert(rest.skip(1) =~~= Seq::<Seq<char>>::empty());
            assert(split_lines(t) =~~= seq![t]);
        }
    }
}

/// The blank-line-stripping pass itself: the non-blank lines of `s`, each
/// with a trailing carriage return removed, joined with single newlines.
pub fn strip_blank_lines(s: &str) -> (r: String)
    ensures
        r@ == strip_blank_spec(s@),
{
    let n = s.unicode_len();
    let mut out = String::new();
    let mut any = false;
    let mut i: usize = 0;
    proof {
        assert(s@.skip(0) =~= s@);
    }
    loop
        invariant_except_break
            i <= n,
            n == s@.len(),
            any == (out@.len() > 0),
            any ==> strip_blank_spec(s@) == out@ + join_tail(
                kept_lines(split_lines(s@.skip(i as int))),
            ),
            !any ==> strip_blank_spec(s@) == join_lines(
                kept_lines(split_lines(s@.skip(i as int))),
            ),
        ensures
            out@ == strip_blank_spec(s@),
        decreases n + 1 - i,
    {
        let ghost pre = s@.skip(i as int);
        let mut j = i;
        while j < n && s.get_char(j) != '\n'
            invariant
                i <= j <= n,
                n == s@.len(),
                forall|q: int| i <= q < j ==> s@[q] != '\n',
            decreases n - j,
        {
            j += 1;
        }
        let line_end = if j > i && s.get_char(j - 1) == '\r' {
            j - 1
        } else {
            j
        };
        let mut blank = true;
        let mut k = i;
        while k < j
            invariant
                i <= k <= j <= n,
                n == s@.len(),
                blank ==> forall|q: int| i <= q < k ==> is_ws(s@[q]),
                !blank ==> exists|q: int| i <= q < k && !is_ws(s@[q]),
            decreases j - k,
        {
            if !is_whitespace_char(s.get_char(k)) {
                blank = false;
            }
            k += 1;
        }
        let ghost line = s@.subrange(i as int, j as int);
        proof {
            assert(line =~= pre.take(j - i));
            assert forall|q: int| 0 <= q < j - i implies pre[q] != '\n' by {
                assert(pre[q] == s@[i + q]);
            }
            if blank {
                assert forall|q: int| 0 <= q < line.len() implies is_ws(line[q]) by {
                    assert(line[q] == s@[i + q]);
                }
                assert(is_blank(line));
            } else {
                let q = choose|q: int| i <= q < k && !is_ws(s@[q]);
                assert(line[q - i] == s@[q]);
                assert(!is_blank(line));
            }
            lemma_split_at_first_newline(pre, j - i);
            assert(chomp_cr(line) =~= s@.subrange(i as int, line_end as int));
        }
        if !blank {
            proof {
                // The kept line is nonempty: its non-white-space character
                // survives the chomp, since a carriage return is white space.
                let q = choose|q: int| 0 <= q < line.len() && !is_ws(line[q]);
                assert(chomp_cr(line)[q] == line[q]);
            }
            if any {
                proof {
                    reveal_strlit("\n");
                    assert("\n"@ =~= seq!['\n']);
                }
                out.append("\n");
            }
            out.append(s.substring_char(i, line_end));
            any = true;
        }
        if j < n {
            proof {
                let post = s@.skip(j + 1);
                assert(pre.skip(j - i + 1) =~= post);
                assert(split_lines(pre) == seq![line] + split_lines(post));
                assert((seq![line] + split_lines(post)).skip(1) =~= split_lines(post));
                assert((seq![line] + split_lines(post))[0] == line);
                if !blank {
                    assert(kept_lines(split_lines(pre)) =~= seq![chomp_cr(line)] + kept_lines(
                        split_lines(post),
                    ));
                    let tail = kept_lines(split_lines(post));
                    assert((seq![chomp_cr(line)] + tail).skip(1) =~= tail);
                    assert(join_lines(seq![chomp_cr(line)] + tail) =~= chomp_cr(line) + join_tail(
                        tail,
                    ));
                    assert(join_tail(seq![chomp_cr(line)] + tail) =~= seq!['\n'] + chomp_cr(line)
                        + join_tail(tail));
                } else {
                    assert(kept_lines(split_lines(pre)) =~= kept_lines(split_lines(post)));
                }
            }
            i = j + 1;
        } else {
            proof {
                assert(split_lines(pre) == seq![line]);
                assert(seq![line].skip(1) =~= Seq::<Seq<char>>::empty());
                assert(kept_lines(Seq::<Seq<char>>::empty()) =~= Seq::<Seq<char>>::empty());
                assert(seq![line][0] == line);
                if !blank {
                    assert(kept_lines(seq![line]) == seq![chomp_cr(line)] + kept_lines(
                        seq![line].skip(1),
                    ));
                    assert(kept_lines(split_lines(pre)) =~= seq![chomp_cr(line)]);
                    assert(seq![chomp_cr(line)].skip(1) =~= Seq::<Seq<char>>::empty());
                    assert(join_lines(seq![chomp_cr(line)]) =~= chomp_cr(line));
                    assert(join_tail(seq![chomp_cr(line)]) =~= seq!['\n'] + chomp_cr(line));
                } else {
                    assert(kept_lines(seq![line]) == kept_lines(seq![line].skip(1)));
                    assert(kept_lines(split_lines(pre)) =~= Seq::<Seq<char>>::empty());
                    assert(join_lines(Seq::<Seq<char>>::empty()) =~= Seq::<char>::empty());
                    assert(join_tail(Seq::<Seq<char>>::empty()) =~= Seq::<char>::empty());
                }
            }
            break ;
        }
    }
    out
}

/// The index of the last occurrence of `c` in `s`, or `-1` when `s` has
/// none.
pub open spec fn last_index_of(s: Seq<char>, c: char) -> int
    decreases s.len(),
{
    if s.len() == 0 {
        -1
    } else if s[s.len() - 1] == c {
        s.len() - 1
    } else {
        last_index_of(s.drop_last(), c)
    }
}

/// The default output path of the render mode: the input path with the
/// extension of its final path segment replaced by the HTML extension.  A
/// path whose final segment has no extension gets the HTML extension
/// appended; a dot in an earlier segment is not an extension.
pub open spec fn html_path_spec(input: Seq<char>) -> Seq<char> {
    if last_index_of(input, '.') > last_index_of(input, '/') {
        input.take(last_index_of(input, '.')) + ".html"@
    } else {
        input + ".html"@
    }
}

proof fn lemma_last_index_at(s: Seq<char>, c: char, j: int)
    requires
        0 <= j < s.len(),
        s[j] == c,
        forall|q: int| j < q < s.len() ==> s[q] != c,
    ensures
        last_index_of(s, c) == j,
    decreases s.len(),
{
    if j < s.len() - 1 {
        assert(forall|q: int| j < q < s.drop_last().len() ==> s.drop_last()[q] != c);
        lemma_last_index_at(s.drop_last(), c, j);
    }
}

proof fn lemma_no_occurrence(s: Seq<char>, c: char)
    requires
        forall|q: int| 0 <= q < s.len() ==> s[q] != c,
    ensures
        last_index_of(s, c) == -1,
    decreases s.len(),
{
    if s.len() > 0 {
        assert(forall|q: int| 0 <= q < s.drop_last().len() ==> s.drop_last()[q] != c);
        lemma_no_occurrence(s.drop_last(), c);
    }
}

pub fn html_output_path(input: &str) -> (r: String)
    ensures
        r@ == html_path_spec(input@),
{
    let n = input.unicode_len();
    let mut dot: usize = 0;
    let mut has_dot = false;
    let mut sep: usize = 0;
    let mut has_sep = false;
    let mut i: usize = 0;
    while i < n
        invariant
            i <= n,
            n == input@.len(),
            !has_dot ==> forall|q: int| 0 <= q < i ==> input@[q] != '.',
            has_dot ==> dot < i && input@[dot as int] == '.' && forall|q: int|
                dot < q < i ==> input@[q] != '.',
            !has_sep ==> forall|q: int| 0 <= q < i ==> input@[q] != '/',
            has_sep ==> sep < i && input@[sep as int] == '/' && forall|q: int|
                sep < q < i ==> input@[q] != '/',
        decreases n - i,
    {
        let c = input.get_char(i);
        if c == '.' {
            dot = i;
            has_dot = true;
        }
        if c == '/' {
            sep = i;
            has_sep = true;
        }
        i += 1;
    }
    proof {
        if has_dot {
            lemma_last_index_at(input@, '.', dot as int);
        } else {
            lemma_no_occurrence(input@, '.');
        }
        if has_sep {
            lemma_last_index_at(input@, '/', sep as int);
        } else {
            lemma_no_occurrence(input@, '/');
        }
    }
    let stem = if has_dot && (!has_sep || dot > sep) {
        dot
    } else {
        n
    };
    proof {
        assert(input@.take(n as int) =~= input@);
        assert(input@.subrange(0, stem as int) =~= input@.take(stem as int));
    }
    let mut out = input.substring_char(0, stem).to_owned();
    out.append(".html");
    out
}

/// Every kept line is non-blank and free of newlines, provided the pieces it
/// was built from were free of newlines.
proof fn lemma_kept_lines_props(ps: Seq<Seq<char>>)
    requires
        forall|p: int, q: int| 0 <= p < ps.len() && 0 <= q < ps[p].len() ==> ps[p][q] != '\n',
    ensures
        forall|p: int| 0 <= p < kept_lines(ps).len() ==> !is_blank(#[trigger] kept_lines(ps)[p]),
        forall|p: int, q: int|
            0 <= p < kept_lines(ps).len() && 0 <= q < kept_lines(ps)[p].len()
                ==> kept_lines(ps)[p][q] != '\n',
    decreases ps.len(),
{
    if ps.len() == 0 {
    } else {
        assert(forall|p: int, q: int|
            0 <= p < ps.skip(1).len() && 0 <= q < ps.skip(1)[p].len() ==> ps.skip(1)[p][q]
                != '\n');
        lemma_kept_lines_props(ps.skip(1));
        let tail = kept_lines(ps.skip(1));
        if is_blank(ps[0]) {
        } else {
            let head = chomp_cr(ps[0]);
            let q0 = choose|q: int| 0 <= q < ps[0].len() && !is_ws(ps[0][q]);
            assert(head[q0] == ps[0][q0]);
            assert(!is_blank(head));
            assert(kept_lines(ps) == seq![head] + tail);
            assert(forall|p: int| 1 <= p < kept_lines(ps).len() ==> kept_lines(ps)[p] == tail[p
                - 1]);
        }
    }
}

/// Splitting the join of newline-free pieces gives the pieces back; the join
/// of no pieces at all is the empty text.
proof fn lemma_split_of_join(qs: Seq<Seq<char>>)
    requires
        forall|p: int, q: int| 0 <= p < qs.len() && 0 <= q < qs[p].len() ==> qs[p][q] != '\n',
    ensures
        qs.len() > 0 ==> split_lines(join_lines(qs)) == qs,
        qs.len() == 0 ==> join_lines(qs) == Seq::<char>::empty(),
    decreases qs.len(),
{
    if qs.len() == 0 {
    } else if qs.len() == 1 {
        assert(qs.skip(1).len() == 0);
        assert(join_lines(qs) == qs[0] + join_tail(qs.skip(1)));
        assert(join_lines(qs) =~= qs[0]);
        lemma_split_at_first_newline(qs[0], qs[0].len() as int);
        assert(split_lines(join_lines(qs)) =~~= qs);
    } else {
        assert(forall|p: int, q: int|
            0 <= p < qs.skip(1).len() && 0 <= q < qs.skip(1)[p].len() ==> qs.skip(1)[p][q]
                != '\n');
        lemma_split_of_join(qs.skip(1));
        let rest = qs.skip(1);
        assert(rest.len() > 0);
        assert(join_tail(rest) == seq!['\n'] + rest[0] + join_tail(rest.skip(1)));
        assert(join_lines(rest) == rest[0] + join_tail(rest.skip(1)));
        let j = join_lines(qs);
        assert(j == qs[0] + join_tail(rest));
        assert(j =~= qs[0] + seq!['\n'] + join_lines(rest));
        let p0 = qs[0].len() as int;
        assert(forall|q: int| 0 <= q < p0 ==> j[q] == qs[0][q]);
        assert(j[p0] == '\n');
        assert(j.take(p0) =~= qs[0]);
        assert(j.skip(p0 + 1) =~= join_lines(rest));
        lemma_split_at_first_newline(j, p0);
        assert(split_lines(j) == seq![j.take(p0)] + split_lines(join_lines(rest)));
        assert(split_lines(j) =~~= seq![qs[0]] + rest);
        assert(seq![qs[0]] + rest =~~= qs);
    }
}

/// No line of a text is blank.
pub open spec fn has_no_blank_lines(t: Seq<char>) -> bool {
    forall|p: int| 0 <= p < doc_lines(t).len() ==> !is_blank(#[trigger] doc_lines(t)[p])
}

/// The output of the blank-line-stripping pass contains no line whose
/// trimmed form is empty, whatever the input was.
pub proof fn lemma_stripped_has_no_blank_lines(s: Seq<char>)
    ensures
        has_no_blank_lines(strip_blank_spec(s)),
{
    lemma_split_lines_no_newline(s);
    let ps = split_lines(s);
    lemma_kept_lines_props(ps);
    let ks = kept_lines(ps);
    lemma_split_of_join(ks);
    let t = strip_blank_spec(s);
    if ks.len() == 0 {
        assert(t =~= Seq::<char>::empty());
        assert(split_lines(t) == seq![Seq::<char>::empty()]);
        assert(doc_lines(t) =~~= Seq::<Seq<char>>::empty());
    } else {
        assert(split_lines(t) == ks);
        let last = ks[ks.len() - 1];
        assert(!is_blank(last));
        let q = choose|q: int| 0 <= q < last.len() && !is_ws(last[q]);
        assert(last.len() > 0);
        assert(doc_lines(t) == ks);
    }
}

} // verus!
