//! Line-oriented text: the vault file is a sequence of lines, each ended by `'\n'`.

use vstd::prelude::*;

verus! {

/// A text without a line break.
pub open spec fn newline_free(s: Seq<char>) -> bool {
    forall|i: int| 0 <= i < s.len() ==> s[i] != '\n'
}

/// Every line of `ls` is free of line breaks.
pub open spec fn all_newline_free(ls: Seq<Seq<char>>) -> bool {
    forall|i: int| 0 <= i < ls.len() ==> #[trigger] newline_free(ls[i])
}

/// The number of characters before the first line break of `s` (all of them if none).
pub open spec fn line_len(s: Seq<char>) -> nat
    decreases s.len(),
{
    if s.len() == 0 || s[0] == '\n' {
        0
    } else {
        1 + line_len(s.drop_first())
    }
}

/// The lines of a text, split at each `'\n'`; a last line without a break counts
/// too, and a text that ends in a break has no empty line after it.
pub open spec fn lines_of(s: Seq<char>) -> Seq<Seq<char>>
    decreases s.len(),
{
    if s.len() == 0 {
        Seq::empty()
    } else {
        let n = line_len(s);
        if n >= s.len() {
            seq![s]
        } else {
            seq![s.take(n as int)] + lines_of(s.skip(n + 1 as int))
        }
    }
}

/// The text made of `ls`, each line followed by `'\n'`.
pub open spec fn join_lines(ls: Seq<Seq<char>>) -> Seq<char>
    decreases ls.len(),
{
    if ls.len() == 0 {
        Seq::empty()
    } else {
        ls[0] + seq!['\n'] + join_lines(ls.drop_first())
    }
}

/// A break-free prefix of length `m` adds `m` to the line length.
pub proof fn lemma_line_len_prefix(s: Seq<char>, m: int)
    requires
        0 <= m <= s.len(),
        forall|i: int| 0 <= i < m ==> s[i] != '\n',
    ensures
        line_len(s) == m + line_len(s.skip(m)),
    decreases m,
{
    if m > 0 {
        assert(s.skip(1).skip(m - 1) =~= s.skip(m));
        assert(s.drop_first() =~= s.skip(1));
        lemma_line_len_prefix(s.drop_first(), m - 1);
    } else {
        assert(s.skip(0) =~= s);
    }
}

/// A break-free line followed by a break, then the rest: the line comes first.
pub proof fn lemma_lines_of_cons(l: Seq<char>, rest: Seq<char>)
    requires
        newline_free(l),
    ensures
        lines_of(l + seq!['\n'] + rest) == seq![l] + lines_of(rest),
{
    let s = l + seq!['\n'] + rest;
    lemma_line_len_prefix(s, l.len() as int);
    assert(s.skip(l.len() as int)[0] == '\n');
    assert(s.take(l.len() as int) =~= l);
    assert(s.skip(l.len() + 1 as int) =~= rest);
}

/// A non-empty break-free text is a single line.
pub proof fn lemma_lines_of_single(l: Seq<char>)
    requires
        newline_free(l),
        l.len() > 0,
    ensures
        lines_of(l) == seq![l],
{
    lemma_line_len_prefix(l, l.len() as int);
}

/// Splitting the text of break-free lines gives the lines back.
pub proof fn lemma_lines_of_join(ls: Seq<Seq<char>>)
    requires
        all_newline_free(ls),
    ensures
        lines_of(join_lines(ls)) == ls,
    decreases ls.len(),
{
    if ls.len() > 0 {
        assert(newline_free(ls[0]));
        let rest = ls.drop_first();
        assert(all_newline_free(rest)) by {
            assert forall|i: int| 0 <= i < rest.len() implies #[trigger] newline_free(rest[i]) by {
                assert(rest[i] == ls[i + 1]);
            }
        }
        lemma_lines_of_join(rest);
        lemma_lines_of_cons(ls[0], join_lines(rest));
        assert(ls =~= seq![ls[0]] + rest);
    }
}

/// The text of two runs of lines is the text of the first, then of the second.
pub proof fn lemma_join_append(a: Seq<Seq<char>>, b: Seq<Seq<char>>)
    ensures
        join_lines(a + b) == join_lines(a) + join_lines(b),
    decreases a.len(),
{
    if a.len() == 0 {
        assert(a + b =~= b);
    } else {
        assert((a + b).drop_first() =~= a.drop_first() + b);
        lemma_join_append(a.drop_first(), b);
    }
}

/// Relies on `String::push`, which appends one character.
#[verifier::external_body]
pub fn push_char(s: &mut String, c: char)
    ensures
        final(s)@ == old(s)@.push(c),
{
    s.push(c)
}

/// Relies on `str`'s `==`, which compares the characters.
#[verifier::external_body]
pub fn text_eq(a: &str, b: &str) -> (r: bool)
    ensures
        r == (a@ == b@),
{
    a == b
}

/// Whether `c` occurs in `s`.
pub fn contains_char(s: &str, c: char) -> (r: bool)
    ensures
        r == s@.contains(c),
{
    for d in it: s.chars()
        invariant
            it.seq() == s@,
            forall|i: int| 0 <= i < it.index() ==> s@[i] != c,
    {
        if d == c {
            return true;
        }
    }
    false
}

/// The views of a run of strings.
pub open spec fn views(v: Seq<String>) -> Seq<Seq<char>> {
    v.map_values(|s: String| s@)
}

/// Splits a text into its lines, as [`lines_of`] describes.
pub fn split_lines(text: &str) -> (r: Vec<String>)
    ensures
        views(r@) == lines_of(text@),
{
    let mut out: Vec<String> = Vec::new();
    let mut cur = String::new();
    let ghost s = text@;
    let ghost mut start: int = 0;
    proof {
        assert(s.skip(0) =~= s);
        assert(views(out@) =~= Seq::<Seq<char>>::empty());
        assert(Seq::<Seq<char>>::empty() + lines_of(s) =~= lines_of(s));
    }
    for c in it: text.chars()
        invariant
            it.seq() == s,
            0 <= start <= it.index() <= s.len(),
            cur@ == s.subrange(start, it.index() as int),
            forall|i: int| start <= i < it.index() ==> s[i] != '\n',
            lines_of(s) == views(out@) + lines_of(s.skip(start)),
    {
        if c == '\n' {
            proof {
                let t = s.skip(start);
                let m = it.index() - start;
                lemma_line_len_prefix(t, m);
                assert(t.skip(m)[0] == '\n');
                assert(t.take(m) =~= cur@);
                assert(t.skip(m + 1) =~= s.skip(it.index() + 1));
                assert(views(out@.push(cur)) =~= views(out@).push(cur@));
            }
            out.push(cur);
            cur = String::new();
            proof {
                start = it.index() + 1;
            }
        } else {
            push_char(&mut cur, c);
        }
    }
    proof {
        let t = s.skip(start);
        if start < s.len() {
            lemma_line_len_prefix(t, t.len() as int);
            assert(views(out@.push(cur)) =~= views(out@).push(cur@));
            assert(cur@ =~= t);
        } else {
            assert(t.len() == 0);
            assert(views(out@) + lines_of(t) =~= views(out@));
        }
    }
    if !cur.as_str().is_empty() {
        out.push(cur);
    }
    out
}

} // verus!
