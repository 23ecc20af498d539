//! Decomposition of source text into line segments.
//!
//! The native source-registration convention takes a count of string
//! segments together with parallel pointer and length arrays.  This
//! module owns the text side of that translation: a source text is
//! split into its terminator-delimited segments, the terminator byte
//! itself excluded and never transmitted.  [`spec_line_split`] is the
//! mathematical statement of the decomposition and [`split_lines`]
//! the verified executable form.

use vstd::prelude::*;
use vstd::slice::slice_subrange;
use vstd::slice::slice_to_vec;

verus! {

/// The line terminator byte.
pub const NEWLINE: u8 = 10;

/// Index of the first terminator in `s`, or `s.len()` when `s` holds
/// none.
pub open spec fn spec_first_newline(s: Seq<u8>) -> nat
    decreases s.len(),
{
    if s.len() == 0 || s[0] == NEWLINE {
        0
    } else {
        1 + spec_first_newline(s.skip(1))
    }
}

/// The terminator-delimited segments of `s`: a segment is a maximal
/// run of bytes not containing the terminator, the terminator itself
/// excluded.  An empty text has no segments, and a final segment needs
/// no trailing terminator.
pub open spec fn spec_line_split(s: Seq<u8>) -> Seq<Seq<u8>>
    decreases s.len(),
{
    if s.len() == 0 {
        Seq::empty()
    } else {
        let n = spec_first_newline(s) as int;
        if n >= s.len() {
            seq![s]
        } else {
            seq![s.take(n)] + spec_line_split(s.skip(n + 1))
        }
    }
}

/// The segments rejoined, one terminator between each pair: the
/// inverse reading of [`spec_line_split`].
pub open spec fn spec_join_lines(lines: Seq<Seq<u8>>) -> Seq<u8>
    decreases lines.len(),
{
    if lines.len() == 0 {
        Seq::empty()
    } else if lines.len() == 1 {
        lines[0]
    } else {
        lines[0] + seq![NEWLINE] + spec_join_lines(lines.skip(1))
    }
}

proof fn lemma_first_newline_bounds(s: Seq<u8>)
    ensures
        spec_first_newline(s) <= s.len(),
        forall|i: int| 0 <= i < spec_first_newline(s) ==> s[i] != NEWLINE,
        spec_first_newline(s) < s.len() ==> s[spec_first_newline(s) as int] == NEWLINE,
    decreases s.len(),
{
    if s.len() == 0 || s[0] == NEWLINE {
    } else {
        lemma_first_newline_bounds(s.skip(1));
        assert forall|i: int| 0 <= i < spec_first_newline(s) implies s[i] != NEWLINE by {
            if i > 0 {
                assert(s.skip(1)[i - 1] == s[i]);
            }
        }
        if spec_first_newline(s) < s.len() {
            assert(s.skip(1)[spec_first_newline(s) as int - 1]
                == s[spec_first_newline(s) as int]);
        }
    }
}

proof fn lemma_first_newline_at(s: Seq<u8>, k: int)
    requires
        0 <= k <= s.len(),
        forall|i: int| 0 <= i < k ==> s[i] != NEWLINE,
        k < s.len() ==> s[k] == NEWLINE,
    ensures
        spec_first_newline(s) == k,
    decreases k,
{
    if k == 0 {
    } else {
        assert(s[0] != NEWLINE);
        assert forall|i: int| 0 <= i < k - 1 implies s.skip(1)[i] != NEWLINE by {
            assert(s.skip(1)[i] == s[i + 1]);
        }
        if k - 1 < s.skip(1).len() {
            assert(s.skip(1)[k - 1] == s[k]);
        }
        lemma_first_newline_at(s.skip(1), k - 1);
    }
}

/// An empty source text splits into no segments at all.
pub proof fn lemma_line_split_empty()
    ensures
        spec_line_split(Seq::<u8>::empty()) == Seq::<Seq<u8>>::empty(),
{
}

/// The terminator itself is never transmitted: no segment of any
/// text contains the terminator byte.
pub proof fn lemma_line_split_excludes_terminator(s: Seq<u8>)
    ensures
        forall|i: int|
            0 <= i < spec_line_split(s).len() ==> !(#[trigger] spec_line_split(
                s,
            )[i]).contains(NEWLINE),
    decreases s.len(),
{
    if s.len() == 0 {
    } else {
        lemma_first_newline_bounds(s);
        let n = spec_first_newline(s) as int;
        if n >= s.len() {
            assert forall|j: int| 0 <= j < s.len() implies s[j] != NEWLINE by {}
            assert(!s.contains(NEWLINE));
        } else {
            let first = s.take(n);
            assert forall|j: int| 0 <= j < first.len() implies first[j] != NEWLINE by {
                assert(first[j] == s[j]);
            }
            assert(!first.contains(NEWLINE));
            lemma_line_split_excludes_terminator(s.skip(n + 1));
            let rest = spec_line_split(s.skip(n + 1));
            assert forall|i: int|
                0 <= i < spec_line_split(s).len() implies !(#[trigger] spec_line_split(
                s,
            )[i]).contains(NEWLINE) by {
                if i == 0 {
                    assert(spec_line_split(s)[i] == first);
                } else {
                    assert(spec_line_split(s)[i] == rest[i - 1]);
                }
            }
        }
    }
}

/// The segments of a text do not depend on whether it carries a
/// trailing terminator: appending one to a text whose last byte is
/// not itself a terminator changes nothing.  (The text must be
/// nonempty: appending a terminator to the empty text creates one
/// empty segment where there was none.)
pub proof fn lemma_line_split_trailing_newline(s: Seq<u8>)
    requires
        s.len() > 0,
        s[s.len() - 1] != NEWLINE,
    ensures
        spec_line_split(s.push(NEWLINE)) == spec_line_split(s),
    decreases s.len(),
{
    let p = s.push(NEWLINE);
    lemma_first_newline_bounds(s);
    let n = spec_first_newline(s) as int;
    if n >= s.len() {
        assert forall|i: int| 0 <= i < s.len() implies p[i] != NEWLINE by {
            assert(p[i] == s[i]);
        }
        lemma_first_newline_at(p, s.len() as int);
        assert(p.take(s.len() as int) =~= s);
        assert(p.skip(s.len() as int + 1) =~= Seq::<u8>::empty());
        assert(spec_line_split(p)
            == seq![p.take(s.len() as int)] + spec_line_split(p.skip(s.len() as int + 1)));
        assert(spec_line_split(p) =~= seq![s]);
        assert(spec_line_split(s) == seq![s]);
    } else {
        assert forall|i: int| 0 <= i < n implies p[i] != NEWLINE by {
            assert(p[i] == s[i]);
        }
        assert(p[n] == s[n]);
        lemma_first_newline_at(p, n);
        let rest = s.skip(n + 1);
        assert(rest.len() > 0) by {
            assert(s[n] == NEWLINE);
            assert(n != s.len() - 1);
        }
        assert(rest[rest.len() - 1] == s[s.len() - 1]);
        lemma_line_split_trailing_newline(rest);
        assert(p.skip(n + 1) =~= rest.push(NEWLINE));
        assert(p.take(n) =~= s.take(n));
        assert(spec_line_split(p) == seq![p.take(n)] + spec_line_split(p.skip(n + 1)));
        assert(spec_line_split(p) =~= spec_line_split(s));
    }
}

/// Splitting loses nothing but an optional trailing terminator:
/// rejoining the segments with one terminator between each pair
/// gives the text back exactly, less its final byte when that byte
/// is itself a terminator.
pub proof fn lemma_line_split_join(s: Seq<u8>)
    ensures
        spec_join_lines(spec_line_split(s)) == if s.len() > 0 && s[s.len() - 1] == NEWLINE {
            s.drop_last()
        } else {
            s
        },
    decreases s.len(),
{
    if s.len() == 0 {
    } else {
        lemma_first_newline_bounds(s);
        let n = spec_first_newline(s) as int;
        if n >= s.len() {
            assert(spec_line_split(s) == seq![s]);
            assert(spec_join_lines(seq![s]) == s);
            assert(s[s.len() - 1] != NEWLINE);
        } else {
            let first = s.take(n);
            let t = s.skip(n + 1);
            let rest = spec_line_split(t);
            assert(spec_line_split(s) == seq![first] + rest);
            lemma_line_split_join(t);
            if rest.len() == 0 {
                assert(t.len() == 0);
                assert(n + 1 == s.len());
                assert(seq![first] + rest =~= seq![first]);
                assert(spec_join_lines(seq![first]) == first);
                assert(s[s.len() - 1] == NEWLINE);
                assert(first =~= s.drop_last());
            } else {
                let lines = seq![first] + rest;
                assert(lines.len() >= 2);
                assert(lines[0] == first);
                assert(lines.skip(1) =~= rest);
                assert(spec_join_lines(lines) == first + seq![NEWLINE] + spec_join_lines(rest));
                assert(t.len() > 0);
                assert(t[t.len() - 1] == s[s.len() - 1]);
                if s[s.len() - 1] == NEWLINE {
                    assert(first + seq![NEWLINE] + t.drop_last() =~= s.drop_last());
                } else {
                    assert(first + seq![NEWLINE] + t =~= s);
                }
            }
        }
    }
}

/// Splits a source text into its terminator-delimited segments, each
/// an owned byte sequence holding no terminator.
pub fn split_lines(source: &[u8]) -> (segs: Vec<Vec<u8>>)
    ensures
        segs@.len() == spec_line_split(source@).len(),
        forall|i: int| 0 <= i < segs@.len() ==> segs@[i]@ == spec_line_split(source@)[i],
{
    let len: usize = source.len();
    let mut segs: Vec<Vec<u8>> = Vec::new();
    let ghost mut done: Seq<Seq<u8>> = Seq::empty();
    let mut start: usize = 0;
    proof {
        assert(source@.skip(0) =~= source@);
        assert(Seq::<Seq<u8>>::empty() + spec_line_split(source@) =~= spec_line_split(source@));
    }
    while start < len
        invariant
            len == source@.len(),
            start <= len,
            done.len() == segs@.len(),
            forall|i: int| 0 <= i < done.len() ==> segs@[i]@ == done[i],
            spec_line_split(source@) == done + spec_line_split(source@.skip(start as int)),
        decreases len - start,
    {
        let ghost tail = source@.skip(start as int);
        let mut j: usize = start;
        while j < len && source[j] != NEWLINE
            invariant
                len == source@.len(),
                start <= j <= len,
                forall|k: int| start <= k < j ==> source@[k] != NEWLINE,
            decreases len - j,
        {
            j = j + 1;
        }
        let seg: Vec<u8> = slice_to_vec(slice_subrange(source, start, j));
        proof {
            let k = j - start as int;
            assert forall|i: int| 0 <= i < k implies tail[i] != NEWLINE by {
                assert(tail[i] == source@[start + i]);
            }
            if k < tail.len() {
                assert(tail[k] == source@[j as int]);
            }
            lemma_first_newline_at(tail, k);
            if j < len {
                assert(tail.take(k) =~= seg@);
                assert(tail.skip(k + 1) =~= source@.skip(j + 1));
                assert(spec_line_split(tail) == seq![seg@] + spec_line_split(source@.skip(j + 1)));
            } else {
                assert(tail =~= seg@);
                assert(spec_line_split(tail) == seq![seg@]);
                assert(source@.skip(len as int) =~= Seq::<u8>::empty());
                assert(spec_line_split(tail)
                    == seq![seg@] + spec_line_split(source@.skip(len as int)));
            }
            assert(done + spec_line_split(tail)
                =~= (done + seq![seg@])
                    + spec_line_split(source@.skip(if j < len { j + 1 } else { len as int })));
            done = done + seq![seg@];
        }
        segs.push(seg);
        start = if j < len { j + 1 } else { len };
    }
    proof {
        assert(source@.skip(len as int) =~= Seq::<u8>::empty());
        assert(spec_line_split(source@) =~= done);
    }
    segs
}

} // verus!
