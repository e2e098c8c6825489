//! Draining an output stream into lines.
//!
//! A captured stream is modelled as the full byte sequence the child wrote to
//! one channel.  Draining splits it at line feeds, strips the terminator of
//! each line (a trailing line feed, and a carriage return just before it),
//! and accounts for every raw byte, terminators included.

use vstd::prelude::*;
use vstd::slice::{slice_subrange, slice_to_vec};

verus! {

/// Line-feed byte.
pub open spec fn lf() -> u8 {
    0x0a
}

/// Carriage-return byte.
pub open spec fn cr() -> u8 {
    0x0d
}

/// A raw line with its terminator removed: a trailing line feed is dropped,
/// and a carriage return directly before it is dropped too.
pub open spec fn strip_eol(line: Seq<u8>) -> Seq<u8> {
    if line.len() > 0 && line.last() == lf() {
        let no_lf = line.drop_last();
        if no_lf.len() > 0 && no_lf.last() == cr() {
            no_lf.drop_last()
        } else {
            no_lf
        }
    } else {
        line
    }
}

/// Length of the first raw line of `s`: everything up to and including the
/// first line feed, or all of `s` if it holds none.
pub open spec fn first_line_len(s: Seq<u8>) -> nat
    decreases s.len(),
{
    if s.len() == 0 {
        0
    } else if s[0] == lf() {
        1
    } else {
        1 + first_line_len(s.skip(1))
    }
}

/// The lines a drain of `s` yields: raw lines in order, each with its
/// terminator stripped.
pub open spec fn drained_lines(s: Seq<u8>) -> Seq<Seq<u8>>
    decreases s.len(),
    via drained_lines_decreases
{
    if s.len() == 0 {
        Seq::empty()
    } else {
        let k = first_line_len(s) as int;
        seq![strip_eol(s.take(k))] + drained_lines(s.skip(k))
    }
}

#[via_fn]
proof fn drained_lines_decreases(s: Seq<u8>) {
    if s.len() > 0 {
        lemma_first_line_len_bounds(s);
    }
}

/// The views of a sequence of byte buffers.
pub open spec fn byte_views(bufs: Seq<Vec<u8>>) -> Seq<Seq<u8>> {
    Seq::new(bufs.len(), |i: int| bufs[i]@)
}

/// The first raw line is never empty, never longer than the stream, ends at
/// the first line feed, and holds no line feed before its last byte.
pub proof fn lemma_first_line_len_bounds(s: Seq<u8>)
    requires
        s.len() > 0,
    ensures
        1 <= first_line_len(s) <= s.len(),
        s[first_line_len(s) as int - 1] == lf() || first_line_len(s) == s.len(),
        forall|i: int| 0 <= i < first_line_len(s) - 1 ==> s[i] != lf(),
    decreases s.len(),
{
    if s[0] == lf() {
    } else if s.len() == 1 {
        assert(s.skip(1).len() == 0);
        assert(first_line_len(s.skip(1)) == 0);
        assert(first_line_len(s) == 1);
    } else {
        let t = s.skip(1);
        lemma_first_line_len_bounds(t);
        let k = first_line_len(t) as int;
        assert(first_line_len(s) == 1 + k);
        assert(s[1 + k - 1] == t[k - 1]);
        assert forall|i: int| 0 <= i < first_line_len(s) - 1 implies s[i] != lf() by {
            if i > 0 {
                assert(t[i - 1] != lf());
                assert(s[i] == t[i - 1]);
            }
        }
    }
}

/// Conversely: a position `k` ending at the first line feed (or at the end of
/// a feed-free stream) is the first raw line's length.
pub proof fn lemma_first_line_len_at(s: Seq<u8>, k: int)
    requires
        1 <= k <= s.len(),
        forall|i: int| 0 <= i < k - 1 ==> s[i] != lf(),
        s[k - 1] == lf() || k == s.len(),
    ensures
        first_line_len(s) == k,
    decreases k,
{
    if s[0] == lf() {
        assert(k == 1) by {
            if k > 1 {
                assert(s[0] != lf());
            }
        }
        assert(first_line_len(s) == 1);
    } else {
        if k == 1 {
            assert(s.len() == 1);
            assert(s.skip(1).len() == 0);
            assert(first_line_len(s.skip(1)) == 0);
            assert(first_line_len(s) == 1);
        } else {
            let t = s.skip(1);
            assert forall|i: int| 0 <= i < k - 2 implies t[i] != lf() by {
                assert(t[i] == s[i + 1]);
                assert(s[i + 1] != lf());
            }
            assert(t[k - 2] == s[k - 1]);
            lemma_first_line_len_at(t, k - 1);
            assert(first_line_len(s) == 1 + first_line_len(t));
        }
    }
}

/// Splits a fully captured stream into its lines, terminators stripped, and
/// returns them together with the total number of raw bytes consumed.
///
/// The byte total counts every byte of the stream, terminators included,
/// even though they are absent from the stored lines.
pub fn capture_stream_lines(data: &Vec<u8>) -> (r: (Vec<Vec<u8>>, usize))
    ensures
        byte_views(r.0@) == drained_lines(data@),
        r.1 == data@.len(),
{
    let n = data.len();
    let mut lines: Vec<Vec<u8>> = Vec::new();
    let mut pos: usize = 0;
    proof {
        assert(byte_views(lines@) =~= Seq::<Seq<u8>>::empty());
        assert(data@.skip(0) =~= data@);
    }
    while pos < n
        invariant
            pos <= n,
            n == data@.len(),
            drained_lines(data@) == byte_views(lines@) + drained_lines(
                data@.skip(pos as int),
            ),
        decreases n - pos,
    {
        let ghost rem = data@.skip(pos as int);
        let mut j: usize = pos;
        while j < n && data[j] != 0x0a
            invariant
                pos <= j <= n,
                n == data@.len(),
                forall|m: int| pos <= m < j ==> data@[m] != lf(),
            decreases n - j,
        {
            j = j + 1;
        }
        let end = if j < n {
            j + 1
        } else {
            n
        };
        let ghost k = end - pos;
        proof {
            assert forall|i: int| 0 <= i < k - 1 implies rem[i] != lf() by {
                assert(rem[i] == data@[pos + i]);
            }
            assert(rem[k - 1] == data@[end - 1]);
            lemma_first_line_len_at(rem, k);
        }
        let raw = slice_to_vec(slice_subrange(data.as_slice(), pos, end));
        proof {
            assert(raw@ =~= rem.take(k));
        }
        let mut line = raw;
        let ghost raw_view = line@;
        if line.len() > 0 && line[line.len() - 1] == 0x0a {
            line.pop();
            proof {
                assert(line@ =~= raw_view.drop_last());
            }
            if line.len() > 0 && line[line.len() - 1] == 0x0d {
                line.pop();
                proof {
                    assert(line@ =~= raw_view.drop_last().drop_last());
                }
            }
        }
        proof {
            assert(line@ == strip_eol(raw_view));
            assert(rem.skip(k) =~= data@.skip(end as int));
            assert(drained_lines(rem) == seq![strip_eol(rem.take(k))] + drained_lines(
                rem.skip(k),
            ));
        }
        let ghost prev_views = byte_views(lines@);
        lines.push(line);
        proof {
            assert(byte_views(lines@) =~= prev_views.push(line@));
            assert(byte_views(lines@) + drained_lines(data@.skip(end as int)) =~= prev_views + (
            seq![line@] + drained_lines(data@.skip(end as int))));
        }
        pos = end;
    }
    proof {
        assert(data@.skip(n as int) =~= Seq::<u8>::empty());
        assert(byte_views(lines@) + drained_lines(Seq::<u8>::empty()) =~= byte_views(lines@));
    }
    (lines, n)
}

/// One line's worth of raw stream bytes: the content followed by its
/// terminator, a carriage return + line feed pair or a bare line feed.
pub open spec fn terminated(line: Seq<u8>, crlf: bool) -> Seq<u8> {
    if crlf {
        line + seq![cr(), lf()]
    } else {
        line + seq![lf()]
    }
}

/// Line content that a terminator can be put after without changing what a
/// drain reads back: no line feed inside, and no carriage return directly
/// before a bare line-feed terminator.
pub open spec fn clean_line(line: Seq<u8>, crlf: bool) -> bool {
    !line.contains(lf()) && (crlf || line.len() == 0 || line.last() != cr())
}

/// A stream consisting of the given lines, each followed by its chosen
/// terminator.
pub open spec fn rejoined(lines: Seq<Seq<u8>>, crlf: Seq<bool>) -> Seq<u8>
    decreases lines.len(),
{
    if lines.len() == 0 {
        Seq::empty()
    } else {
        terminated(lines[0], crlf[0]) + rejoined(lines.skip(1), crlf.skip(1))
    }
}

/// Draining a stream of terminated lines yields exactly those lines, with
/// every terminator stripped, whichever mix of bare line feeds and carriage
/// return + line feed pairs ended them.
pub proof fn lemma_drain_restores_lines(lines: Seq<Seq<u8>>, crlf: Seq<bool>)
    requires
        crlf.len() == lines.len(),
        forall|i: int| 0 <= i < lines.len() ==> clean_line(lines[i], crlf[i]),
    ensures
        drained_lines(rejoined(lines, crlf)) == lines,
    decreases lines.len(),
{
    if lines.len() == 0 {
        assert(drained_lines(rejoined(lines, crlf)) =~= lines);
    } else {
        let t0 = terminated(lines[0], crlf[0]);
        let rest = rejoined(lines.skip(1), crlf.skip(1));
        let s = rejoined(lines, crlf);
        lemma_first_line_of_terminated(lines[0], crlf[0], rest);
        assert(s.take(t0.len() as int) =~= t0);
        lemma_strip_of_terminated(lines[0], crlf[0]);
        assert(s.skip(t0.len() as int) =~= rest);
        lemma_drain_restores_lines(lines.skip(1), crlf.skip(1));
        assert(seq![lines[0]] + lines.skip(1) =~= lines);
    }
}

/// Draining a stream of terminated lines followed by a trailing fragment
/// with no terminator still yields that fragment as the final line: nothing
/// is lost at end-of-stream.
pub proof fn lemma_drain_keeps_final_line(lines: Seq<Seq<u8>>, crlf: Seq<bool>, tail: Seq<u8>)
    requires
        crlf.len() == lines.len(),
        forall|i: int| 0 <= i < lines.len() ==> clean_line(lines[i], crlf[i]),
        tail.len() > 0,
        !tail.contains(lf()),
    ensures
        drained_lines(rejoined(lines, crlf) + tail) == lines.push(tail),
    decreases lines.len(),
{
    if lines.len() == 0 {
        let s = rejoined(lines, crlf) + tail;
        assert(s =~= tail);
        assert forall|i: int| 0 <= i < tail.len() - 1 implies tail[i] != lf() by {
            assert(tail[i] != lf());
        }
        assert(tail[tail.len() - 1] != lf());
        lemma_first_line_len_at(tail, tail.len() as int);
        assert(tail.take(tail.len() as int) =~= tail);
        assert(strip_eol(tail) == tail);
        assert(tail.skip(tail.len() as int) =~= Seq::<u8>::empty());
        assert(drained_lines(s) == seq![strip_eol(s.take(first_line_len(s) as int))]
            + drained_lines(s.skip(first_line_len(s) as int)));
        assert(drained_lines(Seq::<u8>::empty()) =~= Seq::<Seq<u8>>::empty());
        assert(drained_lines(s) =~= lines.push(tail));
    } else {
        let t0 = terminated(lines[0], crlf[0]);
        let rest = rejoined(lines.skip(1), crlf.skip(1)) + tail;
        let s = rejoined(lines, crlf) + tail;
        assert(s =~= t0 + rest);
        lemma_first_line_of_terminated(lines[0], crlf[0], rest);
        assert(s.take(t0.len() as int) =~= t0);
        lemma_strip_of_terminated(lines[0], crlf[0]);
        assert(s.skip(t0.len() as int) =~= rest);
        lemma_drain_keeps_final_line(lines.skip(1), crlf.skip(1), tail);
        assert(seq![lines[0]] + lines.skip(1).push(tail) =~= lines.push(tail));
    }
}

/// Within `terminated(line, crlf) + rest`, the first raw line is exactly the
/// terminated line.
proof fn lemma_first_line_of_terminated(line: Seq<u8>, crlf: bool, rest: Seq<u8>)
    requires
        clean_line(line, crlf),
    ensures
        first_line_len(terminated(line, crlf) + rest) == terminated(line, crlf).len(),
{
    let t = terminated(line, crlf);
    let s = t + rest;
    assert forall|i: int| 0 <= i < t.len() - 1 implies s[i] != lf() by {
        if i < line.len() {
            assert(s[i] == line[i]);
            assert(!line.contains(lf()));
            assert(line[i] != lf());
        } else {
            assert(crlf && i == line.len());
            assert(s[i] == cr());
        }
    }
    assert(s[t.len() - 1] == lf());
    lemma_first_line_len_at(s, t.len() as int);
}

/// Stripping the terminator off a terminated clean line gives the line back.
proof fn lemma_strip_of_terminated(line: Seq<u8>, crlf: bool)
    requires
        clean_line(line, crlf),
    ensures
        strip_eol(terminated(line, crlf)) == line,
{
    let t = terminated(line, crlf);
    assert(t.last() == lf());
    if crlf {
        assert(t.drop_last() =~= line + seq![cr()]);
        assert(t.drop_last().last() == cr());
        assert(t.drop_last().drop_last() =~= line);
    } else {
        assert(t.drop_last() =~= line);
        if line.len() > 0 {
            assert(line.last() != cr());
        }
    }
}

} // verus!
