//! Building blocks for the JSON records the telemetry log holds.
//!
//! Strings are JSON-escaped at the byte level: quote and backslash get a
//! backslash escape, control bytes become `\u00..` sequences, everything
//! else passes through unchanged.  Escaped text therefore never introduces a
//! raw line feed, which is what keeps one serialized record on one log line.

use crate::capture::{byte_views, lf};
use vstd::prelude::*;

verus! {

/// Lowercase hexadecimal digit byte for a value below sixteen.
pub open spec fn hex_digit_byte(d: nat) -> u8
    recommends
        d < 16,
{
    if d % 16 < 10 {
        (0x30 + d % 16) as u8
    } else {
        (0x57 + d % 16) as u8
    }
}

/// JSON escape of one byte.
pub open spec fn escaped_byte(b: u8) -> Seq<u8> {
    if b == 0x22 {
        seq![0x5cu8, 0x22u8]
    } else if b == 0x5c {
        seq![0x5cu8, 0x5cu8]
    } else if b < 0x20 {
        seq![0x5cu8, 0x75u8, 0x30u8, 0x30u8, hex_digit_byte((b / 16) as nat), hex_digit_byte(
            (b % 16) as nat,
        )]
    } else {
        seq![b]
    }
}

/// JSON escape of a byte string.
pub open spec fn escaped_bytes(s: Seq<u8>) -> Seq<u8>
    decreases s.len(),
{
    if s.len() == 0 {
        Seq::empty()
    } else {
        escaped_bytes(s.drop_last()) + escaped_byte(s.last())
    }
}

/// A JSON string: the escaped bytes between double quotes.
pub open spec fn jstr(s: Seq<u8>) -> Seq<u8> {
    seq![0x22u8] + escaped_bytes(s) + seq![0x22u8]
}

/// The comma-separated items of a JSON array of strings.
pub open spec fn jarr_items(items: Seq<Seq<u8>>) -> Seq<u8>
    decreases items.len(),
{
    if items.len() == 0 {
        Seq::empty()
    } else if items.len() == 1 {
        jstr(items[0])
    } else {
        jarr_items(items.drop_last()) + seq![0x2cu8] + jstr(items.last())
    }
}

/// A JSON array of strings.
pub open spec fn jarr(items: Seq<Seq<u8>>) -> Seq<u8> {
    seq![0x5bu8] + jarr_items(items) + seq![0x5du8]
}

/// Putting two line-feed-free pieces together keeps them line-feed-free.
pub proof fn lemma_cat_lf_free(a: Seq<u8>, b: Seq<u8>)
    requires
        !a.contains(lf()),
        !b.contains(lf()),
    ensures
        !(a + b).contains(lf()),
{
    assert forall|i: int| 0 <= i < (a + b).len() implies (a + b)[i] != lf() by {
        if i < a.len() {
            assert((a + b)[i] == a[i]);
            assert(a[i] != lf());
        } else {
            assert((a + b)[i] == b[i - a.len()]);
            assert(b[i - a.len()] != lf());
        }
    }
}

/// Escaping never produces a line feed byte.
pub proof fn lemma_escaped_lf_free(s: Seq<u8>)
    ensures
        !escaped_bytes(s).contains(lf()),
    decreases s.len(),
{
    if s.len() > 0 {
        lemma_escaped_lf_free(s.drop_last());
        assert forall|i: int| 0 <= i < escaped_bytes(s).len() implies escaped_bytes(s)[i]
            != lf() by {
            let pre = escaped_bytes(s.drop_last());
            if i < pre.len() {
                assert(pre[i] != lf());
            } else {
                assert(escaped_bytes(s)[i] == escaped_byte(s.last())[i - pre.len()]);
            }
        }
    }
}

/// A JSON string never holds a line feed byte.
pub proof fn lemma_jstr_lf_free(s: Seq<u8>)
    ensures
        !jstr(s).contains(lf()),
{
    lemma_escaped_lf_free(s);
    assert forall|i: int| 0 <= i < jstr(s).len() implies jstr(s)[i] != lf() by {
        if 1 <= i < 1 + escaped_bytes(s).len() {
            assert(jstr(s)[i] == escaped_bytes(s)[i - 1]);
        }
    }
}

/// A JSON array of strings never holds a line feed byte.
pub proof fn lemma_jarr_lf_free(items: Seq<Seq<u8>>)
    ensures
        !jarr(items).contains(lf()),
        !jarr_items(items).contains(lf()),
    decreases items.len(),
{
    if items.len() == 0 {
    } else if items.len() == 1 {
        lemma_jstr_lf_free(items[0]);
    } else {
        lemma_jarr_lf_free(items.drop_last());
        lemma_jstr_lf_free(items.last());
        let pre = jarr_items(items.drop_last()) + seq![0x2cu8];
        assert forall|i: int| 0 <= i < jarr_items(items).len() implies jarr_items(items)[i]
            != lf() by {
            if i < pre.len() {
                if i < jarr_items(items.drop_last()).len() {
                    assert(pre[i] == jarr_items(items.drop_last())[i]);
                    assert(!jarr_items(items.drop_last()).contains(lf()));
                }
            } else {
                assert(jarr_items(items)[i] == jstr(items.last())[i - pre.len()]);
            }
        }
    }
    assert forall|i: int| 0 <= i < jarr(items).len() implies jarr(items)[i] != lf() by {
        if 1 <= i < 1 + jarr_items(items).len() {
            assert(jarr(items)[i] == jarr_items(items)[i - 1]);
        }
    }
}

/// Appends the JSON escape of `s` to `out`.
pub fn push_escaped(out: &mut Vec<u8>, s: &Vec<u8>)
    ensures
        final(out)@ == old(out)@ + escaped_bytes(s@),
{
    let n = s.len();
    let mut i: usize = 0;
    proof {
        assert(out@ =~= old(out)@ + escaped_bytes(s@.take(0)));
    }
    while i < n
        invariant
            i <= n,
            n == s@.len(),
            out@ == old(out)@ + escaped_bytes(s@.take(i as int)),
        decreases n - i,
    {
        let b = s[i];
        if b == 0x22 {
            out.push(0x5c);
            out.push(0x22);
        } else if b == 0x5c {
            out.push(0x5c);
            out.push(0x5c);
        } else if b < 0x20 {
            out.push(0x5c);
            out.push(0x75);
            out.push(0x30);
            out.push(0x30);
            let hi = b / 16;
            let lo = b % 16;
            out.push(if hi < 10 {
                0x30 + hi
            } else {
                0x57 + hi
            });
            out.push(if lo < 10 {
                0x30 + lo
            } else {
                0x57 + lo
            });
        } else {
            out.push(b);
        }
        proof {
            assert(s@.take(i + 1).drop_last() =~= s@.take(i as int));
            assert(s@.take(i + 1).last() == s@[i as int]);
            assert(out@ =~= old(out)@ + escaped_bytes(s@.take(i + 1)));
        }
        i = i + 1;
    }
    proof {
        assert(s@.take(n as int) =~= s@);
    }
}

/// Appends the JSON string form of `s` (quotes included) to `out`.
pub fn push_jstr(out: &mut Vec<u8>, s: &Vec<u8>)
    ensures
        final(out)@ == old(out)@ + jstr(s@),
{
    out.push(0x22);
    push_escaped(out, s);
    out.push(0x22);
    proof {
        assert(out@ =~= old(out)@ + jstr(s@));
    }
}

/// Appends the JSON array of the given strings to `out`.
pub fn push_jarr(out: &mut Vec<u8>, items: &Vec<Vec<u8>>)
    ensures
        final(out)@ == old(out)@ + jarr(byte_views(items@)),
{
    out.push(0x5b);
    let n = items.len();
    let mut i: usize = 0;
    proof {
        assert(byte_views(items@).take(0) =~= Seq::<Seq<u8>>::empty());
        assert(out@ =~= old(out)@ + seq![0x5bu8] + jarr_items(byte_views(items@).take(0)));
    }
    while i < n
        invariant
            i <= n,
            n == items@.len(),
            out@ == old(out)@ + seq![0x5bu8] + jarr_items(byte_views(items@).take(i as int)),
        decreases n - i,
    {
        if i > 0 {
            out.push(0x2c);
        }
        push_jstr(out, &items[i]);
        proof {
            let views = byte_views(items@);
            assert(views.take(i + 1).drop_last() =~= views.take(i as int));
            assert(views.take(i + 1).last() == items@[i as int]@);
            if i == 0 {
                assert(jarr_items(views.take(1)) == jstr(views.take(1)[0]));
                assert(views.take(1)[0] == items@[0]@);
            }
            assert(out@ =~= old(out)@ + seq![0x5bu8] + jarr_items(views.take(i + 1)));
        }
        i = i + 1;
    }
    out.push(0x5d);
    proof {
        assert(byte_views(items@).take(n as int) =~= byte_views(items@));
        assert(out@ =~= old(out)@ + jarr(byte_views(items@)));
    }
}

} // verus!
