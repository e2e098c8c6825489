//! Byte-level text formatting: ASCII literals and decimal numerals.
//!
//! Everything the library prints is assembled into `Vec<u8>` buffers; the
//! spec side describes each piece as a `Seq<u8>`.

use vstd::prelude::*;
use vstd::string::StringSliceAdditionalSpecFns;

verus! {

/// The UTF-8 bytes of a string slice (in practice: of a literal).
pub open spec fn str_bytes(s: &str) -> Seq<u8> {
    s.spec_bytes()
}

/// Decimal digit byte for a value below ten.
pub open spec fn digit_byte(d: nat) -> u8
    recommends
        d < 10,
{
    (0x30 + d % 10) as u8
}

/// Decimal numeral of a natural number, most significant digit first.
pub open spec fn dec_nat(n: nat) -> Seq<u8>
    decreases n,
{
    if n < 10 {
        seq![digit_byte(n)]
    } else {
        dec_nat(n / 10).push(digit_byte(n % 10))
    }
}

/// Decimal numeral of an integer: a minus sign for negative values.
pub open spec fn dec_int(i: int) -> Seq<u8> {
    if i >= 0 {
        dec_nat(i as nat)
    } else {
        str_bytes("-") + dec_nat((-i) as nat)
    }
}

/// The low `width` decimal digits of `n`, zero-padded to exactly `width`.
pub open spec fn dec_digits(n: nat, width: nat) -> Seq<u8>
    decreases width,
{
    if width == 0 {
        Seq::empty()
    } else {
        dec_digits(n / 10, (width - 1) as nat).push(digit_byte(n % 10))
    }
}

/// An ASCII literal without a line-feed character has no line-feed byte.
pub proof fn lemma_ascii_lit_lf_free(s: &str)
    requires
        vstd::utf8::is_ascii_chars(s@),
        forall|i: int| 0 <= i < s@.len() ==> s@[i] != '\n',
    ensures
        !str_bytes(s).contains(0x0au8),
{
    vstd::utf8::is_ascii_chars_encode_utf8(s@);
    assert forall|i: int| 0 <= i < str_bytes(s).len() implies str_bytes(s)[i] != 0x0au8 by {
        assert(str_bytes(s)[i] == s@[i] as u8);
        assert(s@[i] != '\n');
        assert(s@[i] <= '\u{7f}');
    }
}

/// A decimal numeral holds digit bytes only: no line feed.
pub proof fn lemma_dec_nat_lf_free(n: nat)
    ensures
        !dec_nat(n).contains(0x0au8),
    decreases n,
{
    if n < 10 {
        assert(dec_nat(n)[0] == digit_byte(n));
    } else {
        lemma_dec_nat_lf_free(n / 10);
        assert forall|i: int| 0 <= i < dec_nat(n).len() implies dec_nat(n)[i] != 0x0au8 by {
            let pre = dec_nat(n / 10);
            if i < pre.len() {
                assert(dec_nat(n)[i] == pre[i]);
                assert(pre[i] != 0x0au8);
            } else {
                assert(dec_nat(n)[i] == digit_byte(n % 10));
            }
        }
    }
}

/// A zero-padded digit group holds digit bytes only: no line feed.
pub proof fn lemma_dec_digits_lf_free(n: nat, width: nat)
    ensures
        !dec_digits(n, width).contains(0x0au8),
    decreases width,
{
    if width > 0 {
        lemma_dec_digits_lf_free(n / 10, (width - 1) as nat);
        assert forall|i: int| 0 <= i < dec_digits(n, width).len() implies dec_digits(n, width)[i]
            != 0x0au8 by {
            let pre = dec_digits(n / 10, (width - 1) as nat);
            if i < pre.len() {
                assert(dec_digits(n, width)[i] == pre[i]);
                assert(pre[i] != 0x0au8);
            } else {
                assert(dec_digits(n, width)[i] == digit_byte(n % 10));
            }
        }
    }
}

/// Appends the UTF-8 bytes of `s` to `out`.
pub fn push_str_bytes(out: &mut Vec<u8>, s: &str)
    ensures
        final(out)@ == old(out)@ + str_bytes(s),
{
    let bytes = s.as_bytes();
    let n = bytes.len();
    let mut i: usize = 0;
    while i < n
        invariant
            i <= n,
            n == str_bytes(s).len(),
            bytes@ == str_bytes(s),
            out@ == old(out)@ + str_bytes(s).take(i as int),
        decreases n - i,
    {
        out.push(bytes[i]);
        i = i + 1;
        proof {
            assert(out@ =~= old(out)@ + str_bytes(s).take(i as int));
        }
    }
    proof {
        assert(out@ =~= old(out)@ + str_bytes(s));
    }
}

/// The UTF-8 bytes of `s` as an owned buffer.
pub fn str_to_bytes(s: &str) -> (r: Vec<u8>)
    ensures
        r@ == str_bytes(s),
{
    let mut out: Vec<u8> = Vec::new();
    push_str_bytes(&mut out, s);
    proof {
        assert(out@ =~= str_bytes(s));
    }
    out
}

/// Appends the decimal numeral of `n` to `out`.
pub fn push_dec_u128(out: &mut Vec<u8>, n: u128)
    ensures
        final(out)@ == old(out)@ + dec_nat(n as nat),
    decreases n,
{
    if n < 10 {
        out.push(0x30 + n as u8);
    } else {
        push_dec_u128(out, n / 10);
        out.push(0x30 + (n % 10) as u8);
        proof {
            assert(out@ =~= old(out)@ + dec_nat(n as nat));
        }
    }
}

/// Appends the decimal numeral of `n` to `out`.
pub fn push_dec_u64(out: &mut Vec<u8>, n: u64)
    ensures
        final(out)@ == old(out)@ + dec_nat(n as nat),
{
    push_dec_u128(out, n as u128);
}

/// Appends the decimal numeral of `n` to `out`.
pub fn push_dec_usize(out: &mut Vec<u8>, n: usize)
    ensures
        final(out)@ == old(out)@ + dec_nat(n as nat),
{
    push_dec_u128(out, n as u128);
}

/// Appends the decimal numeral of `i`, sign included, to `out`.
pub fn push_dec_i32(out: &mut Vec<u8>, i: i32)
    ensures
        final(out)@ == old(out)@ + dec_int(i as int),
{
    if i >= 0 {
        push_dec_u128(out, i as u128);
    } else {
        push_str_bytes(out, "-");
        let m: i64 = -(i as i64);
        push_dec_u128(out, m as u128);
        proof {
            assert(out@ =~= old(out)@ + dec_int(i as int));
        }
    }
}

/// Appends the decimal numeral of `i`, sign included, to `out`.
pub fn push_dec_i64(out: &mut Vec<u8>, i: i64)
    ensures
        final(out)@ == old(out)@ + dec_int(i as int),
{
    if i >= 0 {
        push_dec_u128(out, i as u128);
    } else {
        push_str_bytes(out, "-");
        let m: i128 = -(i as i128);
        push_dec_u128(out, m as u128);
        proof {
            assert(out@ =~= old(out)@ + dec_int(i as int));
        }
    }
}

/// Appends exactly `width` decimal digits (the low digits of `n`,
/// zero-padded) to `out`.
pub fn push_dec_digits(out: &mut Vec<u8>, n: u64, width: u8)
    ensures
        final(out)@ == old(out)@ + dec_digits(n as nat, width as nat),
    decreases width,
{
    if width > 0 {
        push_dec_digits(out, n / 10, width - 1);
        out.push(0x30 + (n % 10) as u8);
        proof {
            assert(out@ =~= old(out)@ + dec_digits(n as nat, width as nat));
        }
    }
}

} // verus!
