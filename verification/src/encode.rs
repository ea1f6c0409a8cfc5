//! Verified text encodings used when building outbound requests:
//! percent-encoding for URL query values, JSON string escaping for
//! request bodies, and decimal rendering of port numbers.

use vstd::prelude::*;

verus! {

/// Upper-case hex digit for a value below 16.
pub open spec fn hex_digit(n: u8) -> u8 {
    if n < 10 {
        (0x30 + n) as u8
    } else {
        (0x37 + n) as u8
    }
}

/// Bytes that percent-encoding leaves as they are: ASCII letters,
/// digits, `-`, `.`, `_` and `~`.
pub open spec fn is_unreserved(b: u8) -> bool {
    (0x30 <= b <= 0x39) || (0x41 <= b <= 0x5a) || (0x61 <= b <= 0x7a) || b == 0x2d || b == 0x2e
        || b == 0x5f || b == 0x7e
}

/// Percent-encoding of one byte.
pub open spec fn pct_byte(b: u8) -> Seq<u8> {
    if is_unreserved(b) {
        seq![b]
    } else {
        seq![0x25u8, hex_digit(b / 16), hex_digit(b % 16)]
    }
}

/// Percent-encoding of a byte string.
pub open spec fn pct_encoded(s: Seq<u8>) -> Seq<u8>
    decreases s.len(),
{
    if s.len() == 0 {
        Seq::empty()
    } else {
        pct_encoded(s.drop_last()) + pct_byte(s.last())
    }
}

/// Percent-encode `s` and append it to `out`.
pub fn pct_encode_onto(out: &mut Vec<u8>, s: &Vec<u8>)
    ensures
        final(out)@ == old(out)@ + pct_encoded(s@),
{
    let ghost start = out@;
    let mut k: usize = 0;
    proof {
        assert(s@.take(0) =~= Seq::<u8>::empty());
        assert(start + Seq::<u8>::empty() =~= start);
    }
    while k < s.len()
        invariant
            k <= s@.len(),
            out@ == start + pct_encoded(s@.take(k as int)),
        decreases s@.len() - k,
    {
        let b = s[k];
        proof {
            assert(s@.take(k + 1 as int).drop_last() =~= s@.take(k as int));
            assert(s@.take(k + 1 as int).last() == b);
        }
        if (0x30 <= b && b <= 0x39) || (0x41 <= b && b <= 0x5a) || (0x61 <= b && b <= 0x7a) || b
            == 0x2d || b == 0x2e || b == 0x5f || b == 0x7e {
            out.push(b);
        } else {
            out.push(0x25);
            let hi = b / 16;
            let lo = b % 16;
            out.push(if hi < 10 { 0x30 + hi } else { 0x37 + hi });
            out.push(if lo < 10 { 0x30 + lo } else { 0x37 + lo });
        }
        proof {
            assert(out@ =~= start + pct_encoded(s@.take(k + 1 as int)));
        }
        k += 1;
    }
    proof {
        assert(s@.take(s@.len() as int) =~= s@);
    }
}

/// JSON escaping of one byte inside a string literal: quote and
/// backslash get a backslash, control bytes become `\u00XX`, everything
/// else stands as it is.
pub open spec fn json_esc_byte(b: u8) -> Seq<u8> {
    if b == 0x22 {
        seq![0x5cu8, 0x22u8]
    } else if b == 0x5c {
        seq![0x5cu8, 0x5cu8]
    } else if b < 0x20 {
        seq![0x5cu8, 0x75u8, 0x30u8, 0x30u8, hex_digit(b / 16), hex_digit(b % 16)]
    } else {
        seq![b]
    }
}

/// JSON escaping of a byte string.
pub open spec fn json_escaped(s: Seq<u8>) -> Seq<u8>
    decreases s.len(),
{
    if s.len() == 0 {
        Seq::empty()
    } else {
        json_escaped(s.drop_last()) + json_esc_byte(s.last())
    }
}

/// JSON-escape `s` and append it to `out`.
pub fn json_escape_onto(out: &mut Vec<u8>, s: &Vec<u8>)
    ensures
        final(out)@ == old(out)@ + json_escaped(s@),
{
    let ghost start = out@;
    let mut k: usize = 0;
    proof {
        assert(s@.take(0) =~= Seq::<u8>::empty());
        assert(start + Seq::<u8>::empty() =~= start);
    }
    while k < s.len()
        invariant
            k <= s@.len(),
            out@ == start + json_escaped(s@.take(k as int)),
        decreases s@.len() - k,
    {
        let b = s[k];
        proof {
            assert(s@.take(k + 1 as int).drop_last() =~= s@.take(k as int));
            assert(s@.take(k + 1 as int).last() == b);
        }
        if b == 0x22 {
            out.push(0x5c);
            out.push(0x22);
        } else if b == 0x5c {
            out.push(0x5c);
            out.push(0x5c);
        } else if b < 0x20 {
            out.push(0x5c);
            out.push(0x75);
            out.push(0x30);
            out.push(0x30);
            let hi = b / 16;
            let lo = b % 16;
            out.push(if hi < 10 { 0x30 + hi } else { 0x37 + hi });
            out.push(if lo < 10 { 0x30 + lo } else { 0x37 + lo });
        } else {
            out.push(b);
        }
        proof {
            assert(out@ =~= start + json_escaped(s@.take(k + 1 as int)));
        }
        k += 1;
    }
    proof {
        assert(s@.take(s@.len() as int) =~= s@);
    }
}

/// Decimal digits of `n`, most significant first.
pub open spec fn dec_digits(n: int) -> Seq<u8>
    decreases n,
{
    if n <= 0 {
        Seq::empty()
    } else {
        dec_digits(n / 10).push((0x30 + n % 10) as u8)
    }
}

/// Decimal rendering of `n`: its digits, or `"0"` for zero.
pub open spec fn dec_render(n: int) -> Seq<u8> {
    if n == 0 {
        seq![0x30u8]
    } else {
        dec_digits(n)
    }
}

/// Render `n` in decimal and append it to `out`.
pub fn dec_onto(out: &mut Vec<u8>, n: u16)
    ensures
        final(out)@ == old(out)@ + dec_render(n as int),
{
    let ghost start = out@;
    if n == 0 {
        out.push(0x30);
        proof {
            assert(out@ =~= start + dec_render(0));
        }
        return ;
    }
    let mut digits: Vec<u8> = Vec::new();
    let mut m: u16 = n;
    proof {
        assert(dec_digits(n as int) + Seq::<u8>::empty() =~= dec_digits(n as int));
    }
    while m > 0
        invariant
            dec_digits(n as int) == dec_digits(m as int) + digits@,
        decreases m,
    {
        let ghost digits0 = digits@;
        let ghost m0 = m as int;
        let d = (m % 10) as u8;
        digits.insert(0, 0x30 + d);
        m = m / 10;
        proof {
            assert(dec_digits(m0) == dec_digits(m0 / 10).push((0x30 + m0 % 10) as u8));
            assert(digits@ =~= digits0.insert(0, (0x30 + m0 % 10) as u8));
            assert(dec_digits(m0 / 10).push((0x30 + m0 % 10) as u8) + digits0 =~= dec_digits(
                m0 / 10,
            ) + digits0.insert(0, (0x30 + m0 % 10) as u8));
        }
    }
    proof {
        assert(dec_digits(0) =~= Seq::<u8>::empty());
        assert(Seq::<u8>::empty() + digits@ =~= digits@);
    }
    crate::bytes::push_all(out, &digits);
}

} // verus!
