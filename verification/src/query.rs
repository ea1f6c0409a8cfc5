//! Query-string parsing for the OAuth redirect: `&`-separated pairs,
//! each `key=value`, with the value of the first pair carrying a given
//! key looked up byte-for-byte.

use vstd::prelude::*;

verus! {

/// The `&`-separated segments of a query string.  An empty string is one
/// empty segment.
pub open spec fn qs_pairs(s: Seq<u8>) -> Seq<Seq<u8>>
    decreases s.len(),
{
    if s.len() == 0 {
        seq![Seq::<u8>::empty()]
    } else if s[0] == 0x26 {
        seq![Seq::<u8>::empty()] + qs_pairs(s.skip(1))
    } else {
        let rest = qs_pairs(s.skip(1));
        seq![seq![s[0]] + rest[0]] + rest.skip(1)
    }
}

/// The value of a segment of the form `key=value`, `None` otherwise.
pub open spec fn pair_value(pair: Seq<u8>, key: Seq<u8>) -> Option<Seq<u8>> {
    if pair.len() > key.len() && pair.take(key.len() as int) == key && pair[key.len() as int]
        == 0x3d {
        Some(pair.skip(key.len() + 1 as int))
    } else {
        None
    }
}

/// The value of the first segment matching `key`.
pub open spec fn pairs_lookup(pairs: Seq<Seq<u8>>, key: Seq<u8>) -> Option<Seq<u8>>
    decreases pairs.len(),
{
    if pairs.len() == 0 {
        None
    } else if pair_value(pairs[0], key) is Some {
        pair_value(pairs[0], key)
    } else {
        pairs_lookup(pairs.skip(1), key)
    }
}

/// The value of `key` in the query string `s`, still form-encoded.
pub open spec fn qs_lookup(s: Seq<u8>, key: Seq<u8>) -> Option<Seq<u8>> {
    pairs_lookup(qs_pairs(s), key)
}

pub open spec fn is_hex_digit(b: u8) -> bool {
    (0x30 <= b <= 0x39) || (0x41 <= b <= 0x46) || (0x61 <= b <= 0x66)
}

/// The value of one hex digit.
pub open spec fn hex_value(b: u8) -> int {
    if 0x30 <= b <= 0x39 {
        b - 0x30
    } else if 0x41 <= b <= 0x46 {
        b - 0x37
    } else {
        b - 0x57
    }
}

/// Form-urlencoding undone: `+` becomes a space and a `%` followed by
/// two hex digits becomes that byte; anything else stands as it is.
pub open spec fn form_decoded(s: Seq<u8>) -> Seq<u8>
    decreases s.len(),
{
    if s.len() == 0 {
        Seq::empty()
    } else if s[0] == 0x2b {
        seq![0x20u8] + form_decoded(s.skip(1))
    } else if s[0] == 0x25 && s.len() >= 3 && is_hex_digit(s[1]) && is_hex_digit(s[2]) {
        seq![(hex_value(s[1]) * 16 + hex_value(s[2])) as u8] + form_decoded(s.skip(3))
    } else {
        seq![s[0]] + form_decoded(s.skip(1))
    }
}

/// The value of one hex digit.
fn hex_digit_value(b: u8) -> (r: u8)
    requires
        is_hex_digit(b),
    ensures
        r == hex_value(b),
{
    if b <= 0x39 {
        b - 0x30
    } else if b <= 0x46 {
        b - 0x37
    } else {
        b - 0x57
    }
}

/// Undo the form-urlencoding of one parameter value.
pub fn form_decode(s: &Vec<u8>) -> (r: Vec<u8>)
    ensures
        r@ == form_decoded(s@),
{
    let mut out: Vec<u8> = Vec::new();
    let mut i: usize = 0;
    proof {
        assert(s@.skip(0) =~= s@);
        assert(out@ + form_decoded(s@) =~= form_decoded(s@));
    }
    while i < s.len()
        invariant
            i <= s@.len(),
            form_decoded(s@) == out@ + form_decoded(s@.skip(i as int)),
        decreases s@.len() - i,
    {
        let ghost rest = s@.skip(i as int);
        let ghost out0 = out@;
        proof {
            assert(rest[0] == s@[i as int]);
            assert(rest.skip(1) =~= s@.skip(i + 1));
        }
        let b = s[i];
        if b == 0x2b {
            out.push(0x20);
            i += 1;
            proof {
                assert((out0 + seq![0x20u8]) + form_decoded(s@.skip(i as int)) =~= out0 + (seq![
                    0x20u8,
                ] + form_decoded(s@.skip(i as int))));
            }
        } else if b == 0x25 && s.len() - i >= 3 {
            let h1 = s[i + 1];
            let h2 = s[i + 2];
            proof {
                assert(rest[1] == s@[i + 1] && rest[2] == s@[i + 2]);
                assert(rest.skip(3) =~= s@.skip(i + 3));
            }
            let hex1 = (0x30 <= h1 && h1 <= 0x39) || (0x41 <= h1 && h1 <= 0x46) || (0x61 <= h1
                && h1 <= 0x66);
            let hex2 = (0x30 <= h2 && h2 <= 0x39) || (0x41 <= h2 && h2 <= 0x46) || (0x61 <= h2
                && h2 <= 0x66);
            if hex1 && hex2 {
                let decoded = hex_digit_value(h1) * 16 + hex_digit_value(h2);
                out.push(decoded);
                i += 3;
                proof {
                    assert((out0 + seq![decoded]) + form_decoded(s@.skip(i as int)) =~= out0 + (
                    seq![decoded] + form_decoded(s@.skip(i as int))));
                }
            } else {
                out.push(b);
                i += 1;
                proof {
                    assert((out0 + seq![b]) + form_decoded(s@.skip(i as int)) =~= out0 + (seq![b]
                        + form_decoded(s@.skip(i as int))));
                }
            }
        } else {
            out.push(b);
            i += 1;
            proof {
                assert((out0 + seq![b]) + form_decoded(s@.skip(i as int)) =~= out0 + (seq![b]
                    + form_decoded(s@.skip(i as int))));
            }
        }
    }
    proof {
        assert(s@.skip(s@.len() as int) =~= Seq::<u8>::empty());
        assert(out@ + Seq::<u8>::empty() =~= out@);
    }
    out
}

/// Splitting at the first `&` agrees with the segment spec: everything
/// before it is the first segment, everything after it the rest.
proof fn lemma_qs_pairs_split(s: Seq<u8>, j: int)
    requires
        0 <= j <= s.len(),
        forall|k: int| 0 <= k < j ==> s[k] != 0x26,
        j == s.len() || s[j] == 0x26,
    ensures
        j == s.len() ==> qs_pairs(s) =~~= seq![s],
        j < s.len() ==> qs_pairs(s) =~~= seq![s.take(j)] + qs_pairs(s.skip(j + 1)),
    decreases j,
{
    if j == 0 {
        if s.len() > 0 && j < s.len() {
            assert(s.take(0) =~= Seq::<u8>::empty());
        }
    } else {
        let t = s.skip(1);
        assert(forall|k: int| 0 <= k < j - 1 ==> t[k] == s[k + 1] && s[k + 1] != 0x26);
        lemma_qs_pairs_split(t, j - 1);
        let rest = qs_pairs(t);
        if j == s.len() {
            assert(rest =~~= seq![t]);
            assert(seq![s[0]] + rest[0] =~= s);
            assert(rest.skip(1) =~= Seq::<Seq<u8>>::empty());
        } else {
            assert(rest =~~= seq![t.take(j - 1)] + qs_pairs(t.skip(j)));
            assert(rest[0] == t.take(j - 1));
            assert(seq![s[0]] + t.take(j - 1) =~= s.take(j));
            assert(rest.skip(1) =~~= qs_pairs(t.skip(j)));
            assert(t.skip(j) =~= s.skip(j + 1));
        }
    }
}

/// First occurrence of byte `b` in `v` at or after `from`.
pub fn find_byte(v: &Vec<u8>, b: u8, from: usize) -> (r: Option<usize>)
    requires
        from <= v@.len(),
    ensures
        match r {
            Some(j) => from <= j < v@.len() && v@[j as int] == b && forall|k: int|
                from <= k < j ==> v@[k] != b,
            None => forall|k: int| from <= k < v@.len() ==> v@[k] != b,
        },
{
    let mut j: usize = from;
    while j < v.len()
        invariant
            from <= j <= v@.len(),
            forall|k: int| from <= k < j ==> v@[k] != b,
        decreases v@.len() - j,
    {
        if v[j] == b {
            return Some(j);
        }
        j += 1;
    }
    None
}

/// Does the segment `s[i..j]` have the form `key=value`?
fn pair_matches(s: &Vec<u8>, i: usize, j: usize, key: &Vec<u8>) -> (r: bool)
    requires
        i <= j <= s@.len(),
    ensures
        r == (pair_value(s@.subrange(i as int, j as int), key@) is Some),
{
    let ghost seg = s@.subrange(i as int, j as int);
    let seg_len = j - i;
    if key.len() >= seg_len {
        return false;
    }
    let head = crate::bytes::copy_range(s, i, i + key.len());
    proof {
        assert(seg.take(key@.len() as int) =~= head@);
    }
    if !crate::bytes::bytes_eq(&head, key) {
        return false;
    }
    proof {
        assert(seg[key@.len() as int] == s@[i + key@.len()]);
    }
    s[i + key.len()] == 0x3d
}

/// Look `key` up in the query string `s`: the value of the first
/// `key=value` segment, or `None` when no segment matches.
pub fn qs_get(s: &Vec<u8>, key: &Vec<u8>) -> (r: Option<Vec<u8>>)
    ensures
        match r {
            Some(v) => qs_lookup(s@, key@) == Some(v@),
            None => qs_lookup(s@, key@) is None,
        },
{
    let mut i: usize = 0;
    let _sl = s.len();  // lets the prover bound s@.len() by usize::MAX
    proof {
        assert(s@.skip(0) =~= s@);
    }
    loop
        invariant
            i <= s@.len(),
            s@.len() <= usize::MAX,
            qs_lookup(s@, key@) == pairs_lookup(qs_pairs(s@.skip(i as int)), key@),
        decreases s@.len() - i,
    {
        let ghost tail = s@.skip(i as int);
        let j = match find_byte(s, 0x26, i) {
            Some(j) => j,
            None => s.len(),
        };
        let ghost seg = s@.subrange(i as int, j as int);
        proof {
            assert(forall|k: int| 0 <= k < j - i ==> tail[k] == s@[i + k]);
            lemma_qs_pairs_split(tail, j - i);
            if j < s@.len() {
                assert(tail.take(j - i) =~= seg);
                assert(tail.skip(j - i + 1) =~= s@.skip(j + 1));
                assert(qs_pairs(tail) =~~= seq![seg] + qs_pairs(s@.skip(j + 1)));
            } else {
                assert(tail =~= seg);
                assert(qs_pairs(tail) =~~= seq![seg]);
            }
            assert(qs_pairs(tail)[0] == seg);
            assert(qs_pairs(tail).len() >= 1);
        }
        if pair_matches(s, i, j, key) {
            let value = crate::bytes::copy_range(s, i + key.len() + 1, j);
            proof {
                assert(seg.skip(key@.len() + 1 as int) =~= s@.subrange(i + key@.len() + 1, j as int));
                assert(pair_value(seg, key@) == Some(value@));
                assert(pairs_lookup(qs_pairs(tail), key@) == pair_value(seg, key@));
            }
            return Some(value);
        }
        if j >= s.len() {
            proof {
                assert(pair_value(seg, key@) is None);
                assert(qs_pairs(tail) == seq![seg]);
                assert(seq![seg].skip(1) =~= Seq::<Seq<u8>>::empty());
                assert(pairs_lookup(Seq::<Seq<u8>>::empty(), key@) is None);
                assert(pairs_lookup(qs_pairs(tail), key@) is None);
            }
            return None;
        }
        proof {
            assert(qs_pairs(tail).skip(1) =~~= qs_pairs(s@.skip(j + 1)));
            assert(pairs_lookup(qs_pairs(tail), key@) == pairs_lookup(
                qs_pairs(s@.skip(j + 1)),
                key@,
            ));
        }
        i = j + 1;
    }
}

} // verus!
