//! The `application/x-www-form-urlencoded` form read by the handshake:
//! percent-decoding, `key=value` pairs separated by `&`, and lookup of
//! a key's decoded value. The token endpoints answer in this shape.
//! The decoder accepts ASCII escapes only, by decision: an escape above
//! `%7F` (or a broken one) makes the value undecodable, which callers
//! surface as a protocol violation. The tokens, secrets and flags the
//! handshake reads from these forms are ASCII by the protocol, so the
//! restriction narrows nothing a well-behaved upstream sends; an escape
//! that opens a multi-byte sequence is rejected rather than decoded.
use vstd::prelude::*;

use crate::text::{copy_range, find_char, lemma_spec_find, spec_find, str_chars};

verus! {

/// The value of one hexadecimal digit.
pub open spec fn spec_hex_val(c: char) -> Option<int> {
    let v = c as u32;
    if ('0' as u32) <= v <= ('9' as u32) {
        Some(v - ('0' as u32))
    } else if ('A' as u32) <= v <= ('F' as u32) {
        Some(v - ('A' as u32) + 10)
    } else if ('a' as u32) <= v <= ('f' as u32) {
        Some(v - ('a' as u32) + 10)
    } else {
        None
    }
}

/// The value of one hexadecimal digit.
pub fn hex_val(c: char) -> (r: Option<u8>)
    ensures
        match r {
            Some(v) => spec_hex_val(c) == Some(v as int) && v < 16,
            None => spec_hex_val(c) is None,
        },
{
    let v = c as u32;
    if ('0' as u32) <= v && v <= ('9' as u32) {
        Some((v - ('0' as u32)) as u8)
    } else if ('A' as u32) <= v && v <= ('F' as u32) {
        Some((v - ('A' as u32) + 10) as u8)
    } else if ('a' as u32) <= v && v <= ('f' as u32) {
        Some((v - ('a' as u32) + 10) as u8)
    } else {
        None
    }
}

/// The percent-decoding of `s` from position `i` on: `+` means space,
/// `%hh` with `hh` below 80 means that ASCII character, anything else
/// stands for itself. A broken or non-ASCII escape decodes to nothing.
pub open spec fn spec_pct_decode_from(s: Seq<char>, i: int) -> Option<Seq<char>>
    decreases s.len() - i,
{
    if i < 0 || i >= s.len() {
        Some(Seq::empty())
    } else if s[i] == '%' {
        if i + 2 < s.len() {
            match spec_hex_val(s[i + 1]) {
                None => None,
                Some(h) => match spec_hex_val(s[i + 2]) {
                    None => None,
                    Some(l) => if 16 * h + l < 128 {
                        match spec_pct_decode_from(s, i + 3) {
                            None => None,
                            Some(rest) => Some(seq![((16 * h + l) as u8) as char] + rest),
                        }
                    } else {
                        None
                    },
                },
            }
        } else {
            None
        }
    } else {
        let c = if s[i] == '+' {
            ' '
        } else {
            s[i]
        };
        match spec_pct_decode_from(s, i + 1) {
            None => None,
            Some(rest) => Some(seq![c] + rest),
        }
    }
}

/// The percent-decoding of the whole of `s`.
pub open spec fn spec_pct_decode(s: Seq<char>) -> Option<Seq<char>> {
    spec_pct_decode_from(s, 0)
}

/// Percent-decode `s`; nothing when it holds a broken or non-ASCII
/// escape.
pub fn pct_decode(s: &Vec<char>) -> (r: Option<Vec<char>>)
    ensures
        match r {
            Some(v) => spec_pct_decode(s@) == Some(v@),
            None => spec_pct_decode(s@) is None,
        },
{
    let n = s.len();
    let mut out: Vec<char> = Vec::new();
    let mut i: usize = 0;
    while i < n
        invariant
            i <= n,
            n == s@.len(),
            match spec_pct_decode_from(s@, i as int) {
                Some(rest) => spec_pct_decode(s@) == Some(out@ + rest),
                None => spec_pct_decode(s@) is None,
            },
        decreases n - i,
    {
        let c = s[i];
        if c == '%' {
            if n - i < 3 {
                return None;
            }
            let h = match hex_val(s[i + 1]) {
                Some(h) => h,
                None => {
                    return None;
                },
            };
            let l = match hex_val(s[i + 2]) {
                Some(l) => l,
                None => {
                    return None;
                },
            };
            let v: u8 = 16 * h + l;
            if v >= 128 {
                return None;
            }
            let ghost prev = out@;
            out.push(v as char);
            i += 3;
            proof {
                if spec_pct_decode_from(s@, i as int) is Some {
                    let rest = spec_pct_decode_from(s@, i as int).unwrap();
                    assert(prev + (seq![v as char] + rest) =~= out@ + rest);
                }
            }
        } else {
            let d = if c == '+' {
                ' '
            } else {
                c
            };
            let ghost prev = out@;
            out.push(d);
            i += 1;
            proof {
                if spec_pct_decode_from(s@, i as int) is Some {
                    let rest = spec_pct_decode_from(s@, i as int).unwrap();
                    assert(prev + (seq![d] + rest) =~= out@ + rest);
                }
            }
        }
    }
    proof {
        assert(out@ + Seq::<char>::empty() =~= out@);
    }
    Some(out)
}

/// A decimal digit.
pub open spec fn spec_is_digit(c: char) -> bool {
    ('0' as u32) <= c as u32 <= ('9' as u32)
}

/// A nonempty, all-decimal string.
pub open spec fn spec_all_digits(s: Seq<char>) -> bool {
    s.len() > 0 && forall|i: int| 0 <= i < s.len() ==> spec_is_digit(s[i])
}

/// The number the decimal digits of `s` spell.
pub open spec fn spec_digits_val(s: Seq<char>) -> int
    decreases s.len(),
{
    if s.len() == 0 {
        0
    } else {
        spec_digits_val(s.drop_last()) * 10 + (s.last() as u32 - ('0' as u32))
    }
}

/// The number `s` spells, when it is a nonempty decimal numeral whose
/// value fits.
pub open spec fn spec_parse_u64(s: Seq<char>) -> Option<u64> {
    if spec_all_digits(s) && spec_digits_val(s) <= u64::MAX {
        Some(spec_digits_val(s) as u64)
    } else {
        None
    }
}

/// A digit string's value is never negative.
pub proof fn lemma_digits_val_nonneg(s: Seq<char>)
    requires
        forall|i: int| 0 <= i < s.len() ==> spec_is_digit(s[i]),
    ensures
        spec_digits_val(s) >= 0,
    decreases s.len(),
{
    if s.len() > 0 {
        lemma_digits_val_nonneg(s.drop_last());
    }
}

/// Dropping trailing digits never increases the value.
pub proof fn lemma_digits_val_prefix(s: Seq<char>, i: int)
    requires
        0 <= i <= s.len(),
        forall|j: int| 0 <= j < s.len() ==> spec_is_digit(s[j]),
    ensures
        spec_digits_val(s.take(i)) <= spec_digits_val(s),
    decreases s.len() - i,
{
    if i < s.len() {
        assert(s.take(i + 1).drop_last() =~= s.take(i));
        assert(s.take(i + 1).last() == s[i]);
        assert(forall|j: int| 0 <= j < s.take(i).len() ==> spec_is_digit(s.take(i)[j]));
        lemma_digits_val_nonneg(s.take(i));
        assert(spec_digits_val(s.take(i + 1)) >= spec_digits_val(s.take(i)));
        lemma_digits_val_prefix(s, i + 1);
    } else {
        assert(s.take(i) =~= s);
    }
}

/// Parse a nonempty decimal numeral whose value fits in a `u64`.
pub fn parse_u64(s: &Vec<char>) -> (r: Option<u64>)
    ensures
        match r {
            Some(v) => spec_parse_u64(s@) == Some(v),
            None => spec_parse_u64(s@) is None,
        },
{
    let n = s.len();
    if n == 0 {
        return None;
    }
    let mut acc: u64 = 0;
    let mut i: usize = 0;
    while i < n
        invariant
            i <= n,
            n == s@.len(),
            forall|j: int| 0 <= j < i ==> spec_is_digit(s@[j]),
            acc as int == spec_digits_val(s@.take(i as int)),
        decreases n - i,
    {
        let c = s[i];
        let v = c as u32;
        if v < ('0' as u32) || v > ('9' as u32) {
            proof {
                assert(!spec_is_digit(s@[i as int]));
            }
            return None;
        }
        let d: u64 = (v - ('0' as u32)) as u64;
        proof {
            assert(s@.take(i as int + 1).drop_last() =~= s@.take(i as int));
            assert(s@.take(i as int + 1).last() == s@[i as int]);
        }
        if acc > u64::MAX / 10 || (acc == u64::MAX / 10 && d > u64::MAX % 10) {
            proof {
                lemma_digits_val_nonneg(s@.take(i as int));
                assert(spec_digits_val(s@.take(i as int + 1)) > u64::MAX);
                if spec_all_digits(s@) {
                    lemma_digits_val_prefix(s@, i as int + 1);
                    assert(spec_digits_val(s@) > u64::MAX);
                }
            }
            return None;
        }
        acc = acc * 10 + d;
        i += 1;
    }
    proof {
        assert(s@.take(n as int) =~= s@);
    }
    Some(acc)
}

/// The `&`-separated segments of a form; an empty form is one empty
/// segment.
pub open spec fn spec_segments(s: Seq<char>) -> Seq<Seq<char>>
    decreases s.len(),
    via spec_segments_decreases
{
    match spec_find(s, '&', 0) {
        None => seq![s],
        Some(i) => seq![s.take(i)] + spec_segments(s.skip(i + 1)),
    }
}

#[via_fn]
proof fn spec_segments_decreases(s: Seq<char>) {
    lemma_spec_find(s, '&', 0);
}

/// The raw key of one `key=value` segment: everything before the first
/// `=`, or the whole segment when it has none.
pub open spec fn spec_pair_key(seg: Seq<char>) -> Seq<char> {
    match spec_find(seg, '=', 0) {
        None => seg,
        Some(i) => seg.take(i),
    }
}

/// The raw value of one `key=value` segment: everything after the first
/// `=`, or nothing when it has none.
pub open spec fn spec_pair_val(seg: Seq<char>) -> Seq<char> {
    match spec_find(seg, '=', 0) {
        None => Seq::empty(),
        Some(i) => seg.skip(i + 1),
    }
}

/// The decoded value of the first segment whose decoded key is `key`;
/// nothing when no such segment exists, a segment whose key does not
/// decode is passed over, and a matching segment whose value does not
/// decode yields nothing.
pub open spec fn spec_lookup(segs: Seq<Seq<char>>, key: Seq<char>) -> Option<Seq<char>>
    decreases segs.len(),
{
    if segs.len() == 0 {
        None
    } else if spec_pct_decode(spec_pair_key(segs[0])) == Some(key) {
        spec_pct_decode(spec_pair_val(segs[0]))
    } else {
        spec_lookup(segs.drop_first(), key)
    }
}

/// The decoded value stored under `key` in the form `s`.
pub open spec fn spec_form_value(s: Seq<char>, key: Seq<char>) -> Option<Seq<char>> {
    spec_lookup(spec_segments(s), key)
}

/// Finding a separator in a suffix is finding it in the whole string.
pub proof fn lemma_find_skip(s: Seq<char>, sep: char, pos: int)
    requires
        0 <= pos <= s.len(),
    ensures
        match spec_find(s.skip(pos), sep, 0) {
            None => spec_find(s, sep, pos) is None,
            Some(i) => spec_find(s, sep, pos) == Some(i + pos),
        },
{
    lemma_spec_find(s, sep, pos);
    lemma_spec_find(s.skip(pos), sep, 0);
    let suffix = s.skip(pos);
    assert(forall|k: int| 0 <= k < suffix.len() ==> suffix[k] == s[pos + k]);
    match spec_find(suffix, sep, 0) {
        None => {
            if spec_find(s, sep, pos) is Some {
                let i = spec_find(s, sep, pos).unwrap();
                assert(suffix[i - pos] == sep);
            }
        },
        Some(j) => {
            assert(s[pos + j] == sep);
            match spec_find(s, sep, pos) {
                None => {
                    assert(s[pos + j] != sep);
                },
                Some(i) => {
                    if pos + j < i {
                        assert(s[pos + j] != sep);
                    }
                    if pos + j > i {
                        assert(suffix[i - pos] == sep);
                        assert(suffix[i - pos] != sep);
                    }
                },
            }
        },
    }
}

/// The decoded value stored under `key` in the form `s`, if any.
pub fn form_value(s: &str, key: &str) -> (r: Option<String>)
    ensures
        match r {
            Some(v) => spec_form_value(s@, key@) == Some(v@),
            None => spec_form_value(s@, key@) is None,
        },
{
    let chars = str_chars(s);
    let keyc = str_chars(key);
    let n = chars.len();
    let mut pos: usize = 0;
    proof {
        assert(s@.skip(0) =~= s@);
    }
    loop
        invariant
            pos <= n,
            n == chars@.len(),
            chars@ == s@,
            keyc@ == key@,
            spec_lookup(spec_segments(s@.skip(pos as int)), key@) == spec_form_value(s@, key@),
        decreases n - pos,
    {
        let ghost suffix = s@.skip(pos as int);
        let amp = find_char(&chars, '&', pos);
        proof {
            lemma_find_skip(s@, '&', pos as int);
        }
        let end = match amp {
            Some(a) => a,
            None => n,
        };
        let seg = copy_range(&chars, pos, end);
        let ghost segs = spec_segments(suffix);
        proof {
            assert(seg@ =~= suffix.take(end - pos as int));
            match amp {
                Some(a) => {
                    assert(spec_find(suffix, '&', 0) == Some(a - pos as int));
                    assert(segs == seq![suffix.take(a - pos as int)] + spec_segments(
                        suffix.skip(a - pos as int + 1),
                    ));
                    assert(segs[0] == seg@);
                },
                None => {
                    assert(spec_find(suffix, '&', 0) is None);
                    assert(suffix.take(suffix.len() as int) =~= suffix);
                    assert(segs == seq![suffix]);
                    assert(segs[0] == seg@);
                },
            }
        }
        let m = seg.len();
        let eq = find_char(&seg, '=', 0);
        let (rawk, rawv) = match eq {
            Some(e) => {
                assert(e < m);
                let k = copy_range(&seg, 0, e);
                let v = copy_range(&seg, e + 1, m);
                proof {
                    assert(k@ =~= spec_pair_key(seg@));
                    assert(v@ =~= spec_pair_val(seg@));
                }
                (k, v)
            },
            None => {
                let v: Vec<char> = Vec::new();
                proof {
                    assert(v@ =~= spec_pair_val(seg@));
                }
                (seg, v)
            },
        };
        let matched = match pct_decode(&rawk) {
            Some(dk) => crate::text::chars_eq(&dk, &keyc),
            None => false,
        };
        if matched {
            proof {
                assert(spec_lookup(segs, key@) == spec_pct_decode(spec_pair_val(segs[0])));
            }
            return match pct_decode(&rawv) {
                Some(dv) => Some(crate::text::chars_to_string(&dv)),
                None => None,
            };
        }
        proof {
            assert(spec_pct_decode(spec_pair_key(segs[0])) != Some(key@));
            assert(spec_lookup(segs, key@) == spec_lookup(segs.drop_first(), key@));
        }
        match amp {
            None => {
                proof {
                    assert(segs.drop_first() =~= Seq::<Seq<char>>::empty());
                }
                return None;
            },
            Some(a) => {
                proof {
                    assert(segs.drop_first() =~= spec_segments(suffix.skip(a - pos as int + 1)));
                    assert(s@.skip(a + 1) =~= suffix.skip(a - pos as int + 1));
                }
                pos = a + 1;
            },
        }
    }
}

} // verus!
