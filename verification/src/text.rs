//! Character-level helpers shared by the parsers and the dispatcher:
//! moving between `String` and `Vec<char>`, finding a separator, and
//! copying a range of characters.
use vstd::prelude::*;

verus! {

/// Relies on str::chars and Iterator::collect: the characters of the
/// string, in order.
#[verifier::external_body]
pub(crate) fn str_chars(s: &str) -> (r: Vec<char>)
    ensures
        r@ == s@,
{
    s.chars().collect()
}

/// Relies on String::from_iter (through Iterator::collect): the string
/// holding exactly the given characters, in order.
#[verifier::external_body]
pub(crate) fn chars_to_string(v: &Vec<char>) -> (r: String)
    ensures
        r@ == v@,
{
    v.iter().collect()
}

/// Index of the first occurrence of `sep` at or after `from`, if any.
pub open spec fn spec_find(s: Seq<char>, sep: char, from: int) -> Option<int>
    decreases s.len() - from,
{
    if from < 0 || from >= s.len() {
        None
    } else if s[from] == sep {
        Some(from)
    } else {
        spec_find(s, sep, from + 1)
    }
}

/// What `spec_find` returns: the first hit, with nothing before it.
pub proof fn lemma_spec_find(s: Seq<char>, sep: char, from: int)
    requires
        0 <= from <= s.len(),
    ensures
        match spec_find(s, sep, from) {
            Some(i) => from <= i < s.len() && s[i] == sep && forall|j: int|
                from <= j < i ==> s[j] != sep,
            None => forall|j: int| from <= j < s.len() ==> s[j] != sep,
        },
    decreases s.len() - from,
{
    if from < s.len() && s[from] != sep {
        lemma_spec_find(s, sep, from + 1);
    }
}

/// First occurrence of `sep` at or after `from`.
pub fn find_char(s: &Vec<char>, sep: char, from: usize) -> (r: Option<usize>)
    requires
        from <= s@.len(),
    ensures
        match r {
            Some(i) => spec_find(s@, sep, from as int) == Some(i as int) && from <= i < s@.len(),
            None => spec_find(s@, sep, from as int) is None,
        },
{
    let n = s.len();
    let mut idx: usize = from;
    while idx < n
        invariant
            from <= idx <= n,
            n == s@.len(),
            spec_find(s@, sep, from as int) == spec_find(s@, sep, idx as int),
        decreases n - idx,
    {
        if s[idx] == sep {
            return Some(idx);
        }
        idx += 1;
    }
    None
}

/// Whether two character vectors hold the same characters.
pub fn chars_eq(a: &Vec<char>, b: &Vec<char>) -> (r: bool)
    ensures
        r == (a@ == b@),
{
    let n = a.len();
    if n != b.len() {
        proof {
            assert(a@.len() != b@.len());
        }
        return false;
    }
    let mut i: usize = 0;
    while i < n
        invariant
            i <= n,
            n == a@.len(),
            n == b@.len(),
            forall|j: int| 0 <= j < i ==> a@[j] == b@[j],
        decreases n - i,
    {
        if a[i] != b[i] {
            return false;
        }
        i += 1;
    }
    proof {
        assert(a@ =~= b@);
    }
    true
}

/// The characters of `s` from `a` (inclusive) to `b` (exclusive).
pub fn copy_range(s: &Vec<char>, a: usize, b: usize) -> (r: Vec<char>)
    requires
        a <= b <= s@.len(),
    ensures
        r@ == s@.subrange(a as int, b as int),
{
    let mut out: Vec<char> = Vec::new();
    let mut idx: usize = a;
    while idx < b
        invariant
            a <= idx <= b <= s@.len(),
            out@ == s@.subrange(a as int, idx as int),
        decreases b - idx,
    {
        out.push(s[idx]);
        idx += 1;
        proof {
            assert(out@ =~= s@.subrange(a as int, idx as int));
        }
    }
    out
}

} // verus!
