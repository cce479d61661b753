//! Byte-level text helpers shared by the verifier and the consent gate.
//!
//! Anchors, key identifiers and operator replies are handled as plain byte
//! strings; comparisons ignore trailing whitespace, as a clear-signed
//! plaintext carries a final line terminator that is not part of the
//! identifier it certifies.

use vstd::prelude::*;

verus! {

/// A byte that counts as trailing whitespace: space, tab, line feed,
/// carriage return.
pub open spec fn is_trailing_ws(b: u8) -> bool {
    b == 0x20 || b == 0x09 || b == 0x0a || b == 0x0d
}

/// The byte sequence with every trailing whitespace byte removed.
pub open spec fn trimmed(s: Seq<u8>) -> Seq<u8>
    decreases s.len(),
{
    if s.len() > 0 && is_trailing_ws(s[s.len() - 1]) {
        trimmed(s.drop_last())
    } else {
        s
    }
}

/// Runtime test matching `is_trailing_ws`.
pub fn byte_is_trailing_ws(b: u8) -> (r: bool)
    ensures
        r == is_trailing_ws(b),
{
    b == 0x20 || b == 0x09 || b == 0x0a || b == 0x0d
}

/// How many leading bytes of `s` remain once trailing whitespace is dropped.
pub fn trimmed_len(s: &Vec<u8>) -> (n: usize)
    ensures
        n <= s.len(),
        trimmed(s@) == s@.subrange(0, n as int),
        n > 0 ==> !is_trailing_ws(s@[n - 1]),
{
    let mut n: usize = s.len();
    proof {
        assert(s@.subrange(0, s.len() as int) =~= s@);
    }
    while n > 0 && byte_is_trailing_ws(s[n - 1])
        invariant
            n <= s.len(),
            trimmed(s@) == trimmed(s@.subrange(0, n as int)),
        decreases n,
    {
        proof {
            let cur = s@.subrange(0, n as int);
            assert(cur[n - 1] == s@[n - 1]);
            assert(cur.drop_last() =~= s@.subrange(0, n - 1));
        }
        n = n - 1;
    }
    proof {
        let cur = s@.subrange(0, n as int);
        if n > 0 {
            assert(cur[n - 1] == s@[n - 1]);
        }
        assert(trimmed(cur) == cur);
    }
    n
}

/// Whether two byte strings are equal.
pub fn bytes_eq(a: &Vec<u8>, b: &Vec<u8>) -> (r: bool)
    ensures
        r == (a@ == b@),
{
    if a.len() != b.len() {
        return false;
    }
    let mut i: usize = 0;
    while i < a.len()
        invariant
            i <= a.len(),
            a.len() == b.len(),
            forall|j: int| 0 <= j < i ==> a@[j] == b@[j],
        decreases a.len() - i,
    {
        if a[i] != b[i] {
            return false;
        }
        i = i + 1;
    }
    proof {
        assert(a@ =~= b@);
    }
    true
}

/// Whether a byte string, once its trailing whitespace is dropped, equals
/// `expected` exactly.
pub fn matches_trimmed(s: &Vec<u8>, expected: &Vec<u8>) -> (r: bool)
    ensures
        r == (trimmed(s@) == expected@),
{
    let n = trimmed_len(s);
    if n != expected.len() {
        return false;
    }
    let mut i: usize = 0;
    while i < n
        invariant
            i <= n,
            n <= s.len(),
            n == expected.len(),
            trimmed(s@) == s@.subrange(0, n as int),
            forall|j: int| 0 <= j < i ==> s@[j] == expected@[j],
        decreases n - i,
    {
        if s[i] != expected[i] {
            proof {
                assert(trimmed(s@)[i as int] == s@[i as int]);
            }
            return false;
        }
        i = i + 1;
    }
    proof {
        assert(trimmed(s@) =~= expected@);
    }
    true
}

/// A fresh copy of a byte string.
pub fn copy_bytes(src: &Vec<u8>) -> (r: Vec<u8>)
    ensures
        r@ == src@,
{
    let mut r: Vec<u8> = Vec::new();
    let mut i: usize = 0;
    while i < src.len()
        invariant
            i <= src.len(),
            r@ == src@.subrange(0, i as int),
        decreases src.len() - i,
    {
        r.push(src[i]);
        proof {
            assert(r@ =~= src@.subrange(0, i + 1));
        }
        i = i + 1;
    }
    proof {
        assert(src@.subrange(0, src.len() as int) =~= src@);
    }
    r
}

} // verus!
