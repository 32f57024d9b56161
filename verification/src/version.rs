//! Product version and the discovery protocol id derived from it.
//!
//! The protocol id is a compatibility fingerprint: peers whose protocol ids
//! differ are assumed incompatible. It is the semantic version's major
//! number alone, or the major number together with the prerelease tag when
//! the version has one, so that stable releases of one major line stay
//! compatible while prerelease builds only match themselves.

use vstd::prelude::*;

verus! {

use crate::NANVR_VERSION;
use vstd::string::StringSliceAdditionalSpecFns;

/// Index of the first occurrence of `c` in `s`, or `s.len()` when absent.
pub open spec fn first_index_of(s: Seq<char>, c: char) -> int
    decreases s.len(),
{
    if s.len() == 0 {
        0
    } else if s[0] == c {
        0
    } else {
        1 + first_index_of(s.drop_first(), c)
    }
}

pub proof fn lemma_first_index_of_bounds(s: Seq<char>, c: char)
    ensures
        0 <= first_index_of(s, c) <= s.len(),
        first_index_of(s, c) < s.len() ==> s[first_index_of(s, c)] == c,
        forall|j: int| 0 <= j < first_index_of(s, c) ==> s[j] != c,
    decreases s.len(),
{
    if s.len() > 0 && s[0] != c {
        lemma_first_index_of_bounds(s.drop_first(), c);
        assert forall|j: int| 0 <= j < first_index_of(s, c) implies s[j] != c by {
            if j > 0 {
                assert(s.drop_first()[j - 1] == s[j]);
            }
        }
    }
}

/// A prefix free of `c` that either ends the string or is followed by `c`
/// pins down `first_index_of`.
pub proof fn lemma_first_index_of_is(s: Seq<char>, c: char, i: int)
    requires
        0 <= i <= s.len(),
        forall|j: int| 0 <= j < i ==> s[j] != c,
        i < s.len() ==> s[i] == c,
    ensures
        first_index_of(s, c) == i,
    decreases s.len(),
{
    if s.len() > 0 && s[0] != c {
        assert(i > 0);
        lemma_first_index_of_is(s.drop_first(), c, i - 1);
    }
}

/// The protocol id of a version string: everything before the first `.`,
/// followed by the suffix from the first `-` on when one exists.
pub open spec fn protocol_id_view(v: Seq<char>) -> Seq<char> {
    let dot = first_index_of(v, '.');
    let dash = first_index_of(v, '-');
    if dash < v.len() {
        v.take(dot) + v.subrange(dash, v.len() as int)
    } else {
        v.take(dot)
    }
}

/// Position of the first occurrence of `c` in `s`, or `s@.len()` when absent.
fn find_char(s: &str, c: char) -> (i: usize)
    ensures
        i == first_index_of(s@, c),
{
    let n = s.unicode_len();
    let mut i: usize = 0;
    while i < n
        invariant
            0 <= i <= n,
            n == s@.len(),
            forall|j: int| 0 <= j < i ==> s@[j] != c,
        decreases n - i,
    {
        if s.get_char(i) == c {
            proof {
                lemma_first_index_of_is(s@, c, i as int);
            }
            return i;
        }
        i = i + 1;
    }
    proof {
        lemma_first_index_of_is(s@, c, n as int);
    }
    n
}

/// Derives the protocol id from an arbitrary version string.
pub fn protocol_id_of(version: &str) -> (r: String)
    ensures
        r@ == protocol_id_view(version@),
{
    let n = version.unicode_len();
    let dot = find_char(version, '.');
    let dash = find_char(version, '-');
    proof {
        lemma_first_index_of_bounds(version@, '.');
        lemma_first_index_of_bounds(version@, '-');
    }
    let major = version.substring_char(0, dot);
    if dash < n {
        let pre = version.substring_char(dash, n);
        let r = String::from_str(major).concat(pre);
        proof {
            assert(version@.subrange(0, dot as int) == version@.take(dot as int));
        }
        r
    } else {
        let r = String::from_str(major);
        proof {
            assert(version@.subrange(0, dot as int) == version@.take(dot as int));
        }
        r
    }
}

/// The protocol id of this build's own version.
pub fn protocol_id() -> (r: String)
    ensures
        r@ == protocol_id_view(NANVR_VERSION@),
{
    protocol_id_of(NANVR_VERSION)
}

/// 64-bit FNV-1a offset basis.
pub open spec fn hash_basis() -> u64 {
    0xcbf29ce484222325
}

/// 64-bit FNV-1a prime.
pub open spec fn hash_prime() -> u64 {
    0x100000001b3
}

/// One FNV-1a round: fold a byte into the running hash.
pub open spec fn hash_step(h: u64, b: u8) -> u64 {
    vstd::wrapping::u64_specs::wrapping_mul(h ^ (b as u64), hash_prime())
}

/// FNV-1a over a byte sequence.
pub open spec fn hash_view(bytes: Seq<u8>) -> u64
    decreases bytes.len(),
{
    if bytes.len() == 0 {
        hash_basis()
    } else {
        hash_step(hash_view(bytes.drop_last()), bytes.last())
    }
}

/// Hash of a string's UTF-8 bytes: FNV-1a, 64-bit. Consistent across
/// architectures and processes, so it can serve as a stable identifier.
pub fn hash_string(string: &str) -> (h: u64)
    ensures
        h == hash_view(string.spec_bytes()),
{
    let bytes = string.as_bytes();
    let mut h: u64 = 0xcbf29ce484222325;
    let mut i: usize = 0;
    while i < bytes.len()
        invariant
            0 <= i <= bytes.len(),
            bytes@ == string.spec_bytes(),
            h == hash_view(bytes@.take(i as int)),
        decreases bytes.len() - i,
    {
        h = (h ^ (bytes[i] as u64)).wrapping_mul(0x100000001b3);
        proof {
            assert(bytes@.take(i + 1).drop_last() == bytes@.take(i as int));
            assert(bytes@.take(i + 1).last() == bytes@[i as int]);
        }
        i = i + 1;
    }
    proof {
        assert(bytes@.take(bytes@.len() as int) == bytes@);
    }
    h
}

} // verus!
