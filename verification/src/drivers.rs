//! Driver-registry conflict resolution: which registered driver paths
//! belong to this product family but are not the product's own directory,
//! and must therefore be unregistered before launch.
//!
//! The registry itself is external state; this module only decides, given
//! the registered paths, which of them are stale. The match is a
//! case-insensitive substring test on the path.

use vstd::prelude::*;

verus! {

use crate::NANVR_LOW_NAME;
use crate::text::str_eq;

/// ASCII lowercasing of one character; other characters are unchanged.
pub open spec fn lower_char(c: char) -> char {
    if 'A' <= c && c <= 'Z' {
        (((c as u8) + 32) as char)
    } else {
        c
    }
}

/// `needle` occurs at position `k` of `hay`.
pub open spec fn matches_at(hay: Seq<char>, needle: Seq<char>, k: int) -> bool {
    0 <= k && k + needle.len() <= hay.len() && hay.subrange(k, k + needle.len() as int) == needle
}

/// `needle` occurs somewhere in `hay`.
pub open spec fn contains_seq(hay: Seq<char>, needle: Seq<char>) -> bool {
    exists|k: int| matches_at(hay, needle, k)
}

/// A registered path is stale when, lowercased, it names this product
/// family, yet it is not the product's own driver directory.
pub open spec fn is_stale_driver(path: String, own_dir: String) -> bool {
    contains_seq(path@.map_values(|c: char| lower_char(c)), NANVR_LOW_NAME@) && path@ != own_dir@
}

/// The characters of `s`, ASCII-lowercased.
fn to_lower_chars(s: &str) -> (r: Vec<char>)
    ensures
        r@ == s@.map_values(|c: char| lower_char(c)),
{
    let n = s.unicode_len();
    let mut r: Vec<char> = Vec::new();
    let mut i: usize = 0;
    while i < n
        invariant
            0 <= i <= n,
            n == s@.len(),
            r@ == s@.take(i as int).map_values(|c: char| lower_char(c)),
        decreases n - i,
    {
        let c = s.get_char(i);
        let lowered = if c >= 'A' && c <= 'Z' {
            (((c as u8) + 32) as char)
        } else {
            c
        };
        r.push(lowered);
        proof {
            assert(s@.take(i + 1).map_values(|c: char| lower_char(c)) =~= s@.take(
                i as int,
            ).map_values(|c: char| lower_char(c)).push(lower_char(s@[i as int])));
        }
        i = i + 1;
    }
    proof {
        assert(s@.take(n as int) =~= s@);
    }
    r
}

/// The characters of `s`, unchanged.
fn to_chars(s: &str) -> (r: Vec<char>)
    ensures
        r@ == s@,
{
    let n = s.unicode_len();
    let mut r: Vec<char> = Vec::new();
    let mut i: usize = 0;
    while i < n
        invariant
            0 <= i <= n,
            n == s@.len(),
            r@ == s@.take(i as int),
        decreases n - i,
    {
        r.push(s.get_char(i));
        proof {
            assert(s@.take(i + 1) =~= s@.take(i as int).push(s@[i as int]));
        }
        i = i + 1;
    }
    proof {
        assert(s@.take(n as int) =~= s@);
    }
    r
}

/// Decides `contains_seq`.
fn contains_chars(hay: &Vec<char>, needle: &Vec<char>) -> (r: bool)
    ensures
        r == contains_seq(hay@, needle@),
{
    let nh = hay.len();
    let nn = needle.len();
    if nn == 0 {
        proof {
            assert(hay@.subrange(0, 0) =~= needle@);
            assert(matches_at(hay@, needle@, 0));
        }
        return true;
    }
    if nn > nh {
        proof {
            assert(forall|k: int| !matches_at(hay@, needle@, k));
        }
        return false;
    }
    let mut k: usize = 0;
    while k <= nh - nn
        invariant
            0 <= k <= nh - nn + 1,
            1 <= nn <= nh,
            nh == hay@.len(),
            nn == needle@.len(),
            forall|k2: int| 0 <= k2 < k ==> !matches_at(hay@, needle@, k2),
        decreases nh - k,
    {
        let mut j: usize = 0;
        let mut hit = true;
        while j < nn
            invariant
                0 <= j <= nn,
                0 <= k <= nh - nn,
                nh == hay@.len(),
                nn == needle@.len(),
                hit ==> forall|j2: int| 0 <= j2 < j ==> hay@[k + j2] == needle@[j2],
                !hit ==> hay@.subrange(k as int, k + nn) != needle@,
            decreases nn - j,
        {
            if hay[k + j] != needle[j] {
                hit = false;
                proof {
                    assert(hay@.subrange(k as int, k + nn) != needle@) by {
                        assert(hay@.subrange(k as int, k + nn)[j as int] != needle@[j as int]);
                    }
                }
                j = nn;
            } else {
                j = j + 1;
            }
        }
        if hit {
            proof {
                assert(hay@.subrange(k as int, k + nn) =~= needle@);
                assert(matches_at(hay@, needle@, k as int));
            }
            return true;
        }
        proof {
            assert(!matches_at(hay@, needle@, k as int));
        }
        k = k + 1;
    }
    proof {
        assert forall|k2: int| !matches_at(hay@, needle@, k2) by {
            if 0 <= k2 <= nh - nn {
                assert(!matches_at(hay@, needle@, k2));
            }
        }
    }
    false
}

/// Decides `is_stale_driver`.
pub fn driver_is_stale(path: &String, own_dir: &String) -> (r: bool)
    ensures
        r == is_stale_driver(*path, *own_dir),
{
    let lowered = to_lower_chars(path.as_str());
    let needle = to_chars(NANVR_LOW_NAME);
    contains_chars(&lowered, &needle) && !str_eq(path.as_str(), own_dir.as_str())
}

/// Every registered path that names this product family but is not the
/// product's own directory, in registry order. These are the entries whose
/// registration would conflict with the product's own and are unregistered
/// before it is registered.
pub fn select_stale_drivers(registered: &Vec<String>, own_dir: &String) -> (r: Vec<String>)
    ensures
        r@ == registered@.filter(|p: String| is_stale_driver(p, *own_dir)),
{
    let n = registered.len();
    let mut r: Vec<String> = Vec::new();
    let mut i: usize = 0;
    proof {
        reveal(Seq::filter);
        assert(registered@.take(0).filter(|p: String| is_stale_driver(p, *own_dir)) =~= Seq::<
            String,
        >::empty());
    }
    while i < n
        invariant
            0 <= i <= n,
            n == registered@.len(),
            r@ == registered@.take(i as int).filter(|p: String| is_stale_driver(p, *own_dir)),
        decreases n - i,
    {
        let ghost prefix = registered@.take(i as int);
        proof {
            assert(registered@.take(i + 1).drop_last() =~= prefix);
            assert(registered@.take(i + 1).last() == registered@[i as int]);
        }
        if driver_is_stale(&registered[i], own_dir) {
            r.push(registered[i].clone());
            proof {
                reveal(Seq::filter);
                assert(registered@.take(i + 1).filter(|p: String| is_stale_driver(p, *own_dir))
                    =~= prefix.filter(|p: String| is_stale_driver(p, *own_dir)).push(
                    registered@[i as int],
                ));
            }
        } else {
            proof {
                reveal(Seq::filter);
                assert(registered@.take(i + 1).filter(|p: String| is_stale_driver(p, *own_dir))
                    =~= prefix.filter(|p: String| is_stale_driver(p, *own_dir)));
            }
        }
        i = i + 1;
    }
    proof {
        assert(registered@.take(n as int) =~= registered@);
    }
    r
}

} // verus!
