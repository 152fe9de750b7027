//! Character-level string helpers used by the topology resolver and the
//! hardware-information lookup.

use vstd::prelude::*;

verus! {

/// Whether two strings hold the same characters.
pub fn str_eq(a: &str, b: &str) -> (r: bool)
    ensures
        r == (a@ == b@),
{
    let n = a.unicode_len();
    if n != b.unicode_len() {
        return false;
    }
    let mut i: usize = 0;
    while i < n
        invariant
            n == a@.len(),
            n == b@.len(),
            i <= n,
            forall|j: int| 0 <= j < i ==> a@[j] == b@[j],
        decreases n - i,
    {
        if a.get_char(i) != b.get_char(i) {
            return false;
        }
        i = i + 1;
    }
    proof {
        assert(a@ =~= b@);
    }
    true
}

/// Whether `needle` occurs in `hay` starting at character `off`.
pub open spec fn spec_occurs_at(hay: Seq<char>, needle: Seq<char>, off: int) -> bool {
    &&& 0 <= off
    &&& off + needle.len() <= hay.len()
    &&& hay.subrange(off, off + needle.len()) == needle
}

/// Whether `needle` occurs somewhere in `hay`.
pub open spec fn spec_contains(hay: Seq<char>, needle: Seq<char>) -> bool {
    exists|off: int| spec_occurs_at(hay, needle, off)
}

fn occurs_at(hay: &str, needle: &str, off: usize) -> (r: bool)
    requires
        off + needle@.len() <= hay@.len(),
    ensures
        r == spec_occurs_at(hay@, needle@, off as int),
{
    let n = needle.unicode_len();
    let h = hay.unicode_len();
    let mut i: usize = 0;
    while i < n
        invariant
            n == needle@.len(),
            h == hay@.len(),
            off + n <= h,
            i <= n,
            forall|j: int| 0 <= j < i ==> hay@[off + j] == needle@[j],
        decreases n - i,
    {
        if hay.get_char(off + i) != needle.get_char(i) {
            proof {
                assert(hay@.subrange(off as int, off + needle@.len())[i as int] == hay@[off
                    + i]);
            }
            return false;
        }
        i = i + 1;
    }
    proof {
        assert(hay@.subrange(off as int, off + needle@.len()) =~= needle@);
    }
    true
}

/// Whether `needle` occurs in `hay` as a contiguous run of characters.
pub fn str_contains(hay: &str, needle: &str) -> (r: bool)
    ensures
        r == spec_contains(hay@, needle@),
{
    let h = hay.unicode_len();
    let n = needle.unicode_len();
    if n == 0 {
        proof {
            assert(spec_occurs_at(hay@, needle@, 0)) by {
                assert(hay@.subrange(0, 0) =~= needle@);
            }
        }
        return true;
    }
    if n > h {
        proof {
            assert(forall|off: int| !spec_occurs_at(hay@, needle@, off));
        }
        return false;
    }
    let last = h - n;
    let mut off: usize = 0;
    while off <= last
        invariant
            h == hay@.len(),
            n == needle@.len(),
            0 < n <= h,
            last == h - n,
            off <= last + 1,
            forall|o: int| 0 <= o < off ==> !spec_occurs_at(hay@, needle@, o),
        decreases last + 1 - off,
    {
        if occurs_at(hay, needle, off) {
            return true;
        }
        off = off + 1;
    }
    proof {
        assert(forall|o: int| spec_occurs_at(hay@, needle@, o) ==> 0 <= o <= h - n);
    }
    false
}

} // verus!
