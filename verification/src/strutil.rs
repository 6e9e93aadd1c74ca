//! Small verified string helpers used across the gateway.

use vstd::prelude::*;

verus! {

/// `p` is a prefix of `s`.
pub open spec fn starts_with(s: Seq<char>, p: Seq<char>) -> bool {
    p.len() <= s.len() && s.subrange(0, p.len() as int) == p
}

/// Characters of a prefix agree with the string.
pub proof fn lemma_prefix_index(s: Seq<char>, p: Seq<char>, i: int)
    requires
        starts_with(s, p),
        0 <= i < p.len(),
    ensures
        s[i] == p[i],
{
    assert(s.subrange(0, p.len() as int)[i] == s[i]);
}

/// Character-for-character string equality.
pub fn str_eq(a: &str, b: &str) -> (r: bool)
    ensures
        r == (a@ == b@),
{
    let an = a.unicode_len();
    let bn = b.unicode_len();
    if an != bn {
        return false;
    }
    let mut i: usize = 0;
    while i < an
        invariant
            an == a@.len(),
            an == b@.len(),
            i <= an,
            forall|k: int| 0 <= k < i ==> a@[k] == b@[k],
        decreases an - i,
    {
        if a.get_char(i) != b.get_char(i) {
            return false;
        }
        i = i + 1;
    }
    proof {
        assert(a@ =~= b@);
    }
    true
}

/// Prefix test over characters.
pub fn str_starts_with(s: &str, p: &str) -> (r: bool)
    ensures
        r == starts_with(s@, p@),
{
    let sn = s.unicode_len();
    let pn = p.unicode_len();
    if pn > sn {
        return false;
    }
    let mut i: usize = 0;
    while i < pn
        invariant
            sn == s@.len(),
            pn == p@.len(),
            pn <= sn,
            i <= pn,
            forall|k: int| 0 <= k < i ==> s@[k] == p@[k],
        decreases pn - i,
    {
        if s.get_char(i) != p.get_char(i) {
            proof {
                if starts_with(s@, p@) {
                    lemma_prefix_index(s@, p@, i as int);
                }
            }
            return false;
        }
        i = i + 1;
    }
    proof {
        assert(s@.subrange(0, p@.len() as int) =~= p@);
    }
    true
}

/// The rest of `s` after the prefix `p`.
pub fn strip_prefix_owned(s: &str, p: &str) -> (r: String)
    requires
        starts_with(s@, p@),
    ensures
        r@ == s@.skip(p@.len() as int),
{
    let pn = p.unicode_len();
    let sn = s.unicode_len();
    let rest = s.substring_char(pn, sn);
    rest.to_owned()
}

/// `s` with every trailing occurrence of `c` removed.
pub open spec fn trim_trailing(s: Seq<char>, c: char) -> Seq<char>
    decreases s.len(),
{
    if s.len() > 0 && s.last() == c {
        trim_trailing(s.drop_last(), c)
    } else {
        s
    }
}

/// `s` with every leading occurrence of `c` removed.
pub open spec fn trim_leading(s: Seq<char>, c: char) -> Seq<char>
    decreases s.len(),
{
    if s.len() > 0 && s.first() == c {
        trim_leading(s.drop_first(), c)
    } else {
        s
    }
}

/// Remove trailing occurrences of one character.
pub fn trim_end_char(s: &str, c: char) -> (r: String)
    ensures
        r@ == trim_trailing(s@, c),
{
    let n = s.unicode_len();
    let mut end: usize = n;
    proof {
        assert(s@.take(n as int) =~= s@);
    }
    while end > 0 && s.get_char(end - 1) == c
        invariant
            n == s@.len(),
            end <= n,
            trim_trailing(s@, c) == trim_trailing(s@.take(end as int), c),
        decreases end,
    {
        proof {
            let pre = s@.take(end as int);
            assert(pre.last() == s@[end - 1]);
            assert(pre.drop_last() =~= s@.take(end as int - 1));
        }
        end = end - 1;
    }
    proof {
        let pre = s@.take(end as int);
        if end > 0 {
            assert(pre.last() == s@[end - 1]);
        }
        assert(trim_trailing(pre, c) == pre);
    }
    let rest = s.substring_char(0, end);
    proof {
        assert(rest@ =~= s@.take(end as int));
    }
    rest.to_owned()
}

/// Remove leading occurrences of one character.
pub fn trim_start_char(s: &str, c: char) -> (r: String)
    ensures
        r@ == trim_leading(s@, c),
{
    let n = s.unicode_len();
    let mut start: usize = 0;
    proof {
        assert(s@.skip(0int) =~= s@);
    }
    while start < n && s.get_char(start) == c
        invariant
            n == s@.len(),
            start <= n,
            trim_leading(s@, c) == trim_leading(s@.skip(start as int), c),
        decreases n - start,
    {
        proof {
            let suf = s@.skip(start as int);
            assert(suf.first() == s@[start as int]);
            assert(suf.drop_first() =~= s@.skip(start as int + 1));
        }
        start = start + 1;
    }
    proof {
        let suf = s@.skip(start as int);
        if start < n {
            assert(suf.first() == s@[start as int]);
        }
        assert(trim_leading(suf, c) == suf);
    }
    let rest = s.substring_char(start, n);
    proof {
        assert(rest@ =~= s@.skip(start as int));
    }
    rest.to_owned()
}

} // verus!
