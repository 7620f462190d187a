//! String splitting and trimming, the groundwork of the list-output parser.

use vstd::prelude::*;

verus! {

/// Split `s` at every occurrence of the delimiter `d`.
///
/// The delimiter is not part of any segment, and `n` delimiters give
/// `n + 1` segments, so the result is never empty; in particular an empty
/// input gives one empty segment.
pub open spec fn split_on(s: Seq<char>, d: char) -> Seq<Seq<char>>
    decreases s.len(),
{
    if s.len() == 0 {
        seq![Seq::<char>::empty()]
    } else if s.last() == d {
        split_on(s.drop_last(), d).push(Seq::<char>::empty())
    } else {
        let prev = split_on(s.drop_last(), d);
        prev.update(prev.len() - 1, prev.last().push(s.last()))
    }
}

/// A split always yields at least one segment.
pub proof fn lemma_split_on_nonempty(s: Seq<char>, d: char)
    ensures
        split_on(s, d).len() >= 1,
    decreases s.len(),
{
    if s.len() > 0 {
        lemma_split_on_nonempty(s.drop_last(), d);
    }
}

/// `s` with every leading space removed.
pub open spec fn trim_leading(s: Seq<char>) -> Seq<char>
    decreases s.len(),
{
    if s.len() > 0 && s[0] == ' ' {
        trim_leading(s.drop_first())
    } else {
        s
    }
}

/// `s` with every trailing space removed.
pub open spec fn trim_trailing(s: Seq<char>) -> Seq<char>
    decreases s.len(),
{
    if s.len() > 0 && s.last() == ' ' {
        trim_trailing(s.drop_last())
    } else {
        s
    }
}

/// `s` with leading and trailing spaces removed.
pub open spec fn trimmed(s: Seq<char>) -> Seq<char> {
    trim_trailing(trim_leading(s))
}

/// Character-wise string equality.
pub fn str_eq(a: &str, b: &str) -> (r: bool)
    ensures
        r == (a@ == b@),
{
    let alen = a.unicode_len();
    let blen = b.unicode_len();
    if alen != blen {
        return false;
    }
    let mut i: usize = 0;
    while i < alen
        invariant
            i <= alen,
            alen == a@.len(),
            alen == b@.len(),
            forall|j: int| 0 <= j < i ==> a@[j] == b@[j],
        decreases alen - i,
    {
        if a.get_char(i) != b.get_char(i) {
            return false;
        }
        i = i + 1;
    }
    proof {
        assert(a@ =~= b@);
    }
    true
}

/// Split `s` at every occurrence of the delimiter `d`, keeping empty
/// segments.
pub fn split_str<'a>(s: &'a str, d: char) -> (r: Vec<&'a str>)
    ensures
        r.deep_view() == split_on(s@, d),
{
    let len = s.unicode_len();
    let mut r: Vec<&'a str> = Vec::new();
    let mut seg_start: usize = 0;
    let mut i: usize = 0;
    proof {
        assert(s@.take(0) =~= Seq::<char>::empty());
        assert(s@.subrange(0, 0) =~= Seq::<char>::empty());
        assert(r.deep_view().push(s@.subrange(0, 0)) =~~= split_on(s@.take(0), d));
    }
    while i < len
        invariant
            seg_start <= i <= len,
            len == s@.len(),
            split_on(s@.take(i as int), d) == r.deep_view().push(
                s@.subrange(seg_start as int, i as int),
            ),
        decreases len - i,
    {
        let c = s.get_char(i);
        proof {
            assert(s@.take(i + 1).drop_last() =~= s@.take(i as int));
            assert(s@.take(i + 1).last() == s@[i as int]);
        }
        if c == d {
            let ghost prev = r.deep_view();
            let ghost seg = s@.subrange(seg_start as int, i as int);
            let piece = s.substring_char(seg_start, i);
            r.push(piece);
            proof {
                assert(r.deep_view() =~~= prev.push(seg));
                assert(split_on(s@.take(i + 1), d) =~~= r.deep_view().push(
                    s@.subrange(i + 1, i + 1),
                ));
            }
            seg_start = i + 1;
        } else {
            proof {
                let prev = r.deep_view().push(s@.subrange(seg_start as int, i as int));
                assert(prev.len() >= 1);
                assert(prev.last() == s@.subrange(seg_start as int, i as int));
                assert(s@.subrange(seg_start as int, i as int).push(s@[i as int]) =~= s@.subrange(
                    seg_start as int,
                    i + 1,
                ));
                assert(split_on(s@.take(i + 1), d) =~~= r.deep_view().push(
                    s@.subrange(seg_start as int, i + 1),
                ));
            }
        }
        i = i + 1;
    }
    let piece = s.substring_char(seg_start, len);
    r.push(piece);
    proof {
        assert(s@.take(len as int) =~= s@);
        assert(r.deep_view() =~~= split_on(s@, d));
    }
    r
}

/// Remove leading and trailing spaces.
pub fn trim_str<'a>(s: &'a str) -> (r: &'a str)
    ensures
        r@ == trimmed(s@),
{
    let len = s.unicode_len();
    let mut a: usize = 0;
    proof {
        assert(s@.subrange(0, len as int) =~= s@);
    }
    while a < len && s.get_char(a) == ' '
        invariant
            a <= len,
            len == s@.len(),
            trim_leading(s@) == trim_leading(s@.subrange(a as int, len as int)),
        decreases len - a,
    {
        proof {
            assert(s@.subrange(a as int, len as int).drop_first() =~= s@.subrange(
                a + 1,
                len as int,
            ));
        }
        a = a + 1;
    }
    proof {
        assert(trim_leading(s@) == s@.subrange(a as int, len as int));
    }
    let mut b: usize = len;
    while b > a && s.get_char(b - 1) == ' '
        invariant
            a <= b <= len,
            len == s@.len(),
            trim_trailing(s@.subrange(a as int, len as int)) == trim_trailing(
                s@.subrange(a as int, b as int),
            ),
        decreases b,
    {
        proof {
            assert(s@.subrange(a as int, b as int).drop_last() =~= s@.subrange(
                a as int,
                b - 1,
            ));
        }
        b = b - 1;
    }
    proof {
        assert(trimmed(s@) == s@.subrange(a as int, b as int));
    }
    s.substring_char(a, b)
}

} // verus!
