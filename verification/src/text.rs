//! Verified helpers for character-level text handling: equality of string
//! slices and splitting on a separator character. Everything here is stated
//! over the `Seq<char>` views of the strings involved.

use vstd::prelude::*;

verus! {

/// Index of the first occurrence of `sep` in `s`, or `s.len()` when `sep`
/// does not occur.
pub open spec fn first_index(s: Seq<char>, sep: char) -> int
    decreases s.len(),
{
    if s.len() == 0 {
        0
    } else if s[0] == sep {
        0
    } else {
        1 + first_index(s.skip(1), sep)
    }
}

/// `first_index` is the unique position `j` such that no character before `j`
/// is the separator and `j` is either the end of the string or a separator.
pub proof fn lemma_first_index_characterization(s: Seq<char>, sep: char, j: int)
    requires
        0 <= j <= s.len(),
        forall|k: int| 0 <= k < j ==> s[k] != sep,
        j < s.len() ==> s[j] == sep,
    ensures
        first_index(s, sep) == j,
    decreases s.len(),
{
    if s.len() == 0 {
    } else if s[0] == sep {
        assert(j == 0);
    } else {
        assert(j >= 1);
        let t = s.skip(1);
        assert(forall|k: int| 0 <= k < j - 1 ==> t[k] == s[k + 1] && t[k] != sep);
        assert(j - 1 < t.len() ==> t[j - 1] == s[j]);
        lemma_first_index_characterization(t, sep, j - 1);
    }
}

/// `s` split at every occurrence of `sep`; a string with no separator yields
/// one segment, and every separator ends a segment, so the result has one
/// segment more than there are separators.
pub open spec fn split_spec(s: Seq<char>, sep: char) -> Seq<Seq<char>>
    decreases s.len(),
    via split_spec_decreases
{
    let i = first_index(s, sep);
    if i == s.len() {
        seq![s]
    } else {
        seq![s.take(i)] + split_spec(s.skip(i + 1), sep)
    }
}

#[via_fn]
proof fn split_spec_decreases(s: Seq<char>, sep: char) {
    lemma_first_index_bounds(s, sep);
}

/// The bounds of `first_index`, needed to unfold `split_spec`.
pub proof fn lemma_first_index_bounds(s: Seq<char>, sep: char)
    ensures
        0 <= first_index(s, sep) <= s.len(),
        first_index(s, sep) < s.len() ==> s[first_index(s, sep)] == sep,
    decreases s.len(),
{
    if s.len() == 0 {
    } else if s[0] == sep {
    } else {
        lemma_first_index_bounds(s.skip(1), sep);
    }
}

/// A split always yields at least one segment.
pub proof fn lemma_split_nonempty(s: Seq<char>, sep: char)
    ensures
        split_spec(s, sep).len() >= 1,
{
    lemma_first_index_bounds(s, sep);
}

/// Whether `needle` occurs in `hay` as a contiguous run of characters.
pub open spec fn contains_seq(hay: Seq<char>, needle: Seq<char>) -> bool {
    exists|i: int|
        0 <= i && i + needle.len() <= hay.len() && #[trigger] hay.subrange(i, i + needle.len())
            == needle
}

/// The views of a sequence of owned strings.
pub open spec fn views_of(v: Seq<String>) -> Seq<Seq<char>> {
    v.map_values(|t: String| t@)
}

/// True exactly when the two string slices hold the same characters.
pub fn str_eq(a: &str, b: &str) -> (r: bool)
    ensures
        r == (a@ == b@),
{
    let alen = a.unicode_len();
    let blen = b.unicode_len();
    if alen != blen {
        return false;
    }
    let mut i: usize = 0;
    while i < alen
        invariant
            i <= alen,
            alen == a@.len(),
            blen == b@.len(),
            alen == blen,
            forall|k: int| 0 <= k < i ==> a@[k] == b@[k],
        decreases alen - i,
    {
        if a.get_char(i) != b.get_char(i) {
            return false;
        }
        i += 1;
    }
    proof {
        assert(a@ =~= b@);
    }
    true
}

/// Splits `s` at every occurrence of `sep`, as `split_spec` describes.
pub fn split_on(s: &str, sep: char) -> (r: Vec<String>)
    ensures
        views_of(r@) == split_spec(s@, sep),
    decreases s@.len(),
{
    let n = s.unicode_len();
    let mut j: usize = 0;
    while j < n
        invariant_except_break
            j <= n,
            n == s@.len(),
            forall|k: int| 0 <= k < j ==> s@[k] != sep,
        ensures
            j <= n,
            n == s@.len(),
            forall|k: int| 0 <= k < j ==> s@[k] != sep,
            j < n ==> s@[j as int] == sep,
        decreases n - j,
    {
        if s.get_char(j) == sep {
            break;
        }
        j += 1;
    }
    proof {
        lemma_first_index_characterization(s@, sep, j as int);
    }
    if j == n {
        let whole = s.to_owned();
        let mut r: Vec<String> = Vec::new();
        r.push(whole);
        proof {
            assert(s@.take(j as int) =~= s@);
            assert(views_of(r@) =~= split_spec(s@, sep));
        }
        r
    } else {
        let head = s.substring_char(0, j).to_owned();
        let tail = s.substring_char(j + 1, n);
        let mut rest = split_on(tail, sep);
        let mut r: Vec<String> = Vec::new();
        r.push(head);
        r.append(&mut rest);
        proof {
            assert(tail@ =~= s@.skip(j + 1));
            assert(head@ =~= s@.take(j as int));
            assert(views_of(r@) =~= split_spec(s@, sep));
        }
        r
    }
}

/// The position of the first occurrence of `sep` in `s`, or the length of
/// `s` when `sep` does not occur: the executable form of `first_index`.
pub fn find_char(s: &str, sep: char) -> (r: usize)
    ensures
        r as int == first_index(s@, sep),
        r <= s@.len(),
        r < s@.len() ==> s@[r as int] == sep,
{
    let n = s.unicode_len();
    let mut j: usize = 0;
    while j < n
        invariant_except_break
            j <= n,
            n == s@.len(),
            forall|k: int| 0 <= k < j ==> s@[k] != sep,
        ensures
            j <= n,
            n == s@.len(),
            forall|k: int| 0 <= k < j ==> s@[k] != sep,
            j < n ==> s@[j as int] == sep,
        decreases n - j,
    {
        if s.get_char(j) == sep {
            break;
        }
        j += 1;
    }
    proof {
        lemma_first_index_characterization(s@, sep, j as int);
    }
    j
}

/// True exactly when `needle` occurs in `hay`, as `contains_seq` describes.
pub fn contains_str(hay: &str, needle: &str) -> (r: bool)
    ensures
        r == contains_seq(hay@, needle@),
{
    let h = hay.unicode_len();
    let n = needle.unicode_len();
    if n > h {
        return false;
    }
    let mut i: usize = 0;
    while i <= h - n
        invariant
            n <= h,
            h == hay@.len(),
            n == needle@.len(),
            i <= h - n + 1,
            forall|k: int| 0 <= k < i ==> #[trigger] hay@.subrange(k, k + n as int) != needle@,
        decreases h - i,
    {
        let mut j: usize = 0;
        while j < n
            invariant_except_break
                j <= n,
                i + n <= h,
                h == hay@.len(),
                n == needle@.len(),
                forall|k: int| 0 <= k < j ==> hay@[i + k] == needle@[k],
            ensures
                j <= n,
                i + n <= h,
                h == hay@.len(),
                n == needle@.len(),
                forall|k: int| 0 <= k < j ==> hay@[i + k] == needle@[k],
                j < n ==> hay@[i + j] != needle@[j as int],
            decreases n - j,
        {
            if hay.get_char(i + j) != needle.get_char(j) {
                break;
            }
            j += 1;
        }
        if j == n {
            proof {
                assert(hay@.subrange(i as int, i as int + n as int) =~= needle@);
            }
            return true;
        }
        proof {
            assert(hay@.subrange(i as int, i as int + n as int)[j as int] == hay@[i + j]);
        }
        i += 1;
    }
    proof {
        assert forall|k: int| 0 <= k && k + needle@.len() <= hay@.len() implies #[trigger] hay@
            .subrange(k, k + needle@.len()) != needle@ by {
            assert(k < i);
        }
    }
    false
}

} // verus!
