//! Verified string primitives the core's matching and path logic is built
//! on: substring containment, equality, prefix/suffix tests, and splitting
//! on a separator character. All are specified over the character view of
//! the string.

use vstd::prelude::*;
use vstd::string::*;

verus! {

/// The pattern `p` occurs in `s` starting at position `i`.
pub open spec fn spec_match_at(s: Seq<char>, p: Seq<char>, i: int) -> bool {
    0 <= i && i + p.len() <= s.len() && s.subrange(i, i + p.len() as int) == p
}

/// The pattern `p` occurs somewhere in `s`.
pub open spec fn spec_contains(s: Seq<char>, p: Seq<char>) -> bool {
    exists|i: int| spec_match_at(s, p, i)
}

/// `s` ends with `p`.
pub open spec fn spec_ends_with(s: Seq<char>, p: Seq<char>) -> bool {
    p.len() <= s.len() && spec_match_at(s, p, s.len() - p.len())
}

/// Does `p` occur in `s` starting at position `i`?
pub fn match_at(s: &str, p: &str, i: usize) -> (r: bool)
    ensures
        r == spec_match_at(s@, p@, i as int),
{
    let sn = s.unicode_len();
    let pn = p.unicode_len();
    if i > sn || pn > sn - i {
        return false;
    }
    let mut j: usize = 0;
    while j < pn
        invariant
            j <= pn,
            i + pn <= sn,
            sn == s@.len(),
            pn == p@.len(),
            forall|k: int| 0 <= k < j ==> s@[i + k] == p@[k],
        decreases pn - j,
    {
        if s.get_char(i + j) != p.get_char(j) {
            proof {
                assert(s@.subrange(i as int, i + pn as int)[j as int] == s@[i + j]);
            }
            return false;
        }
        j += 1;
    }
    proof {
        assert(s@.subrange(i as int, i + pn as int) =~= p@);
    }
    true
}

/// Does `p` occur anywhere in `s`?
pub fn str_contains(s: &str, p: &str) -> (r: bool)
    ensures
        r == spec_contains(s@, p@),
{
    let sn = s.unicode_len();
    let mut i: usize = 0;
    while i < sn
        invariant
            i <= sn,
            sn == s@.len(),
            forall|k: int| 0 <= k < i ==> !spec_match_at(s@, p@, k),
        decreases sn - i,
    {
        if match_at(s, p, i) {
            return true;
        }
        i += 1;
    }
    if match_at(s, p, sn) {
        return true;
    }
    proof {
        assert forall|k: int| !spec_match_at(s@, p@, k) by {
            if 0 <= k <= sn as int {
                assert(!spec_match_at(s@, p@, k));
            }
        }
    }
    false
}

/// Are the two strings equal, character for character?
pub fn str_eq(a: &str, b: &str) -> (r: bool)
    ensures
        r == (a@ == b@),
{
    let an = a.unicode_len();
    let bn = b.unicode_len();
    if an != bn {
        return false;
    }
    let r = match_at(a, b, 0);
    proof {
        assert(a@.subrange(0, b@.len() as int) =~= a@);
    }
    r
}

/// Does `s` end with `p`?
pub fn ends_with(s: &str, p: &str) -> (r: bool)
    ensures
        r == spec_ends_with(s@, p@),
{
    let sn = s.unicode_len();
    let pn = p.unicode_len();
    if pn > sn {
        return false;
    }
    match_at(s, p, sn - pn)
}

/// Does the character `c` occur in `s`?
pub fn contains_char(s: &str, c: char) -> (r: bool)
    ensures
        r == s@.contains(c),
{
    let sn = s.unicode_len();
    let mut i: usize = 0;
    while i < sn
        invariant
            i <= sn,
            sn == s@.len(),
            forall|k: int| 0 <= k < i ==> s@[k] != c,
        decreases sn - i,
    {
        if s.get_char(i) == c {
            return true;
        }
        i += 1;
    }
    false
}

/// The pieces of `s` between occurrences of `sep`: splitting keeps empty
/// pieces, so the pieces joined by `sep` give `s` back, and the result
/// always holds at least one piece.
pub open spec fn spec_split(s: Seq<char>, sep: char) -> Seq<Seq<char>>
    decreases s.len(),
{
    if s.len() == 0 {
        seq![Seq::<char>::empty()]
    } else if s[0] == sep {
        seq![Seq::<char>::empty()] + spec_split(s.skip(1), sep)
    } else {
        let r = spec_split(s.skip(1), sep);
        seq![seq![s[0]] + r[0]] + r.skip(1)
    }
}

/// Splitting never yields an empty sequence of pieces.
pub proof fn lemma_split_len(s: Seq<char>, sep: char)
    ensures
        spec_split(s, sep).len() >= 1,
    decreases s.len(),
{
    if s.len() != 0 && s[0] != sep {
        lemma_split_len(s.skip(1), sep);
    }
}

/// If the first `k` characters of `s` are free of `sep` and position `k`
/// is the end of the string or a separator, then the first piece of the
/// split is exactly `s.take(k)`.
pub proof fn lemma_split_first(s: Seq<char>, sep: char, k: int)
    requires
        0 <= k <= s.len(),
        forall|j: int| 0 <= j < k ==> s[j] != sep,
        k == s.len() || s[k] == sep,
    ensures
        k == s.len() ==> spec_split(s, sep) == seq![s],
        k < s.len() ==> spec_split(s, sep) == seq![s.take(k)] + spec_split(s.skip(k + 1), sep),
    decreases k,
{
    if k == 0 {
        if s.len() == 0 {
            assert(s =~= Seq::<char>::empty());
            assert(spec_split(s, sep) =~~= seq![s]);
        } else {
            assert(s[0] == sep);
            assert(s.take(0) =~= Seq::<char>::empty());
            assert(spec_split(s, sep) =~~= seq![s.take(0)] + spec_split(s.skip(1), sep));
        }
    } else {
        let t = s.skip(1);
        assert(forall|j: int| 0 <= j < k - 1 ==> t[j] == s[j + 1] && t[j] != sep);
        lemma_split_first(t, sep, k - 1);
        lemma_split_len(t, sep);
        if k == s.len() {
            // spec_split(t) == seq![t]; prepending s[0] to the first piece gives s.
            assert(seq![s[0]] + t =~= s);
            assert(seq![t].skip(1) =~= Seq::<Seq<char>>::empty());
            assert(spec_split(s, sep) =~~= seq![s]);
        } else {
            assert(t[k - 1] == s[k]);
            assert(seq![s[0]] + t.take(k - 1) =~= s.take(k));
            assert(t.skip(k) =~= s.skip(k + 1));
            assert((seq![t.take(k - 1)] + spec_split(t.skip(k), sep)).skip(1) =~= spec_split(
                s.skip(k + 1),
                sep,
            ));
            assert(spec_split(s, sep) =~~= seq![s.take(k)] + spec_split(s.skip(k + 1), sep));
        }
    }
}

/// Split `s` on the character `sep`, keeping empty pieces.
pub fn split_on_char(s: &str, sep: char) -> (r: Vec<String>)
    ensures
        r.deep_view() == spec_split(s@, sep),
        r@.len() >= 1,
{
    let n = s.unicode_len();
    let mut res: Vec<String> = Vec::new();
    let mut pos: usize = 0;
    let mut i: usize = 0;
    proof {
        assert(res.deep_view() =~= Seq::<Seq<char>>::empty());
        assert(s@.skip(0) =~= s@);
        assert(res.deep_view() + spec_split(s@.skip(0), sep) =~= spec_split(s@, sep));
    }
    while i < n
        invariant
            pos <= i <= n,
            n == s@.len(),
            forall|j: int| pos <= j < i ==> s@[j] != sep,
            spec_split(s@, sep) == res.deep_view() + spec_split(s@.skip(pos as int), sep),
        decreases n - i,
    {
        if s.get_char(i) == sep {
            let piece = s.substring_char(pos, i).to_owned();
            let ghost old_dv = res.deep_view();
            res.push(piece);
            proof {
                let tail = s@.skip(pos as int);
                assert(forall|j: int| 0 <= j < i - pos ==> tail[j] == s@[pos + j] && tail[j] != sep);
                assert(tail[i - pos] == s@[i as int]);
                lemma_split_first(tail, sep, i - pos);
                assert(tail.take(i - pos) =~= s@.subrange(pos as int, i as int));
                assert(tail.skip(i - pos + 1) =~= s@.skip(i + 1));
                assert(res.deep_view() =~= old_dv.push(piece@));
                assert(res.deep_view() + spec_split(s@.skip(i + 1), sep) =~= old_dv + (seq![
                    tail.take(i - pos),
                ] + spec_split(tail.skip(i - pos + 1), sep)));
            }
            pos = i + 1;
        }
        i += 1;
    }
    let piece = s.substring_char(pos, n).to_owned();
    let ghost old_dv = res.deep_view();
    res.push(piece);
    proof {
        let tail = s@.skip(pos as int);
        assert(forall|j: int| 0 <= j < n - pos ==> tail[j] == s@[pos + j] && tail[j] != sep);
        lemma_split_first(tail, sep, n - pos);
        assert(tail.take(n - pos) =~= tail);
        assert(tail =~= s@.subrange(pos as int, n as int));
        assert(res.deep_view() =~= old_dv.push(piece@));
        assert(res.deep_view() =~= old_dv + seq![tail]);
    }
    res
}

} // verus!
