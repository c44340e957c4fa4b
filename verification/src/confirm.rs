//! Parsing the overwrite-confirmation answer. The accepted affirmatives
//! are exactly "y" and "yes", case-insensitively, with surrounding
//! whitespace ignored; every other answer (including an empty one)
//! declines.

use vstd::prelude::*;
use vstd::string::*;

verus! {

/// An ASCII whitespace character, as trimmed from an answer line.
pub open spec fn spec_is_ws(c: char) -> bool {
    c == ' ' || c == '\t' || c == '\n' || c == '\r'
}

/// `s` with leading and trailing whitespace removed.
pub open spec fn spec_trim(s: Seq<char>) -> Seq<char>
    decreases s.len(),
{
    if s.len() > 0 && spec_is_ws(s[0]) {
        spec_trim(s.skip(1))
    } else if s.len() > 0 && spec_is_ws(s.last()) {
        spec_trim(s.take(s.len() - 1))
    } else {
        s
    }
}

/// The trimmed word is an affirmative: "y" or "yes", in either case.
pub open spec fn spec_affirm_word(t: Seq<char>) -> bool {
    (t.len() == 1 && (t[0] == 'y' || t[0] == 'Y')) || (t.len() == 3 && (t[0] == 'y' || t[0] == 'Y')
        && (t[1] == 'e' || t[1] == 'E') && (t[2] == 's' || t[2] == 'S'))
}

/// The answer accepts the overwrite: after trimming it reads "y" or
/// "yes", case-insensitively.
pub open spec fn spec_affirmative(s: Seq<char>) -> bool {
    spec_affirm_word(spec_trim(s))
}

/// Trimming removes exactly the whitespace prefix and suffix: if
/// everything before `a` and everything from `b` on is whitespace, and
/// the characters at the two ends of `[a, b)` are not, the trim of `s`
/// is `s.subrange(a, b)`.
pub proof fn lemma_trim(s: Seq<char>, a: int, b: int)
    requires
        0 <= a <= b <= s.len(),
        forall|j: int| 0 <= j < a ==> spec_is_ws(s[j]),
        forall|j: int| b <= j < s.len() ==> spec_is_ws(s[j]),
        a < b ==> !spec_is_ws(s[a]) && !spec_is_ws(s[b - 1]),
    ensures
        spec_trim(s) == s.subrange(a, b),
    decreases s.len(),
{
    if s.len() == 0 {
        assert(s.subrange(a, b) =~= s);
    } else if a > 0 {
        let t = s.skip(1);
        assert(forall|j: int| 0 <= j < t.len() ==> t[j] == s[j + 1]);
        lemma_trim(t, a - 1, b - 1);
        assert(t.subrange(a - 1, b - 1) =~= s.subrange(a, b));
    } else if b == 0 {
        // the whole string is whitespace
        let t = s.skip(1);
        assert(forall|j: int| 0 <= j < t.len() ==> t[j] == s[j + 1]);
        lemma_trim(t, 0, 0);
        assert(t.subrange(0, 0) =~= s.subrange(0, 0));
    } else if b < s.len() {
        assert(spec_is_ws(s.last()));
        let t = s.take(s.len() - 1);
        assert(forall|j: int| 0 <= j < t.len() ==> t[j] == s[j]);
        lemma_trim(t, a, b);
        assert(t.subrange(a, b) =~= s.subrange(a, b));
    } else {
        assert(!spec_is_ws(s[0]) && !spec_is_ws(s.last()));
        assert(s.subrange(0, s.len() as int) =~= s);
    }
}

/// Is `c` an ASCII whitespace character?
fn is_ws(c: char) -> (r: bool)
    ensures
        r == spec_is_ws(c),
{
    c == ' ' || c == '\t' || c == '\n' || c == '\r'
}

/// Does the answer accept the overwrite? True exactly for "y" and
/// "yes", case-insensitively, with surrounding whitespace ignored.
pub fn is_affirmative(s: &str) -> (r: bool)
    ensures
        r == spec_affirmative(s@),
{
    let n = s.unicode_len();
    let mut a: usize = 0;
    while a < n && is_ws(s.get_char(a))
        invariant
            a <= n,
            n == s@.len(),
            forall|j: int| 0 <= j < a ==> spec_is_ws(s@[j]),
        decreases n - a,
    {
        a += 1;
    }
    let mut b: usize = n;
    while b > a && is_ws(s.get_char(b - 1))
        invariant
            a <= b <= n,
            n == s@.len(),
            a == n || !spec_is_ws(s@[a as int]),
            forall|j: int| 0 <= j < a ==> spec_is_ws(s@[j]),
            forall|j: int| b <= j < n ==> spec_is_ws(s@[j]),
        decreases b,
    {
        b -= 1;
    }
    proof {
        lemma_trim(s@, a as int, b as int);
    }
    let ghost t = spec_trim(s@);
    if b - a == 1 {
        let c0 = s.get_char(a);
        proof {
            assert(t[0] == s@[a as int]);
        }
        c0 == 'y' || c0 == 'Y'
    } else if b - a == 3 {
        let c0 = s.get_char(a);
        let c1 = s.get_char(a + 1);
        let c2 = s.get_char(a + 2);
        proof {
            assert(t[0] == s@[a as int]);
            assert(t[1] == s@[a + 1 as int]);
            assert(t[2] == s@[a + 2 as int]);
        }
        (c0 == 'y' || c0 == 'Y') && (c1 == 'e' || c1 == 'E') && (c2 == 's' || c2 == 'S')
    } else {
        false
    }
}

} // verus!
