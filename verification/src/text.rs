//! Deterministic, locale-independent text matching for signature probes.
//!
//! Vendor fingerprints are matched case-insensitively. The case fold used
//! here maps every character to its Unicode scalar value and replaces the
//! ASCII lower-case letters by their upper-case counterparts; it depends on
//! nothing but the characters themselves, so matching behaves identically on
//! every system.

use vstd::prelude::*;
use vstd::string::StrSliceExecFns;

verus! {

/// The case-folded scalar value of a character: ASCII lower-case letters map
/// to their upper-case form, every other character to its own scalar value.
pub open spec fn upper_code(c: char) -> int {
    if 97 <= c as u32 && c as u32 <= 122 {
        c as u32 - 32
    } else {
        c as u32 as int
    }
}

/// The sequence of case-folded scalar values of a character sequence.
pub open spec fn upper_codes(s: Seq<char>) -> Seq<int> {
    s.map_values(|c: char| upper_code(c))
}

/// The needle matches the haystack case-insensitively at offset `i`.
pub open spec fn ci_match_at(h: Seq<char>, n: Seq<char>, i: int) -> bool {
    upper_codes(h).subrange(i, i + n.len() as int) == upper_codes(n)
}

/// The haystack contains the needle, compared case-insensitively.
pub open spec fn spec_contains_ci(h: Seq<char>, n: Seq<char>) -> bool {
    exists|i: int| 0 <= i <= h.len() - n.len() && #[trigger] ci_match_at(h, n, i)
}

/// Case-insensitivity law: the substring verdict depends only on the
/// case-folded characters of haystack and needle, so re-casing either side
/// never changes it.
pub proof fn lemma_contains_ci_case_insensitive(
    h1: Seq<char>,
    h2: Seq<char>,
    n1: Seq<char>,
    n2: Seq<char>,
)
    requires
        upper_codes(h1) == upper_codes(h2),
        upper_codes(n1) == upper_codes(n2),
    ensures
        spec_contains_ci(h1, n1) == spec_contains_ci(h2, n2),
{
    assert(h1.len() == upper_codes(h1).len());
    assert(h2.len() == upper_codes(h2).len());
    assert(n1.len() == upper_codes(n1).len());
    assert(n2.len() == upper_codes(n2).len());
    assert(h1.len() == h2.len());
    assert(n1.len() == n2.len());
    assert forall|i: int|
        0 <= i <= h1.len() - n1.len() && #[trigger] ci_match_at(h1, n1, i) implies ci_match_at(
        h2,
        n2,
        i,
    ) by {
        assert(upper_codes(h2).subrange(i, i + n2.len() as int) == upper_codes(h1).subrange(
            i,
            i + n1.len() as int,
        ));
    }
    assert forall|i: int|
        0 <= i <= h2.len() - n2.len() && #[trigger] ci_match_at(h2, n2, i) implies ci_match_at(
        h1,
        n1,
        i,
    ) by {
        assert(upper_codes(h1).subrange(i, i + n1.len() as int) == upper_codes(h2).subrange(
            i,
            i + n2.len() as int,
        ));
    }
}

/// Case-folds one character to its scalar value.
fn upper_code_exec(c: char) -> (x: u32)
    ensures
        x as int == upper_code(c),
{
    let v = c as u32;
    if v >= 97 && v <= 122 {
        v - 32
    } else {
        v
    }
}

/// Reports whether the needle matches the haystack case-insensitively at the
/// given offset.
fn match_at(h: &str, n: &str, offset: usize, hl: usize, nl: usize) -> (r: bool)
    requires
        hl == h@.len(),
        nl == n@.len(),
        offset + nl <= hl,
    ensures
        r == ci_match_at(h@, n@, offset as int),
{
    let mut j: usize = 0;
    while j < nl
        invariant
            hl == h@.len(),
            nl == n@.len(),
            offset + nl <= hl,
            j <= nl,
            forall|k: int| 0 <= k < j ==> upper_code(h@[offset + k]) == #[trigger] upper_code(
                n@[k],
            ),
        decreases nl - j,
    {
        let hc = upper_code_exec(h.get_char(offset + j));
        let nc = upper_code_exec(n.get_char(j));
        if hc != nc {
            proof {
                assert(upper_codes(h@).subrange(offset as int, offset + nl)[j as int]
                    == upper_code(h@[offset + j]));
                assert(upper_codes(n@)[j as int] == upper_code(n@[j as int]));
            }
            return false;
        }
        j += 1;
    }
    proof {
        assert forall|k: int| 0 <= k < nl implies upper_codes(h@).subrange(
            offset as int,
            offset + nl,
        )[k] == upper_codes(n@)[k] by {
            assert(upper_code(h@[offset + k]) == upper_code(n@[k]));
        }
        assert(upper_codes(h@).subrange(offset as int, offset + nl) =~= upper_codes(n@));
    }
    true
}

/// Reports whether `haystack` contains `needle`, compared case-insensitively
/// under the deterministic fold of [`upper_code`].
pub fn contains_ci(haystack: &str, needle: &str) -> (r: bool)
    ensures
        r == spec_contains_ci(haystack@, needle@),
{
    let hl = haystack.unicode_len();
    let nl = needle.unicode_len();
    if nl > hl {
        return false;
    }
    if nl == 0 {
        proof {
            assert(upper_codes(haystack@).subrange(0, 0) =~= upper_codes(needle@));
            assert(ci_match_at(haystack@, needle@, 0));
        }
        return true;
    }
    let mut i: usize = 0;
    while i <= hl - nl
        invariant
            1 <= nl <= hl,
            hl == haystack@.len(),
            nl == needle@.len(),
            i <= hl - nl + 1,
            forall|j: int| 0 <= j < i ==> !(#[trigger] ci_match_at(haystack@, needle@, j)),
        decreases hl - nl - i + 1,
    {
        if match_at(haystack, needle, i, hl, nl) {
            assert(ci_match_at(haystack@, needle@, i as int));
            return true;
        }
        i += 1;
    }
    false
}

/// Reports whether two string slices hold the same characters.
pub fn str_eq(a: &str, b: &str) -> (r: bool)
    ensures
        r == (a@ == b@),
{
    let al = a.unicode_len();
    let bl = b.unicode_len();
    if al != bl {
        return false;
    }
    let mut i: usize = 0;
    while i < al
        invariant
            al == a@.len(),
            bl == b@.len(),
            al == bl,
            i <= al,
            forall|k: int| 0 <= k < i ==> a@[k] == b@[k],
        decreases al - i,
    {
        let ca = a.get_char(i);
        let cb = b.get_char(i);
        if ca != cb {
            return false;
        }
        i += 1;
    }
    proof {
        assert(a@ =~= b@);
    }
    true
}

} // verus!
