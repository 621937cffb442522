//! Character-sequence comparison: the mathematical model of string equality
//! and lexicographic ordering, and verified executable comparisons over it.

use vstd::prelude::*;
use vstd::string::StrSliceExecFns;
use core::cmp::Ordering;

verus! {

/// Lexicographic three-way comparison of two character sequences,
/// by Unicode scalar value, shorter prefix first.
pub open spec fn lex_cmp_spec(a: Seq<char>, b: Seq<char>) -> Ordering
    decreases a.len(),
{
    if a.len() == 0 && b.len() == 0 {
        Ordering::Equal
    } else if a.len() == 0 {
        Ordering::Less
    } else if b.len() == 0 {
        Ordering::Greater
    } else if a[0] == b[0] {
        lex_cmp_spec(a.skip(1), b.skip(1))
    } else if (a[0] as u32) < (b[0] as u32) {
        Ordering::Less
    } else {
        Ordering::Greater
    }
}

/// Strict lexicographic order on character sequences.
pub open spec fn lex_lt(a: Seq<char>, b: Seq<char>) -> bool {
    lex_cmp_spec(a, b) == Ordering::Less
}

/// The comparison answers `Equal` exactly on equal sequences.
pub proof fn lemma_lex_cmp_eq_iff(a: Seq<char>, b: Seq<char>)
    ensures
        (lex_cmp_spec(a, b) == Ordering::Equal) <==> (a == b),
    decreases a.len(),
{
    if a.len() == 0 && b.len() == 0 {
        assert(a =~= b);
    } else if a.len() == 0 || b.len() == 0 {
        assert(a != b);
    } else if a[0] == b[0] {
        lemma_lex_cmp_eq_iff(a.skip(1), b.skip(1));
        if a.skip(1) == b.skip(1) {
            assert forall|j: int| 0 <= j < a.len() implies a[j] == b[j] by {
                if j > 0 {
                    assert(a[j] == a.skip(1)[j - 1]);
                    assert(b[j] == b.skip(1)[j - 1]);
                }
            }
            assert(a =~= b);
        }
        if a == b {
            assert(a.skip(1) =~= b.skip(1));
        }
    } else {
        assert(a != b);
    }
}

/// Dropping an equal prefix from both sequences does not change the comparison.
proof fn lemma_lex_cmp_common_prefix(a: Seq<char>, b: Seq<char>, i: int)
    requires
        0 <= i <= a.len(),
        i <= b.len(),
        forall|j: int| 0 <= j < i ==> a[j] == b[j],
    ensures
        lex_cmp_spec(a, b) == lex_cmp_spec(a.skip(i), b.skip(i)),
    decreases i,
{
    if i == 0 {
        assert(a.skip(0) =~= a);
        assert(b.skip(0) =~= b);
    } else {
        lemma_lex_cmp_common_prefix(a, b, i - 1);
        assert(a.skip(i - 1)[0] == a[i - 1]);
        assert(b.skip(i - 1)[0] == b[i - 1]);
        assert(a.skip(i - 1).skip(1) =~= a.skip(i));
        assert(b.skip(i - 1).skip(1) =~= b.skip(i));
    }
}

/// Three-way lexicographic comparison of two string slices.
pub fn lex_cmp(a: &str, b: &str) -> (r: Ordering)
    ensures
        r == lex_cmp_spec(a@, b@),
{
    let alen = a.unicode_len();
    let blen = b.unicode_len();
    let n: usize = if alen < blen { alen } else { blen };
    let mut i: usize = 0;
    while i < n
        invariant
            alen == a@.len(),
            blen == b@.len(),
            n <= alen,
            n <= blen,
            n == alen || n == blen,
            i <= n,
            forall|j: int| 0 <= j < i ==> a@[j] == b@[j],
        decreases n - i,
    {
        let ca = a.get_char(i);
        let cb = b.get_char(i);
        if ca != cb {
            proof {
                lemma_lex_cmp_common_prefix(a@, b@, i as int);
                assert(a@.skip(i as int)[0] == ca);
                assert(b@.skip(i as int)[0] == cb);
            }
            if (ca as u32) < (cb as u32) {
                return Ordering::Less;
            } else {
                return Ordering::Greater;
            }
        }
        i += 1;
    }
    proof {
        lemma_lex_cmp_common_prefix(a@, b@, n as int);
    }
    if alen < blen {
        Ordering::Less
    } else if blen < alen {
        Ordering::Greater
    } else {
        Ordering::Equal
    }
}

/// Equality of two string slices as character sequences.
pub fn str_eq(a: &str, b: &str) -> (r: bool)
    ensures
        r == (a@ == b@),
{
    proof {
        lemma_lex_cmp_eq_iff(a@, b@);
    }
    match lex_cmp(a, b) {
        Ordering::Equal => true,
        _ => false,
    }
}

} // verus!
