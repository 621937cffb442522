//! Interned strings for high-frequency markup identifiers.
//!
//! An [`Atom`] is a string value with two physical representations: a
//! reference into the precomputed static table of well-known identifier
//! strings ([`Atom::Static`]), or an exclusively owned heap string
//! ([`Atom::Owned`]). Construction consults the table once; thereafter
//! every operation behaves as a pure function of the underlying text, so
//! the two representations are interchangeable to callers. Equality and
//! ordering agree with the character sequences, with a pointer-identity
//! fast path when both operands are table references.

use vstd::prelude::*;

pub mod table;
pub mod text;

use core::cmp::Ordering;
use vstd::std_specs::cmp::{PartialEqSpec, PartialOrdSpec};
use vstd::string::StringExecFns;

verus! {

/// Interned string: a canonical reference into the static table, or an
/// owned heap string for content the table does not hold.
#[derive(Clone, Debug)]
pub enum Atom {
    Static(&'static str),
    Owned(String),
}

impl View for Atom {
    type V = Seq<char>;

    open spec fn view(&self) -> Seq<char> {
        match self {
            Atom::Static(s) => s@,
            Atom::Owned(s) => s@,
        }
    }
}

/// Relies on `str::as_ptr` and `str::len`: two string slices with the same
/// starting address and the same byte length occupy the same bytes, hence
/// hold the same characters.
#[verifier::external_body]
fn same_str_object(x: &'static str, y: &'static str) -> (r: bool)
    ensures
        r ==> x@ == y@,
{
    x.as_ptr() == y.as_ptr() && x.len() == y.len()
}

/// Relies on `String::clear`: it truncates the string to length zero,
/// keeping its allocation.
#[verifier::external_body]
fn clear_buf(s: &mut String)
    ensures
        final(s)@ == Seq::<char>::empty(),
{
    s.clear()
}

impl Atom {
    /// Intern borrowed text: a table reference on a hit, an owned copy on
    /// a miss.
    pub fn from_str(s: &str) -> (r: Atom)
        ensures
            r@ == s@,
            r is Static <==> table::in_table(s@),
    {
        match table::lookup(s) {
            Some(k) => Atom::Static(k),
            None => Atom::Owned(String::from_str(s)),
        }
    }

    /// Intern an owned string by value: a table reference on a hit (the
    /// input's storage is dropped), else an owned value taking the input's
    /// storage directly.
    pub fn from_buf(s: String) -> (r: Atom)
        ensures
            r@ == s@,
            r is Static <==> table::in_table(s@),
    {
        match table::lookup(s.as_str()) {
            Some(k) => Atom::Static(k),
            None => Atom::Owned(s),
        }
    }

    /// Intern the content of a mutable slot, leaving the slot empty: like
    /// `Atom::from_buf(core::mem::replace(s, String::new()))`, but on a
    /// table hit the slot is truncated in place instead of replaced, so
    /// its allocation can be reused by the caller.
    pub fn take_from_buf(s: &mut String) -> (r: Atom)
        ensures
            r@ == old(s)@,
            r is Static <==> table::in_table(old(s)@),
            final(s)@ == Seq::<char>::empty(),
    {
        match table::lookup(s.as_str()) {
            Some(k) => {
                clear_buf(s);
                Atom::Static(k)
            }
            None => {
                let mut taken = String::new();
                core::mem::swap(s, &mut taken);
                Atom::Owned(taken)
            }
        }
    }

    /// The pointer-identity fast path: an answer exactly when both operands
    /// are table references (an address compare), and no answer otherwise.
    /// A true answer means the operands are the same table entry, so their
    /// content is equal. A false answer means distinct addresses; that the
    /// content then differs too rests on the table holding each string at
    /// one canonical address — an address-level invariant outside the
    /// verified model, and one a hand-built `Atom::Static` can break, since
    /// the variants are public. The contract therefore promises nothing of
    /// a false answer, and verified callers confirm it by content
    /// comparison, which content equivalence requires of them anyway.
    fn fast_partial_eq(&self, other: &Atom) -> (r: Option<bool>)
        ensures
            r is Some <==> (self is Static && other is Static),
            r == Some(true) ==> self@ == other@,
    {
        match (self, other) {
            (Atom::Static(x), Atom::Static(y)) => Some(same_str_object(x, y)),
            _ => None,
        }
    }

    /// Borrow the underlying characters, without allocation.
    pub fn as_slice(&self) -> (r: &str)
        ensures
            r@ == self@,
    {
        match self {
            Atom::Static(s) => s,
            Atom::Owned(s) => s.as_str(),
        }
    }

    /// Consume the value into an owned string: a copy for a table
    /// reference, the existing allocation for an owned value.
    pub fn into_owned(self) -> (r: String)
        ensures
            r@ == self@,
    {
        match self {
            Atom::Static(s) => s.to_owned(),
            Atom::Owned(s) => s,
        }
    }

    /// A fresh owned copy of the underlying characters, retaining `self`.
    pub fn to_strbuf(&self) -> (r: String)
        ensures
            r@ == self@,
    {
        match self {
            Atom::Static(s) => (*s).to_owned(),
            Atom::Owned(s) => s.clone(),
        }
    }

    /// Consume the value into an owned string, transferring the existing
    /// allocation where one is owned.
    pub fn into_strbuf(self) -> (r: String)
        ensures
            r@ == self@,
    {
        match self {
            Atom::Static(s) => s.to_owned(),
            Atom::Owned(s) => s,
        }
    }

    /// Three-way comparison: lexicographic on the underlying characters,
    /// short-circuiting the equal case when both operands are the same
    /// table reference.
    pub fn cmp(&self, other: &Atom) -> (r: Ordering)
        ensures
            r == text::lex_cmp_spec(self@, other@),
    {
        proof {
            text::lemma_lex_cmp_eq_iff(self@, other@);
        }
        match self.fast_partial_eq(other) {
            Some(true) => Ordering::Equal,
            _ => text::lex_cmp(self.as_slice(), other.as_slice()),
        }
    }
}

impl PartialEq for Atom {
    /// Equality of the underlying characters. A true fast-path answer is
    /// definitive; a false one is confirmed by content comparison, which
    /// keeps equality sound even for table references built by hand at a
    /// non-canonical address.
    fn eq(&self, other: &Atom) -> (r: bool) {
        match self.fast_partial_eq(other) {
            Some(true) => true,
            _ => text::str_eq(self.as_slice(), other.as_slice()),
        }
    }
}

impl vstd::std_specs::cmp::PartialEqSpecImpl for Atom {
    open spec fn obeys_eq_spec() -> bool {
        true
    }

    open spec fn eq_spec(&self, other: &Atom) -> bool {
        self@ == other@
    }
}

impl Eq for Atom {}

impl PartialOrd for Atom {
    fn partial_cmp(&self, other: &Atom) -> (r: Option<Ordering>) {
        Some(self.cmp(other))
    }

    /// Strictly less, lexicographically; identical table references are
    /// dismissed without a content comparison.
    fn lt(&self, other: &Atom) -> (r: bool) {
        proof {
            text::lemma_lex_cmp_eq_iff(self@, other@);
        }
        match self.fast_partial_eq(other) {
            Some(true) => false,
            _ => match text::lex_cmp(self.as_slice(), other.as_slice()) {
                Ordering::Less => true,
                _ => false,
            },
        }
    }
}

impl vstd::std_specs::cmp::PartialOrdSpecImpl for Atom {
    open spec fn obeys_partial_cmp_spec() -> bool {
        true
    }

    open spec fn partial_cmp_spec(&self, other: &Atom) -> Option<Ordering> {
        Some(text::lex_cmp_spec(self@, other@))
    }
}

/// Two interned values are equal exactly when their character sequences
/// are equal, whatever variant each of them uses.
pub proof fn lemma_eq_matches_content(a: &Atom, b: &Atom)
    ensures
        a.eq_spec(b) <==> a@ == b@,
{
}

/// Interned values order as their character sequences do, lexicographically,
/// whatever variant each of them uses; in particular `a < b` holds exactly
/// when the text of `a` is lexicographically below the text of `b`.
pub proof fn lemma_order_matches_content(a: &Atom, b: &Atom)
    ensures
        a.partial_cmp_spec(b) == Some(text::lex_cmp_spec(a@, b@)),
        (a.partial_cmp_spec(b) == Some(Ordering::Less)) <==> text::lex_lt(a@, b@),
        (a.partial_cmp_spec(b) == Some(Ordering::Equal)) <==> a@ == b@,
{
    text::lemma_lex_cmp_eq_iff(a@, b@);
}

/// Round trip: a value re-constructed from the text of an interned value —
/// the text that borrowing or consuming it yields — is equal to the
/// original, in both directions.
pub proof fn lemma_round_trip(a: &Atom, r: &Atom)
    requires
        r@ == a@,
    ensures
        r.eq_spec(a),
        a.eq_spec(r),
{
}

/// Interning is deterministic: any two values built from equal input text
/// by the interning rule — table content becomes a table reference,
/// anything else an owned string — are equal and use the same variant.
pub proof fn lemma_interning_deterministic(r1: &Atom, r2: &Atom)
    requires
        r1@ == r2@,
        r1 is Static <==> table::in_table(r1@),
        r2 is Static <==> table::in_table(r2@),
    ensures
        r1.eq_spec(r2),
        r1 is Static <==> r2 is Static,
{
}

} // verus!
