//! The meaning of a generated type: the total raw-to-variant conversion,
//! its inverse, and the display-name lookup, together with the laws that
//! relate them.
//!
//! A value of the generated type is modelled by [`RawVariant`]: either a
//! declared variant, identified by its row in the variant table, or the
//! synthetic catch-all carrying an undeclared raw value.

use vstd::prelude::*;

use crate::ast::EnumSpecV;
use crate::compile::GeneratedType;
use crate::compile::GeneratedTypeV;
use crate::compile::VariantV;
use crate::compile::idents_unique;
use crate::compile::raws_unique;
use crate::compile::sp_compile;
use crate::text::dec_seq;
use crate::text::dec_string;

verus! {

/// A value of the generated type: declared variant number `i` (a row of
/// the variant table, in expansion order), or the catch-all for a raw
/// value no declared variant carries.
#[derive(Clone, Copy, Debug, PartialEq, Eq, Structural)]
pub enum RawVariant {
    Declared(usize),
    Other(u64),
}

/// A declared variant must name a row of the table.
pub open spec fn wf_variant(g: GeneratedTypeV, v: RawVariant) -> bool {
    v matches RawVariant::Declared(i) ==> i < g.variants.len()
}

/// The index of the first variant with raw value `r`, if any.
pub open spec fn sp_find_raw(vs: Seq<VariantV>, r: u64) -> Option<int>
    decreases vs.len(),
{
    if vs.len() == 0 {
        None
    } else if vs[0].raw == r {
        Some(0int)
    } else {
        match sp_find_raw(vs.drop_first(), r) {
            None => None,
            Some(i) => Some(i + 1),
        }
    }
}

/// [`sp_find_raw`] returns the first matching row, and `None` exactly
/// when no row matches.
pub proof fn lemma_find_raw(vs: Seq<VariantV>, r: u64)
    ensures
        match sp_find_raw(vs, r) {
            Some(i) => 0 <= i < vs.len() && vs[i].raw == r && (forall|j: int|
                0 <= j < i ==> vs[j].raw != r),
            None => forall|j: int| 0 <= j < vs.len() ==> vs[j].raw != r,
        },
    decreases vs.len(),
{
    if vs.len() == 0 {
    } else if vs[0].raw == r {
    } else {
        let tail = vs.drop_first();
        lemma_find_raw(tail, r);
        assert(forall|j: int| 0 <= j < tail.len() ==> tail[j] == vs[j + 1]);
        match sp_find_raw(tail, r) {
            Some(i) => {
                assert forall|j: int| 0 <= j < i + 1 implies vs[j].raw != r by {
                    if j > 0 {
                        assert(tail[j - 1] == vs[j]);
                    }
                }
            },
            None => {
                assert forall|j: int| 0 <= j < vs.len() implies vs[j].raw != r by {
                    if j > 0 {
                        assert(tail[j - 1] == vs[j]);
                    }
                }
            },
        }
    }
}

/// What `from_raw` returns: the first declared variant whose raw value is
/// `r`, and the catch-all when there is none.
pub open spec fn sp_from_raw(g: GeneratedTypeV, r: u64) -> RawVariant {
    match sp_find_raw(g.variants, r) {
        Some(i) => RawVariant::Declared(i as usize),
        None => RawVariant::Other(r),
    }
}

/// What `to_raw` returns: a declared variant's own raw value; the
/// catch-all's carried value unchanged.
pub open spec fn sp_to_raw(g: GeneratedTypeV, v: RawVariant) -> u64 {
    match v {
        RawVariant::Declared(i) => g.variants[i as int].raw,
        RawVariant::Other(r) => r,
    }
}

/// What `display_name` returns: a declared variant's identifier text; the
/// decimal rendering of the catch-all's raw value.
pub open spec fn sp_display_name(g: GeneratedTypeV, v: RawVariant) -> Seq<char> {
    match v {
        RawVariant::Declared(i) => g.variants[i as int].ident,
        RawVariant::Other(r) => dec_seq(r as nat),
    }
}

impl GeneratedType {
    /// The total raw-to-variant conversion of the generated type.
    pub fn from_raw(&self, r: u64) -> (v: RawVariant)
        ensures
            v == sp_from_raw(self@, r),
            wf_variant(self@, v),
    {
        proof {
            lemma_find_raw(self@.variants, r);
        }
        let n = self.variants.len();
        let mut i: usize = 0;
        while i < n
            invariant
                n == self.variants@.len(),
                i <= n,
                forall|j: int| 0 <= j < i ==> self@.variants[j].raw != r,
            decreases n - i,
        {
            if self.variants[i].raw == r {
                proof {
                    lemma_find_raw(self@.variants, r);
                    match sp_find_raw(self@.variants, r) {
                        Some(ix) => {
                            if ix < i {
                                assert(self@.variants[ix].raw != r);
                            } else if ix > i {
                                assert(self@.variants[i as int].raw != r);
                            }
                            assert(ix == i);
                        },
                        None => {
                            assert(self@.variants[i as int].raw != r);
                        },
                    }
                }
                return RawVariant::Declared(i);
            }
            i += 1;
        }
        proof {
            lemma_find_raw(self@.variants, r);
        }
        RawVariant::Other(r)
    }

    /// The variant-to-raw conversion of the generated type.
    pub fn to_raw(&self, v: &RawVariant) -> (r: u64)
        requires
            wf_variant(self@, *v),
        ensures
            r == sp_to_raw(self@, *v),
    {
        match v {
            RawVariant::Declared(i) => self.variants[*i].raw,
            RawVariant::Other(r) => *r,
        }
    }

    /// The display-name lookup of the generated type.
    pub fn display_name(&self, v: &RawVariant) -> (r: String)
        requires
            wf_variant(self@, *v),
        ensures
            r@ == sp_display_name(self@, *v),
    {
        match v {
            RawVariant::Declared(i) => self.variants[*i].ident.clone(),
            RawVariant::Other(r) => dec_string(*r),
        }
    }
}

/// Every table a successful compilation yields has pairwise distinct raw
/// values and pairwise distinct identifiers.
pub proof fn lemma_compile_unique(s: EnumSpecV)
    ensures
        sp_compile(s) matches Ok(g) ==> raws_unique(g.variants) && idents_unique(g.variants),
{
}

/// Round-trip: in a table with pairwise distinct raw values — every table
/// compilation yields, by [`lemma_compile_unique`] — each declared
/// variant maps to its raw value and back to itself.
pub proof fn lemma_round_trip(g: GeneratedTypeV, i: usize)
    requires
        raws_unique(g.variants),
        i < g.variants.len(),
    ensures
        sp_from_raw(g, sp_to_raw(g, RawVariant::Declared(i))) == RawVariant::Declared(i),
{
    lemma_find_raw(g.variants, g.variants[i as int].raw);
}

/// Total coverage: a raw value no declared variant carries maps to the
/// catch-all, and the catch-all maps back to that raw value unchanged.
pub proof fn lemma_total_coverage(g: GeneratedTypeV, r: u64)
    requires
        forall|i: int| 0 <= i < g.variants.len() ==> g.variants[i].raw != r,
    ensures
        sp_from_raw(g, r) == RawVariant::Other(r),
        sp_to_raw(g, RawVariant::Other(r)) == r,
{
    lemma_find_raw(g.variants, r);
}

/// Display identity: a declared variant displays exactly its expanded
/// identifier text, and the catch-all displays the decimal rendering of
/// its raw value.
pub proof fn lemma_display_identity(g: GeneratedTypeV, i: usize, r: u64)
    requires
        i < g.variants.len(),
    ensures
        sp_display_name(g, RawVariant::Declared(i)) == g.variants[i as int].ident,
        sp_display_name(g, RawVariant::Other(r)) == dec_seq(r as nat),
{
}

} // verus!
