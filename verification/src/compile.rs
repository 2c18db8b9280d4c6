//! The enum compiler: expands every entry of a validated declaration into
//! concrete variants and builds the generated type's variant table.
//!
//! Expansion of a range entry with base value `v` and range `(s, e)`
//! yields one variant per offset `i` in `s..=e`: identifier `name`
//! followed by the decimal rendering of `i`, raw value `v + i`.  An entry
//! without a range yields exactly one variant named and valued by the
//! entry itself.  Compilation is all-or-nothing: a range with start past
//! its end, a raw value outside the underlying type's width, or two
//! expanded variants sharing an identifier or a raw value reject the
//! whole declaration.

use vstd::prelude::*;

use crate::ast::EnumEntry;
use crate::ast::EnumEntryV;
use crate::ast::EnumSpec;
use crate::ast::EnumSpecV;
use crate::ast::SpecError;
use crate::ast::entry_views;
use crate::text::dec_seq;
use crate::text::push_dec;
use crate::text::str_eq;

verus! {

/// One concrete named value of the generated type.
pub struct Variant {
    pub ident: String,
    pub raw: u64,
}

/// Mathematical model of a variant.
pub struct VariantV {
    pub ident: Seq<char>,
    pub raw: u64,
}

impl View for Variant {
    type V = VariantV;

    open spec fn view(&self) -> VariantV {
        VariantV { ident: self.ident@, raw: self.raw }
    }
}

/// The models of a sequence of variants.
pub open spec fn variant_views(vs: Seq<Variant>) -> Seq<VariantV> {
    Seq::new(vs.len(), |i: int| vs[i]@)
}

/// The generated type: its name, the verbatim underlying type name, and
/// the expanded variant table in declaration order.  The synthetic
/// catch-all variant for undeclared raw values is not a table row; it is
/// part of the type's semantics (`RawVariant::Other`) and of its rendered
/// declaration.
pub struct GeneratedType {
    pub name: String,
    pub underlying_type: String,
    pub variants: Vec<Variant>,
}

/// Mathematical model of a generated type.
pub struct GeneratedTypeV {
    pub name: Seq<char>,
    pub underlying_type: Seq<char>,
    pub variants: Seq<VariantV>,
}

impl View for GeneratedType {
    type V = GeneratedTypeV;

    open spec fn view(&self) -> GeneratedTypeV {
        GeneratedTypeV {
            name: self.name@,
            underlying_type: self.underlying_type@,
            variants: variant_views(self.variants@),
        }
    }
}

/// The largest raw value representable in the named underlying type.
///
/// The recognised widths are the unsigned ones up to 64 bits; any other
/// name is given the full 64-bit range, the widest the compiler's own
/// arithmetic carries.
pub open spec fn type_max(ty: Seq<char>) -> u64 {
    if ty == "u8"@ {
        255
    } else if ty == "u16"@ {
        65535
    } else if ty == "u32"@ {
        0xffff_ffff
    } else {
        u64::MAX
    }
}

/// Computes [`type_max`].
pub fn type_max_exec(ty: &str) -> (r: u64)
    ensures
        r == type_max(ty@),
{
    if str_eq(ty, "u8") {
        255
    } else if str_eq(ty, "u16") {
        65535
    } else if str_eq(ty, "u32") {
        0xffff_ffff
    } else {
        u64::MAX
    }
}

/// The variants denoted by entry number `idx`, or the error that rejects
/// it: `InvalidRange` when the range starts past its end, `Overflow` when
/// a raw value would exceed `max`.
pub open spec fn sp_expand_entry(en: EnumEntryV, idx: int, max: u64) -> Result<
    Seq<VariantV>,
    SpecError,
> {
    match en.range {
        None => if en.base_value <= max {
            Ok(seq![VariantV { ident: en.name, raw: en.base_value }])
        } else {
            Err(SpecError::Overflow { entry: idx as usize })
        },
        Some((s, e)) => if s > e {
            Err(SpecError::InvalidRange { entry: idx as usize })
        } else if en.base_value + e > max {
            Err(SpecError::Overflow { entry: idx as usize })
        } else {
            Ok(
                Seq::new(
                    (e - s + 1) as nat,
                    |i: int| VariantV {
                        ident: en.name + dec_seq((s + i) as nat),
                        raw: (en.base_value + s + i) as u64,
                    },
                ),
            )
        },
    }
}

/// The concatenated expansion of all entries, in declaration order; the
/// earliest entry's error wins.
pub open spec fn sp_expand_all(entries: Seq<EnumEntryV>, max: u64) -> Result<
    Seq<VariantV>,
    SpecError,
>
    decreases entries.len(),
{
    if entries.len() == 0 {
        Ok(Seq::empty())
    } else {
        match sp_expand_all(entries.drop_last(), max) {
            Err(e) => Err(e),
            Ok(vs) => match sp_expand_entry(entries.last(), entries.len() - 1, max) {
                Err(e) => Err(e),
                Ok(nvs) => Ok(vs + nvs),
            },
        }
    }
}

/// No two variants share a raw value.
pub open spec fn raws_unique(vs: Seq<VariantV>) -> bool {
    forall|i: int, j: int| 0 <= i < j < vs.len() ==> vs[i].raw != vs[j].raw
}

/// No two variants share an identifier.
pub open spec fn idents_unique(vs: Seq<VariantV>) -> bool {
    forall|i: int, j: int| 0 <= i < j < vs.len() ==> vs[i].ident != vs[j].ident
}

/// The whole compilation: expansion of every entry, then rejection of any
/// duplicate identifier or raw value among the expanded variants.
pub open spec fn sp_compile(s: EnumSpecV) -> Result<GeneratedTypeV, SpecError> {
    match sp_expand_all(s.entries, type_max(s.underlying_type)) {
        Err(e) => Err(e),
        Ok(vs) => if idents_unique(vs) && raws_unique(vs) {
            Ok(GeneratedTypeV { name: s.name, underlying_type: s.underlying_type, variants: vs })
        } else {
            Err(SpecError::DuplicateVariant)
        },
    }
}

/// A range entry `name = [v, s, e]` with `s <= e` and `v + e` within the
/// underlying width expands to exactly `e - s + 1` variants, whose raw
/// values are `v + s`, `v + s + 1`, …, `v + e`, in that order, each named
/// by the entry's name followed by the decimal rendering of its offset.
pub proof fn lemma_range_expansion_count(en: EnumEntryV, idx: int, max: u64, s: u64, e: u64)
    requires
        en.range == Some((s, e)),
        s <= e,
        en.base_value + e <= max,
    ensures
        sp_expand_entry(en, idx, max) matches Ok(vs) && vs.len() == e - s + 1 && (forall|i: int|
            0 <= i <= e - s ==> vs[i].raw == en.base_value + s + i) && (forall|i: int|
            0 <= i <= e - s ==> vs[i].ident == en.name + dec_seq((s + i) as nat)),
{
}

/// Appends the variant for offset `o` of entry `en` to `vs`.
fn push_variant(vs: &mut Vec<Variant>, en: &EnumEntry, o: u64)
    requires
        en.base_value + o <= u64::MAX,
    ensures
        variant_views(final(vs)@) == variant_views(old(vs)@).push(
            VariantV {
                ident: en@.name + dec_seq(o as nat),
                raw: (en.base_value + o) as u64,
            },
        ),
{
    let mut id = en.name.clone();
    push_dec(&mut id, o);
    let raw = en.base_value + o;
    vs.push(Variant { ident: id, raw });
    proof {
        assert(variant_views(vs@) =~= variant_views(old(vs)@).push(
            VariantV { ident: en@.name + dec_seq(o as nat), raw: (en.base_value + o) as u64 },
        ));
    }
}

/// Expands one entry into its variants.
pub fn expand_entry(en: &EnumEntry, idx: usize, max: u64) -> (r: Result<Vec<Variant>, SpecError>)
    ensures
        ({
            let s = sp_expand_entry(en@, idx as int, max);
            match r {
                Ok(vs) => s matches Ok(vsv) && variant_views(vs@) == vsv,
                Err(e) => s == Err::<Seq<VariantV>, SpecError>(e),
            }
        }),
{
    match en.range {
        None => {
            if en.base_value <= max {
                let mut vs: Vec<Variant> = Vec::new();
                vs.push(Variant { ident: en.name.clone(), raw: en.base_value });
                proof {
                    assert(variant_views(vs@) =~= seq![
                        VariantV { ident: en@.name, raw: en.base_value },
                    ]);
                }
                Ok(vs)
            } else {
                Err(SpecError::Overflow { entry: idx })
            }
        },
        Some((s, e2)) => {
            if s > e2 {
                return Err(SpecError::InvalidRange { entry: idx });
            }
            if e2 > max || en.base_value > max - e2 {
                return Err(SpecError::Overflow { entry: idx });
            }
            let ghost full = Seq::new(
                (e2 - s + 1) as nat,
                |i: int| VariantV {
                    ident: en@.name + dec_seq((s + i) as nat),
                    raw: (en.base_value + s + i) as u64,
                },
            );
            let mut vs: Vec<Variant> = Vec::new();
            let mut o: u64 = s;
            while o < e2
                invariant
                    s <= o <= e2,
                    en.base_value + e2 <= max,
                    full == Seq::new(
                        (e2 - s + 1) as nat,
                        |i: int| VariantV {
                            ident: en@.name + dec_seq((s + i) as nat),
                            raw: (en.base_value + s + i) as u64,
                        },
                    ),
                    variant_views(vs@) == full.take((o - s) as int),
                decreases e2 - o,
            {
                push_variant(&mut vs, en, o);
                proof {
                    assert(variant_views(vs@) =~= full.take((o - s + 1) as int));
                }
                o = o + 1;
            }
            push_variant(&mut vs, en, e2);
            proof {
                assert(variant_views(vs@) =~= full);
            }
            Ok(vs)
        },
    }
}

/// An error at entry `k` rejects the whole expansion whenever every
/// earlier entry expands cleanly.
proof fn lemma_expand_all_err(entries: Seq<EnumEntryV>, max: u64, k: int)
    requires
        0 <= k < entries.len(),
        sp_expand_all(entries.take(k), max) is Ok,
        sp_expand_entry(entries[k], k, max) is Err,
    ensures
        sp_expand_all(entries, max) == sp_expand_entry(entries[k], k, max),
    decreases entries.len(),
{
    if k == entries.len() - 1 {
        assert(entries.drop_last() =~= entries.take(k));
    } else {
        assert(entries.drop_last().take(k) =~= entries.take(k));
        lemma_expand_all_err(entries.drop_last(), max, k);
    }
}

/// No two raw values repeat among `vs`.
fn check_raws_unique(vs: &Vec<Variant>) -> (r: bool)
    ensures
        r == raws_unique(variant_views(vs@)),
{
    let ghost vv = variant_views(vs@);
    let n = vs.len();
    let mut i: usize = 0;
    while i < n
        invariant
            vv == variant_views(vs@),
            n == vs@.len(),
            i <= n,
            forall|a: int, b: int| 0 <= a < b < i ==> vv[a].raw != vv[b].raw,
        decreases n - i,
    {
        let mut j: usize = 0;
        while j < i
            invariant
                vv == variant_views(vs@),
                n == vs@.len(),
                j <= i < n,
                forall|a: int, b: int| 0 <= a < b < i ==> vv[a].raw != vv[b].raw,
                forall|a: int| 0 <= a < j ==> vv[a].raw != vv[i as int].raw,
            decreases i - j,
        {
            if vs[j].raw == vs[i].raw {
                proof {
                    assert(!raws_unique(vv)) by {
                        assert(0 <= j < i < vv.len() && vv[j as int].raw == vv[i as int].raw);
                    }
                }
                return false;
            }
            j += 1;
        }
        i += 1;
    }
    true
}

/// No two identifiers repeat among `vs`.
fn check_idents_unique(vs: &Vec<Variant>) -> (r: bool)
    ensures
        r == idents_unique(variant_views(vs@)),
{
    let ghost vv = variant_views(vs@);
    let n = vs.len();
    let mut i: usize = 0;
    while i < n
        invariant
            vv == variant_views(vs@),
            n == vs@.len(),
            i <= n,
            forall|a: int, b: int| 0 <= a < b < i ==> vv[a].ident != vv[b].ident,
        decreases n - i,
    {
        let mut j: usize = 0;
        while j < i
            invariant
                vv == variant_views(vs@),
                n == vs@.len(),
                j <= i < n,
                forall|a: int, b: int| 0 <= a < b < i ==> vv[a].ident != vv[b].ident,
                forall|a: int| 0 <= a < j ==> vv[a].ident != vv[i as int].ident,
            decreases i - j,
        {
            if str_eq(vs[j].ident.as_str(), vs[i].ident.as_str()) {
                proof {
                    assert(!idents_unique(vv)) by {
                        assert(0 <= j < i < vv.len() && vv[j as int].ident == vv[i as int].ident);
                    }
                }
                return false;
            }
            j += 1;
        }
        i += 1;
    }
    true
}

/// Compiles a validated declaration into its generated type.
///
/// The result is exactly the denotation of [`sp_compile`]: the expanded
/// variant table on success; `InvalidRange`, `Overflow` or
/// `DuplicateVariant` otherwise, with the earliest offending entry
/// reported.  No partial output accompanies an error.
pub fn compile(input: &EnumSpec) -> (r: Result<GeneratedType, SpecError>)
    ensures
        ({
            let s = sp_compile(input@);
            match r {
                Ok(g) => s matches Ok(gv) && g@ == gv,
                Err(e) => s == Err::<GeneratedTypeV, SpecError>(e),
            }
        }),
{
    let ghost env = entry_views(input.entries@);
    let max = type_max_exec(input.underlying_type.as_str());
    let mut vs: Vec<Variant> = Vec::new();
    let n = input.entries.len();
    let mut k: usize = 0;
    while k < n
        invariant
            env == entry_views(input.entries@),
            max == type_max(input@.underlying_type),
            n == input.entries@.len(),
            k <= n,
            sp_expand_all(env.take(k as int), max) matches Ok(vsv) && variant_views(vs@) == vsv,
        decreases n - k,
    {
        match expand_entry(&input.entries[k], k, max) {
            Err(e) => {
                proof {
                    assert(env[k as int] == input.entries@[k as int]@);
                    lemma_expand_all_err(env, max, k as int);
                    assert(env =~= input@.entries);
                }
                return Err(e);
            },
            Ok(nvs) => {
                proof {
                    assert(env.take(k + 1).drop_last() =~= env.take(k as int));
                    assert(env.take(k + 1).last() == env[k as int]);
                    assert(env[k as int] == input.entries@[k as int]@);
                }
                let ghost prev = vs@;
                let ghost nvsv = nvs@;
                let mut nvs = nvs;
                vs.append(&mut nvs);
                proof {
                    assert(variant_views(vs@) =~= variant_views(prev) + variant_views(nvsv));
                }
                k += 1;
            },
        }
    }
    proof {
        assert(env.take(n as int) =~= env);
        assert(env =~= input@.entries);
    }
    if !check_idents_unique(&vs) || !check_raws_unique(&vs) {
        return Err(SpecError::DuplicateVariant);
    }
    Ok(
        GeneratedType {
            name: input.name.clone(),
            underlying_type: input.underlying_type.clone(),
            variants: vs,
        },
    )
}

} // verus!
