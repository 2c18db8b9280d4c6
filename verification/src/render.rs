//! Serialisation of a generated type into target-language text.
//!
//! The structured output of compilation is turned into text exactly once,
//! here.  The rendered fragment holds the enumerated type declaration
//! (every declared variant plus the trailing catch-all `other` variant),
//! the total raw-to-variant conversion `from_<ty>`, its inverse
//! `to_<ty>`, and the `display_name` lookup, each match ending in the
//! catch-all arm.

use vstd::prelude::*;
use vstd::string::StringExecFns;

use crate::compile::GeneratedType;
use crate::compile::GeneratedTypeV;
use crate::compile::Variant;
use crate::compile::VariantV;
use crate::compile::variant_views;
use crate::text::dec_seq;
use crate::text::push_dec;

verus! {

/// One line of the variant list: the identifier, indented, with a comma.
pub open spec fn sp_variant_line(v: VariantV) -> Seq<char> {
    "    "@ + v.ident + ",\n"@
}

/// The variant list, one line per declared variant, in table order.
pub open spec fn sp_variant_lines(vs: Seq<VariantV>) -> Seq<char>
    decreases vs.len(),
{
    if vs.len() == 0 {
        Seq::empty()
    } else {
        sp_variant_lines(vs.drop_last()) + sp_variant_line(vs.last())
    }
}

/// One arm of the raw-to-variant match: the raw value in decimal, then
/// the qualified variant.
pub open spec fn sp_from_arm(name: Seq<char>, v: VariantV) -> Seq<char> {
    "            "@ + dec_seq(v.raw as nat) + " => "@ + name + "::"@ + v.ident + ",\n"@
}

/// The raw-to-variant arms, in table order.
pub open spec fn sp_from_arms(name: Seq<char>, vs: Seq<VariantV>) -> Seq<char>
    decreases vs.len(),
{
    if vs.len() == 0 {
        Seq::empty()
    } else {
        sp_from_arms(name, vs.drop_last()) + sp_from_arm(name, vs.last())
    }
}

/// One arm of the variant-to-raw match: the qualified variant, then its
/// raw value in decimal.
pub open spec fn sp_to_arm(name: Seq<char>, v: VariantV) -> Seq<char> {
    "            "@ + name + "::"@ + v.ident + " => "@ + dec_seq(v.raw as nat) + ",\n"@
}

/// The variant-to-raw arms, in table order.
pub open spec fn sp_to_arms(name: Seq<char>, vs: Seq<VariantV>) -> Seq<char>
    decreases vs.len(),
{
    if vs.len() == 0 {
        Seq::empty()
    } else {
        sp_to_arms(name, vs.drop_last()) + sp_to_arm(name, vs.last())
    }
}

/// One arm of the display match: the qualified variant, then its own
/// identifier as a string literal.
pub open spec fn sp_disp_arm(name: Seq<char>, v: VariantV) -> Seq<char> {
    "            "@ + name + "::"@ + v.ident + " => String::from(\""@ + v.ident + "\"),\n"@
}

/// The display arms, in table order.
pub open spec fn sp_disp_arms(name: Seq<char>, vs: Seq<VariantV>) -> Seq<char>
    decreases vs.len(),
{
    if vs.len() == 0 {
        Seq::empty()
    } else {
        sp_disp_arms(name, vs.drop_last()) + sp_disp_arm(name, vs.last())
    }
}

/// The full rendered fragment of a generated type.
pub open spec fn sp_render(g: GeneratedTypeV) -> Seq<char> {
    "#[allow(non_camel_case_types)]\npub enum "@ + g.name + " {\n"@ + sp_variant_lines(g.variants)
        + "    other("@ + g.underlying_type + "),\n}\n\nimpl "@ + g.name
        + " {\n    pub fn from_"@ + g.underlying_type + "(v: "@ + g.underlying_type
        + ") -> Self {\n        match v {\n"@ + sp_from_arms(g.name, g.variants)
        + "            _ => "@ + g.name + "::other(v),\n        }\n    }\n\n    pub fn to_"@
        + g.underlying_type + "(&self) -> "@ + g.underlying_type
        + " {\n        match self {\n"@ + sp_to_arms(g.name, g.variants) + "            "@
        + g.name
        + "::other(x) => *x,\n        }\n    }\n\n    pub fn display_name(&self) -> String {\n        match self {\n"@
        + sp_disp_arms(g.name, g.variants) + "            "@ + g.name
        + "::other(x) => x.to_string(),\n        }\n    }\n}\n"@
}

/// Appends the variant list.
fn push_variant_lines(out: &mut String, vs: &Vec<Variant>)
    ensures
        final(out)@ == old(out)@ + sp_variant_lines(variant_views(vs@)),
{
    let ghost base = out@;
    let ghost vv = variant_views(vs@);
    proof {
        assert(out@ =~= base + sp_variant_lines(vv.take(0)));
    }
    let n = vs.len();
    let mut i: usize = 0;
    while i < n
        invariant
            vv == variant_views(vs@),
            n == vs@.len(),
            i <= n,
            out@ == base + sp_variant_lines(vv.take(i as int)),
        decreases n - i,
    {
        out.append("    ");
        out.append(vs[i].ident.as_str());
        out.append(",\n");
        proof {
            assert(vv.take(i + 1).drop_last() =~= vv.take(i as int));
            assert(out@ =~= base + sp_variant_lines(vv.take(i + 1)));
        }
        i += 1;
    }
    proof {
        assert(vv.take(n as int) =~= vv);
    }
}

/// Appends the raw-to-variant arms.
fn push_from_arms(out: &mut String, name: &str, vs: &Vec<Variant>)
    ensures
        final(out)@ == old(out)@ + sp_from_arms(name@, variant_views(vs@)),
{
    let ghost base = out@;
    let ghost vv = variant_views(vs@);
    proof {
        assert(out@ =~= base + sp_from_arms(name@, vv.take(0)));
    }
    let n = vs.len();
    let mut i: usize = 0;
    while i < n
        invariant
            vv == variant_views(vs@),
            n == vs@.len(),
            i <= n,
            out@ == base + sp_from_arms(name@, vv.take(i as int)),
        decreases n - i,
    {
        out.append("            ");
        push_dec(out, vs[i].raw);
        out.append(" => ");
        out.append(name);
        out.append("::");
        out.append(vs[i].ident.as_str());
        out.append(",\n");
        proof {
            assert(vv.take(i + 1).drop_last() =~= vv.take(i as int));
            assert(out@ =~= base + sp_from_arms(name@, vv.take(i + 1)));
        }
        i += 1;
    }
    proof {
        assert(vv.take(n as int) =~= vv);
    }
}

/// Appends the variant-to-raw arms.
fn push_to_arms(out: &mut String, name: &str, vs: &Vec<Variant>)
    ensures
        final(out)@ == old(out)@ + sp_to_arms(name@, variant_views(vs@)),
{
    let ghost base = out@;
    let ghost vv = variant_views(vs@);
    proof {
        assert(out@ =~= base + sp_to_arms(name@, vv.take(0)));
    }
    let n = vs.len();
    let mut i: usize = 0;
    while i < n
        invariant
            vv == variant_views(vs@),
            n == vs@.len(),
            i <= n,
            out@ == base + sp_to_arms(name@, vv.take(i as int)),
        decreases n - i,
    {
        out.append("            ");
        out.append(name);
        out.append("::");
        out.append(vs[i].ident.as_str());
        out.append(" => ");
        push_dec(out, vs[i].raw);
        out.append(",\n");
        proof {
            assert(vv.take(i + 1).drop_last() =~= vv.take(i as int));
            assert(out@ =~= base + sp_to_arms(name@, vv.take(i + 1)));
        }
        i += 1;
    }
    proof {
        assert(vv.take(n as int) =~= vv);
    }
}

/// Appends the display arms.
fn push_disp_arms(out: &mut String, name: &str, vs: &Vec<Variant>)
    ensures
        final(out)@ == old(out)@ + sp_disp_arms(name@, variant_views(vs@)),
{
    let ghost base = out@;
    let ghost vv = variant_views(vs@);
    proof {
        assert(out@ =~= base + sp_disp_arms(name@, vv.take(0)));
    }
    let n = vs.len();
    let mut i: usize = 0;
    while i < n
        invariant
            vv == variant_views(vs@),
            n == vs@.len(),
            i <= n,
            out@ == base + sp_disp_arms(name@, vv.take(i as int)),
        decreases n - i,
    {
        out.append("            ");
        out.append(name);
        out.append("::");
        out.append(vs[i].ident.as_str());
        out.append(" => String::from(\"");
        out.append(vs[i].ident.as_str());
        out.append("\"),\n");
        proof {
            assert(vv.take(i + 1).drop_last() =~= vv.take(i as int));
            assert(out@ =~= base + sp_disp_arms(name@, vv.take(i + 1)));
        }
        i += 1;
    }
    proof {
        assert(vv.take(n as int) =~= vv);
    }
}

/// Serialises a generated type; the text is a function of the structured
/// input alone.
pub fn render(g: &GeneratedType) -> (r: String)
    ensures
        r@ == sp_render(g@),
{
    let mut out = String::new();
    out.append("#[allow(non_camel_case_types)]\npub enum ");
    out.append(g.name.as_str());
    out.append(" {\n");
    push_variant_lines(&mut out, &g.variants);
    out.append("    other(");
    out.append(g.underlying_type.as_str());
    out.append("),\n}\n\nimpl ");
    out.append(g.name.as_str());
    out.append(" {\n    pub fn from_");
    out.append(g.underlying_type.as_str());
    out.append("(v: ");
    out.append(g.underlying_type.as_str());
    out.append(") -> Self {\n        match v {\n");
    push_from_arms(&mut out, g.name.as_str(), &g.variants);
    out.append("            _ => ");
    out.append(g.name.as_str());
    out.append("::other(v),\n        }\n    }\n\n    pub fn to_");
    out.append(g.underlying_type.as_str());
    out.append("(&self) -> ");
    out.append(g.underlying_type.as_str());
    out.append(" {\n        match self {\n");
    push_to_arms(&mut out, g.name.as_str(), &g.variants);
    out.append("            ");
    out.append(g.name.as_str());
    out.append(
        "::other(x) => *x,\n        }\n    }\n\n    pub fn display_name(&self) -> String {\n        match self {\n",
    );
    push_disp_arms(&mut out, g.name.as_str(), &g.variants);
    out.append("            ");
    out.append(g.name.as_str());
    out.append("::other(x) => x.to_string(),\n        }\n    }\n}\n");
    proof {
        assert(out@ =~= sp_render(g@));
    }
    out
}

} // verus!
