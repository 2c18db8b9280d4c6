//! The validated intermediate representation of one declaration, and the
//! errors a declaration can fail with.

use vstd::prelude::*;
use vstd::string::StringExecFns;

use crate::text::dec_seq;
use crate::text::push_dec;

verus! {

/// One declared constant or range.
///
/// Without a range the entry denotes exactly one variant whose identifier
/// and raw value are `name` and `base_value` themselves.  With a range
/// `(start, end)` (inclusive on both ends) it denotes `end - start + 1`
/// variants: for each offset `i` in `start..=end`, an identifier made of
/// `name` followed by the decimal rendering of `i`, with raw value
/// `base_value + i`.
pub struct EnumEntry {
    pub name: String,
    pub base_value: u64,
    pub range: Option<(u64, u64)>,
}

/// Mathematical model of an entry.
pub struct EnumEntryV {
    pub name: Seq<char>,
    pub base_value: u64,
    pub range: Option<(u64, u64)>,
}

impl View for EnumEntry {
    type V = EnumEntryV;

    open spec fn view(&self) -> EnumEntryV {
        EnumEntryV { name: self.name@, base_value: self.base_value, range: self.range }
    }
}

/// The models of a sequence of entries.
pub open spec fn entry_views(es: Seq<EnumEntry>) -> Seq<EnumEntryV> {
    Seq::new(es.len(), |i: int| es[i]@)
}

/// The validated result of parsing one declaration.
///
/// `underlying_type` is the identifier naming the raw numeric
/// representation.  The parser copies it verbatim and does not interpret
/// it; the compiler only consults it for its representable range.
pub struct EnumSpec {
    pub name: String,
    pub underlying_type: String,
    pub entries: Vec<EnumEntry>,
}

/// Mathematical model of a declaration.
pub struct EnumSpecV {
    pub name: Seq<char>,
    pub underlying_type: Seq<char>,
    pub entries: Seq<EnumEntryV>,
}

impl View for EnumSpec {
    type V = EnumSpecV;

    open spec fn view(&self) -> EnumSpecV {
        EnumSpecV {
            name: self.name@,
            underlying_type: self.underlying_type@,
            entries: entry_views(self.entries@),
        }
    }
}

/// The ways a declaration can be rejected.  No partial output is ever
/// produced alongside an error.
#[derive(Clone, Copy, Debug, PartialEq, Eq, Structural)]
pub enum SpecError {
    /// A token of an unexpected class at position `pos` of the token
    /// stream (`pos` equal to the stream length means the input ended
    /// where more was expected).
    Syntax { pos: usize },
    /// Entry number `entry` (zero-based) has a range whose start exceeds
    /// its end.
    InvalidRange { entry: usize },
    /// Entry number `entry` (zero-based) produces a raw value outside the
    /// representable range of the underlying type.
    Overflow { entry: usize },
    /// Two expanded variants share an identifier or a raw value.
    DuplicateVariant,
}

/// A diagnostic rendering of one entry: its name, base value, and range
/// bounds when it has them.
pub open spec fn sp_entry_debug(e: EnumEntryV) -> Seq<char> {
    match e.range {
        None => "{ name: "@ + e.name + ", value: "@ + dec_seq(e.base_value as nat) + " }"@,
        Some((s, e2)) => "{ name: "@ + e.name + ", value: "@ + dec_seq(e.base_value as nat)
            + ", start: "@ + dec_seq(s as nat) + ", end: "@ + dec_seq(e2 as nat) + " }"@,
    }
}

impl EnumEntry {
    /// A diagnostic rendering of the entry, for error reports and logs.
    pub fn debug_string(&self) -> (r: String)
        ensures
            r@ == sp_entry_debug(self@),
    {
        let mut out = String::new();
        out.append("{ name: ");
        out.append(self.name.as_str());
        out.append(", value: ");
        push_dec(&mut out, self.base_value);
        match self.range {
            None => {
                out.append(" }");
            },
            Some((s, e2)) => {
                out.append(", start: ");
                push_dec(&mut out, s);
                out.append(", end: ");
                push_dec(&mut out, e2);
                out.append(" }");
            },
        }
        proof {
            assert(out@ =~= sp_entry_debug(self@));
        }
        out
    }
}

/// The entry lines of a declaration's diagnostic rendering, one entry per
/// line, indented under the header.
pub open spec fn sp_entry_debug_lines(es: Seq<EnumEntryV>) -> Seq<char>
    decreases es.len(),
{
    if es.len() == 0 {
        Seq::empty()
    } else {
        sp_entry_debug_lines(es.drop_last()) + "  "@ + sp_entry_debug(es.last()) + "\n"@
    }
}

/// A diagnostic rendering of a declaration: a header naming the type and
/// its underlying type, then one line per entry.
pub open spec fn sp_spec_debug(s: EnumSpecV) -> Seq<char> {
    "EnumSpec { name: "@ + s.name + ", type: "@ + s.underlying_type + " }\n"@
        + sp_entry_debug_lines(s.entries)
}

impl EnumSpec {
    /// A diagnostic rendering of the declaration, for error reports and
    /// logs.
    pub fn debug_string(&self) -> (r: String)
        ensures
            r@ == sp_spec_debug(self@),
    {
        let mut out = String::new();
        out.append("EnumSpec { name: ");
        out.append(self.name.as_str());
        out.append(", type: ");
        out.append(self.underlying_type.as_str());
        out.append(" }\n");
        let ghost base = out@;
        let ghost env = entry_views(self.entries@);
        proof {
            assert(out@ =~= base + sp_entry_debug_lines(env.take(0)));
        }
        let n = self.entries.len();
        let mut i: usize = 0;
        while i < n
            invariant
                env == entry_views(self.entries@),
                n == self.entries@.len(),
                i <= n,
                out@ == base + sp_entry_debug_lines(env.take(i as int)),
            decreases n - i,
        {
            out.append("  ");
            let line = self.entries[i].debug_string();
            out.append(line.as_str());
            out.append("\n");
            proof {
                assert(env.take(i + 1).drop_last() =~= env.take(i as int));
                assert(out@ =~= base + sp_entry_debug_lines(env.take(i + 1)));
            }
            i += 1;
        }
        proof {
            assert(env.take(n as int) =~= env);
            assert(env == self@.entries);
        }
        out
    }
}

} // verus!
