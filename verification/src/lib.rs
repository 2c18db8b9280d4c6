//! A small compiler for a closed set of named integer constants.
//!
//! The input is a token stream in a compact declaration syntax:
//! a type name, an underlying numeric type, and a brace-enclosed list of
//! entries, each either a single named value (`RED = 1`) or a named range
//! (`GREEN = [2, 0, 2]`, meaning base value 2, offsets 0 through 2).
//! The output is the text of an enumerated type together with total
//! conversions to and from the raw numeric representation and a display
//! function, with a catch-all variant for undeclared raw values.
//!
//! The pipeline is single-pass: [`parser::parse`] turns the token stream
//! into a validated [`ast::EnumSpec`], [`compile::compile`] expands every
//! entry into concrete variants and rejects invalid ranges, overflowing
//! values and duplicates, and [`render::render`] serialises the result
//! once.  [`reg_enum`] composes the three.

use vstd::prelude::*;

pub mod ast;
pub mod compile;
pub mod parser;
pub mod render;
pub mod semantics;
pub mod text;
pub mod token;

use crate::ast::SpecError;
use crate::token::Token;
use crate::token::TokenV;
use crate::token::token_views;

verus! {

/// The denotation of the whole pipeline on a token stream: parse the
/// declaration, compile it, and render the generated type; the first
/// error aborts with no partial output.
pub open spec fn sp_reg_enum(ts: Seq<TokenV>) -> Result<Seq<char>, SpecError> {
    match crate::parser::sp_parse(ts) {
        Err(e) => Err(e),
        Ok(s) => match crate::compile::sp_compile(s) {
            Err(e) => Err(e),
            Ok(g) => Ok(crate::render::sp_render(g)),
        },
    }
}

/// Compiles one declaration, given as a token stream, into the rendered
/// text of its generated type.
///
/// The result is exactly the pipeline's denotation on the token models:
/// the rendered fragment on success, and the first error — `Syntax` with
/// the offending position, `InvalidRange`, `Overflow` or
/// `DuplicateVariant` with the offending entry — otherwise.
pub fn reg_enum(tokens: &Vec<Token>) -> (r: Result<String, SpecError>)
    ensures
        ({
            let s = sp_reg_enum(token_views(tokens@));
            match r {
                Ok(text) => s matches Ok(tv) && text@ == tv,
                Err(e) => s == Err::<Seq<char>, SpecError>(e),
            }
        }),
{
    let parsed = match crate::parser::parse(tokens) {
        Ok(p) => p,
        Err(e) => {
            return Err(e);
        },
    };
    let compiled = match crate::compile::compile(&parsed) {
        Ok(g) => g,
        Err(e) => {
            return Err(e);
        },
    };
    Ok(crate::render::render(&compiled))
}

/// Determinism: compiling the same declaration twice yields byte-identical
/// output — the pipeline's denotation is a function of the token models
/// alone, with no hidden state.
pub proof fn lemma_deterministic(ts1: Seq<TokenV>, ts2: Seq<TokenV>)
    requires
        ts1 == ts2,
    ensures
        sp_reg_enum(ts1) == sp_reg_enum(ts2),
{
}

} // verus!
