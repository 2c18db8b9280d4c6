//! Recursive-descent parser for the declaration syntax.
//!
//! The grammar, with one token of lookahead at every decision point:
//!
//! ```text
//! spec       := type_name "," underlying_type "," "{" entry_list "}"
//! entry_list := entry ("," entry)* [","]
//! entry      := identifier "=" (integer | range)
//! range      := "[" integer "," integer "," integer "]"
//! ```
//!
//! The three integers of a range are, in order, the base value, the range
//! start and the range end.  The grammar is stated once as spec functions
//! over the token models (`sp_*`), and the executable parser is proved to
//! return exactly what they denote, including the position carried by
//! every syntax error.

use vstd::prelude::*;

use crate::ast::EnumEntry;
use crate::ast::EnumEntryV;
use crate::ast::EnumSpec;
use crate::ast::EnumSpecV;
use crate::ast::SpecError;
use crate::ast::entry_views;
use crate::token::Token;
use crate::token::TokenV;
use crate::token::token_views;

verus! {

/// The denotation of `range` at `pos`: the three integers and the
/// position just past the last of them (the caller matches the
/// surrounding brackets).
pub open spec fn sp_range(ts: Seq<TokenV>, pos: int) -> Result<((u64, u64, u64), int), SpecError> {
    if !(0 <= pos < ts.len() && ts[pos] is Num) {
        Err(SpecError::Syntax { pos: pos as usize })
    } else if !(pos + 1 < ts.len() && ts[pos + 1] is Comma) {
        Err(SpecError::Syntax { pos: (pos + 1) as usize })
    } else if !(pos + 2 < ts.len() && ts[pos + 2] is Num) {
        Err(SpecError::Syntax { pos: (pos + 2) as usize })
    } else if !(pos + 3 < ts.len() && ts[pos + 3] is Comma) {
        Err(SpecError::Syntax { pos: (pos + 3) as usize })
    } else if !(pos + 4 < ts.len() && ts[pos + 4] is Num) {
        Err(SpecError::Syntax { pos: (pos + 4) as usize })
    } else {
        Ok(((ts[pos]->Num_0, ts[pos + 2]->Num_0, ts[pos + 4]->Num_0), pos + 5))
    }
}

/// The denotation of `entry` at `pos`: one entry and the position just
/// past it.
pub open spec fn sp_entry(ts: Seq<TokenV>, pos: int) -> Result<(EnumEntryV, int), SpecError> {
    if !(0 <= pos < ts.len() && ts[pos] is Ident) {
        Err(SpecError::Syntax { pos: pos as usize })
    } else if !(pos + 1 < ts.len() && ts[pos + 1] is Equals) {
        Err(SpecError::Syntax { pos: (pos + 1) as usize })
    } else if pos + 2 < ts.len() && ts[pos + 2] is LBracket {
        match sp_range(ts, pos + 3) {
            Err(e) => Err(e),
            Ok(((v, s, e2), p)) => if p < ts.len() && ts[p] is RBracket {
                Ok(
                    (
                        EnumEntryV {
                            name: ts[pos]->Ident_0,
                            base_value: v,
                            range: Some((s, e2)),
                        },
                        p + 1,
                    ),
                )
            } else {
                Err(SpecError::Syntax { pos: p as usize })
            },
        }
    } else if pos + 2 < ts.len() && ts[pos + 2] is Num {
        Ok(
            (
                EnumEntryV { name: ts[pos]->Ident_0, base_value: ts[pos + 2]->Num_0, range: None },
                pos + 3,
            ),
        )
    } else {
        Err(SpecError::Syntax { pos: (pos + 2) as usize })
    }
}

/// An entry consumes at least one token.
pub proof fn lemma_sp_entry_advances(ts: Seq<TokenV>, pos: int)
    ensures
        sp_entry(ts, pos) matches Ok((en, p)) ==> pos + 3 <= p <= ts.len(),
{
    match sp_entry(ts, pos) {
        Ok((en, p)) => {
            assert(pos + 3 <= p <= ts.len());
        },
        Err(e) => {},
    }
}

/// The denotation of `entry_list "}"` at `pos`: at least one entry,
/// separated by commas with an optional trailing comma, consumed through
/// the closing brace.
pub open spec fn sp_entries(ts: Seq<TokenV>, pos: int) -> Result<(Seq<EnumEntryV>, int), SpecError>
    decreases ts.len() - pos,
{
    match sp_entry(ts, pos) {
        Err(e) => Err(e),
        Ok((en, p)) => if p < ts.len() && ts[p] is Comma {
            if p + 1 < ts.len() && ts[p + 1] is RBrace {
                Ok((seq![en], p + 2))
            } else {
                match sp_entries(ts, p + 1) {
                    Err(e) => Err(e),
                    Ok((rest, p2)) => Ok((seq![en] + rest, p2)),
                }
            }
        } else if p < ts.len() && ts[p] is RBrace {
            Ok((seq![en], p + 1))
        } else {
            Err(SpecError::Syntax { pos: p as usize })
        },
    }
}

/// The denotation of a whole declaration: every token must be consumed.
pub open spec fn sp_parse(ts: Seq<TokenV>) -> Result<EnumSpecV, SpecError> {
    if !(0 < ts.len() && ts[0] is Ident) {
        Err(SpecError::Syntax { pos: 0 })
    } else if !(1 < ts.len() && ts[1] is Comma) {
        Err(SpecError::Syntax { pos: 1 })
    } else if !(2 < ts.len() && ts[2] is Ident) {
        Err(SpecError::Syntax { pos: 2 })
    } else if !(3 < ts.len() && ts[3] is Comma) {
        Err(SpecError::Syntax { pos: 3 })
    } else if !(4 < ts.len() && ts[4] is LBrace) {
        Err(SpecError::Syntax { pos: 4 })
    } else {
        match sp_entries(ts, 5) {
            Err(e) => Err(e),
            Ok((entries, p)) => if p == ts.len() {
                Ok(EnumSpecV { name: ts[0]->Ident_0, underlying_type: ts[2]->Ident_0, entries })
            } else {
                Err(SpecError::Syntax { pos: p as usize })
            },
        }
    }
}

/// Parses the three comma-separated integers of a range body.
pub fn parse_range(tokens: &Vec<Token>, pos: usize) -> (r: Result<
    ((u64, u64, u64), usize),
    SpecError,
>)
    ensures
        ({
            let s = sp_range(token_views(tokens@), pos as int);
            match r {
                Ok((vals, p)) => s == Ok::<((u64, u64, u64), int), SpecError>((vals, p as int)),
                Err(e) => s == Err::<((u64, u64, u64), int), SpecError>(e),
            }
        }),
{
    let n = tokens.len();
    if pos >= n {
        return Err(SpecError::Syntax { pos });
    }
    let v: u64 = match &tokens[pos] {
        Token::Num(v) => *v,
        _ => {
            return Err(SpecError::Syntax { pos });
        },
    };
    if pos + 1 >= n {
        return Err(SpecError::Syntax { pos: pos + 1 });
    }
    match &tokens[pos + 1] {
        Token::Comma => {},
        _ => {
            return Err(SpecError::Syntax { pos: pos + 1 });
        },
    }
    if pos + 2 >= n {
        return Err(SpecError::Syntax { pos: pos + 2 });
    }
    let s: u64 = match &tokens[pos + 2] {
        Token::Num(v) => *v,
        _ => {
            return Err(SpecError::Syntax { pos: pos + 2 });
        },
    };
    if pos + 3 >= n {
        return Err(SpecError::Syntax { pos: pos + 3 });
    }
    match &tokens[pos + 3] {
        Token::Comma => {},
        _ => {
            return Err(SpecError::Syntax { pos: pos + 3 });
        },
    }
    if pos + 4 >= n {
        return Err(SpecError::Syntax { pos: pos + 4 });
    }
    let e2: u64 = match &tokens[pos + 4] {
        Token::Num(v) => *v,
        _ => {
            return Err(SpecError::Syntax { pos: pos + 4 });
        },
    };
    Ok(((v, s, e2), pos + 5))
}

/// Parses one entry: an identifier, `=`, and a bare integer or a
/// bracketed range.
pub fn parse_entry(tokens: &Vec<Token>, pos: usize) -> (r: Result<(EnumEntry, usize), SpecError>)
    ensures
        ({
            let s = sp_entry(token_views(tokens@), pos as int);
            match r {
                Ok((en, p)) => s matches Ok((env, pv)) && en@ == env && p as int == pv,
                Err(e) => s == Err::<(EnumEntryV, int), SpecError>(e),
            }
        }),
{
    let n = tokens.len();
    if pos >= n {
        return Err(SpecError::Syntax { pos });
    }
    let name: String = match &tokens[pos] {
        Token::Ident(s) => s.clone(),
        _ => {
            return Err(SpecError::Syntax { pos });
        },
    };
    if pos + 1 >= n {
        return Err(SpecError::Syntax { pos: pos + 1 });
    }
    match &tokens[pos + 1] {
        Token::Equals => {},
        _ => {
            return Err(SpecError::Syntax { pos: pos + 1 });
        },
    }
    if pos + 2 >= n {
        return Err(SpecError::Syntax { pos: pos + 2 });
    }
    match &tokens[pos + 2] {
        Token::LBracket => {
            match parse_range(tokens, pos + 3) {
                Err(e) => Err(e),
                Ok(((v, s, e2), p)) => {
                    if p < n {
                        match &tokens[p] {
                            Token::RBracket => Ok(
                                (
                                    EnumEntry { name, base_value: v, range: Some((s, e2)) },
                                    p + 1,
                                ),
                            ),
                            _ => Err(SpecError::Syntax { pos: p }),
                        }
                    } else {
                        Err(SpecError::Syntax { pos: p })
                    }
                },
            }
        },
        Token::Num(v) => Ok((EnumEntry { name, base_value: *v, range: None }, pos + 3)),
        _ => Err(SpecError::Syntax { pos: pos + 2 }),
    }
}

/// Parses the entry list and its closing brace.
pub fn parse_entries(tokens: &Vec<Token>, pos: usize) -> (r: Result<
    (Vec<EnumEntry>, usize),
    SpecError,
>)
    ensures
        ({
            let s = sp_entries(token_views(tokens@), pos as int);
            match r {
                Ok((es, p)) => s matches Ok((esv, pv)) && entry_views(es@) == esv && p as int
                    == pv,
                Err(e) => s == Err::<(Seq<EnumEntryV>, int), SpecError>(e),
            }
        }),
    decreases tokens@.len() - pos,
{
    let n = tokens.len();
    match parse_entry(tokens, pos) {
        Err(e) => Err(e),
        Ok((en, p)) => {
            proof {
                lemma_sp_entry_advances(token_views(tokens@), pos as int);
            }
            if p < n && matches!(&tokens[p], Token::Comma) {
                if p + 1 < n && matches!(&tokens[p + 1], Token::RBrace) {
                    let mut es: Vec<EnumEntry> = Vec::new();
                    es.push(en);
                    proof {
                        assert(entry_views(es@) =~= seq![en@]);
                    }
                    Ok((es, p + 2))
                } else {
                    match parse_entries(tokens, p + 1) {
                        Err(e) => Err(e),
                        Ok((rest, p2)) => {
                            let ghost restv = rest@;
                            let mut es: Vec<EnumEntry> = Vec::new();
                            es.push(en);
                            let mut rest = rest;
                            es.append(&mut rest);
                            proof {
                                assert(entry_views(es@) =~= seq![en@] + entry_views(restv));
                            }
                            Ok((es, p2))
                        },
                    }
                }
            } else if p < n && matches!(&tokens[p], Token::RBrace) {
                let mut es: Vec<EnumEntry> = Vec::new();
                es.push(en);
                proof {
                    assert(entry_views(es@) =~= seq![en@]);
                }
                Ok((es, p + 1))
            } else {
                Err(SpecError::Syntax { pos: p })
            }
        },
    }
}

/// Parses one whole declaration; every token must belong to it.
///
/// The result is exactly the denotation of the grammar on the token
/// models: the parsed declaration on success, and the syntax error with
/// the offending position otherwise.
pub fn parse(tokens: &Vec<Token>) -> (r: Result<EnumSpec, SpecError>)
    ensures
        ({
            let s = sp_parse(token_views(tokens@));
            match r {
                Ok(es) => s matches Ok(sv) && es@ == sv,
                Err(e) => s == Err::<EnumSpecV, SpecError>(e),
            }
        }),
{
    let n = tokens.len();
    if n == 0 {
        return Err(SpecError::Syntax { pos: 0 });
    }
    let name: String = match &tokens[0] {
        Token::Ident(s) => s.clone(),
        _ => {
            return Err(SpecError::Syntax { pos: 0 });
        },
    };
    if n <= 1 {
        return Err(SpecError::Syntax { pos: 1 });
    }
    match &tokens[1] {
        Token::Comma => {},
        _ => {
            return Err(SpecError::Syntax { pos: 1 });
        },
    }
    if n <= 2 {
        return Err(SpecError::Syntax { pos: 2 });
    }
    let underlying_type: String = match &tokens[2] {
        Token::Ident(s) => s.clone(),
        _ => {
            return Err(SpecError::Syntax { pos: 2 });
        },
    };
    if n <= 3 {
        return Err(SpecError::Syntax { pos: 3 });
    }
    match &tokens[3] {
        Token::Comma => {},
        _ => {
            return Err(SpecError::Syntax { pos: 3 });
        },
    }
    if n <= 4 {
        return Err(SpecError::Syntax { pos: 4 });
    }
    match &tokens[4] {
        Token::LBrace => {},
        _ => {
            return Err(SpecError::Syntax { pos: 4 });
        },
    }
    match parse_entries(tokens, 5) {
        Err(e) => Err(e),
        Ok((entries, p)) => {
            if p == n {
                Ok(EnumSpec { name, underlying_type, entries })
            } else {
                Err(SpecError::Syntax { pos: p })
            }
        },
    }
}

} // verus!
