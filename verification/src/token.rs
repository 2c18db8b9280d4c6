//! The lexical tokens of the declaration syntax.
//!
//! Tokenisation itself is the host's concern: callers hand the parser a
//! ready-made token sequence, and the grammar is agnostic to how it was
//! lexed.

use vstd::prelude::*;

verus! {

/// One lexical token of the declaration syntax.
pub enum Token {
    /// An identifier (a type name, an entry name, or the underlying type).
    Ident(String),
    /// A non-negative integer literal.
    Num(u64),
    /// `,`
    Comma,
    /// `=`
    Equals,
    /// `{`
    LBrace,
    /// `}`
    RBrace,
    /// `[`
    LBracket,
    /// `]`
    RBracket,
}

/// Mathematical model of a token: identifiers as character sequences.
pub enum TokenV {
    Ident(Seq<char>),
    Num(u64),
    Comma,
    Equals,
    LBrace,
    RBrace,
    LBracket,
    RBracket,
}

impl View for Token {
    type V = TokenV;

    open spec fn view(&self) -> TokenV {
        match self {
            Token::Ident(s) => TokenV::Ident(s@),
            Token::Num(n) => TokenV::Num(*n),
            Token::Comma => TokenV::Comma,
            Token::Equals => TokenV::Equals,
            Token::LBrace => TokenV::LBrace,
            Token::RBrace => TokenV::RBrace,
            Token::LBracket => TokenV::LBracket,
            Token::RBracket => TokenV::RBracket,
        }
    }
}

/// The model of a whole token sequence.
pub open spec fn token_views(ts: Seq<Token>) -> Seq<TokenV> {
    Seq::new(ts.len(), |i: int| ts[i]@)
}

} // verus!
