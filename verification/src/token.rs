//! Tokens of annotation arguments and type expressions.

use vstd::prelude::*;
use crate::text::str_equal;

verus! {

/// The lexical class of one token tree.
#[derive(Clone, Copy, Debug, PartialEq, Eq, Structural)]
pub enum TokenKind {
    /// An identifier or keyword.
    Ident,
    /// A single punctuation character.
    Punct,
    /// A literal: number, string, character.
    Literal,
    /// A delimited group, taken as one token.
    Group,
}

/// One token tree at the top level of a token sequence.
#[derive(Clone, Debug)]
pub struct Token {
    pub kind: TokenKind,
    /// The token as written. For a group: its opening delimiter alone, `(`,
    /// `[` or `{`, and nothing for a group without delimiters.
    pub text: String,
}

/// The mathematical value of [`Token`].
pub struct TokenView {
    pub kind: TokenKind,
    pub text: Seq<char>,
}

impl View for Token {
    type V = TokenView;

    open spec fn view(&self) -> TokenView {
        TokenView { kind: self.kind, text: self.text@ }
    }
}

/// The values of a vector of tokens, in order.
pub open spec fn tokens_view(tokens: Seq<Token>) -> Seq<TokenView> {
    tokens.map_values(|t: Token| t@)
}

impl Token {
    /// A token of the given kind and text.
    pub fn new(kind: TokenKind, text: &str) -> (token: Token)
        ensures
            token@ == (TokenView { kind, text: text@ }),
    {
        Token { kind, text: text.to_string() }
    }

    /// Whether this token is the identifier `name`.
    pub fn is_ident(&self, name: &str) -> (b: bool)
        ensures
            b == (self@.kind == TokenKind::Ident && self@.text == name@),
    {
        self.kind == TokenKind::Ident && str_equal(self.text.as_str(), name)
    }

    /// Whether this token is the punctuation `mark`.
    pub fn is_punct(&self, mark: &str) -> (b: bool)
        ensures
            b == (self@.kind == TokenKind::Punct && self@.text == mark@),
    {
        self.kind == TokenKind::Punct && str_equal(self.text.as_str(), mark)
    }
}

/// The tokens from position `from` on; none where there are not that many.
pub open spec fn remaining(tokens: Seq<TokenView>, from: int) -> Seq<TokenView> {
    if 0 <= from <= tokens.len() {
        tokens.subrange(from, tokens.len() as int)
    } else {
        Seq::empty()
    }
}

/// A copy of the tokens from position `from` on.
pub fn tokens_from(tokens: &Vec<Token>, from: usize) -> (out: Vec<Token>)
    ensures
        tokens_view(out@) == remaining(tokens_view(tokens@), from as int),
{
    let ghost views = tokens_view(tokens@);
    let mut out: Vec<Token> = Vec::new();
    if from > tokens.len() {
        proof {
            assert(tokens_view(out@) == Seq::<TokenView>::empty());
        }
        return out;
    }
    let mut i: usize = from;
    while i < tokens.len()
        invariant
            from <= i <= tokens.len(),
            views == tokens_view(tokens@),
            tokens_view(out@) == views.subrange(from as int, i as int),
        decreases tokens.len() - i,
    {
        let ghost before = out@;
        let t = Token { kind: tokens[i].kind, text: tokens[i].text.clone() };
        out.push(t);
        proof {
            assert(tokens_view(out@) == tokens_view(before).push(tokens[i as int]@));
            assert(views.subrange(from as int, i + 1) == views.subrange(from as int, i as int).push(
                tokens[i as int]@,
            ));
        }
        i += 1;
    }
    out
}

/// The tokens from position `from` up to position `to`; none where these
/// are no positions in that order.
pub open spec fn between(tokens: Seq<TokenView>, from: int, to: int) -> Seq<TokenView> {
    if 0 <= from <= to <= tokens.len() {
        tokens.subrange(from, to)
    } else {
        Seq::empty()
    }
}

/// A copy of the tokens from position `from` up to position `to`.
pub fn tokens_between(tokens: &Vec<Token>, from: usize, to: usize) -> (out: Vec<Token>)
    ensures
        tokens_view(out@) == between(tokens_view(tokens@), from as int, to as int),
{
    let ghost views = tokens_view(tokens@);
    let mut out: Vec<Token> = Vec::new();
    if from > to || to > tokens.len() {
        proof {
            assert(tokens_view(out@) == Seq::<TokenView>::empty());
        }
        return out;
    }
    let mut i: usize = from;
    while i < to
        invariant
            from <= i <= to <= tokens.len(),
            views == tokens_view(tokens@),
            tokens_view(out@) == views.subrange(from as int, i as int),
        decreases to - i,
    {
        let ghost before = out@;
        let t = Token { kind: tokens[i].kind, text: tokens[i].text.clone() };
        out.push(t);
        proof {
            assert(tokens_view(out@) == tokens_view(before).push(tokens[i as int]@));
            assert(views.subrange(from as int, i + 1) == views.subrange(from as int, i as int).push(
                tokens[i as int]@,
            ));
        }
        i += 1;
    }
    out
}

/// A copy of a vector of tokens.
pub fn clone_tokens(tokens: &Vec<Token>) -> (out: Vec<Token>)
    ensures
        tokens_view(out@) == tokens_view(tokens@),
{
    let out = tokens_from(tokens, 0);
    proof {
        assert(tokens_view(tokens@).subrange(0, tokens@.len() as int) == tokens_view(tokens@));
    }
    out
}

} // verus!
