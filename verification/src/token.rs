//! The token vocabulary of a variant's annotation block.
//!
//! An annotation payload is a flat sequence of tokens: field names
//! (identifiers), string literals, separators, and grouped identifier lists.
//! A group is one level deep: the tokens inside it are identifiers,
//! string literals or separators, never another group.

use vstd::prelude::*;

verus! {

/// The grouping bracket of a payload group. Only a parenthesized group is a
/// valid identifier-list payload; the others exist so that the grammar can
/// reject them.
#[derive(Debug, Clone, Copy, PartialEq, Eq, Structural)]
pub enum Delim {
    Paren,
    Bracket,
    Brace,
}

/// A token inside a grouped identifier list.
#[derive(Debug, Clone, PartialEq, Eq)]
pub enum InnerToken {
    /// A bare identifier.
    Ident(String),
    /// A string literal (its contents, without the quotes).
    LitStr(String),
    /// The list separator (a comma).
    Sep,
}

/// A token of a variant's annotation payload.
#[derive(Debug, Clone, PartialEq, Eq)]
pub enum Token {
    /// A bare identifier (a field name).
    Ident(String),
    /// A string literal (its contents, without the quotes).
    LitStr(String),
    /// The field separator (a comma).
    Sep,
    /// A bracketed group holding a flat token sequence.
    Group(Delim, Vec<InnerToken>),
}

/// The mathematical value of an [`InnerToken`].
pub enum SpecInnerToken {
    Ident(Seq<char>),
    LitStr(Seq<char>),
    Sep,
}

/// The mathematical value of a [`Token`].
pub enum SpecToken {
    Ident(Seq<char>),
    LitStr(Seq<char>),
    Sep,
    Group(Delim, Seq<SpecInnerToken>),
}

impl InnerToken {
    /// An owned copy whose mathematical value is the same.
    pub fn duplicate(&self) -> (r: InnerToken)
        ensures
            r.deep_view() == self.deep_view(),
    {
        match self {
            InnerToken::Ident(s) => InnerToken::Ident(s.clone()),
            InnerToken::LitStr(s) => InnerToken::LitStr(s.clone()),
            InnerToken::Sep => InnerToken::Sep,
        }
    }
}

impl Token {
    /// An owned copy whose mathematical value is the same.
    pub fn duplicate(&self) -> (r: Token)
        ensures
            r.deep_view() == self.deep_view(),
    {
        match self {
            Token::Ident(s) => Token::Ident(s.clone()),
            Token::LitStr(s) => Token::LitStr(s.clone()),
            Token::Sep => Token::Sep,
            Token::Group(d, ts) => {
                let mut inner: Vec<InnerToken> = Vec::new();
                let mut i: usize = 0;
                while i < ts.len()
                    invariant
                        i <= ts.len(),
                        inner.deep_view() =~= ts.deep_view().take(i as int),
                    decreases ts.len() - i,
                {
                    let d = ts[i].duplicate();
                    let ghost prev = inner.deep_view();
                    proof {
                        assert(d.deep_view() == ts.deep_view()[i as int]);
                    }
                    inner.push(d);
                    proof {
                        assert(inner.deep_view() =~= prev.push(ts.deep_view()[i as int]));
                        assert(prev.push(ts.deep_view()[i as int]) =~= ts.deep_view().take(
                            i as int + 1,
                        ));
                    }
                    i = i + 1;
                }
                proof {
                    assert(ts.deep_view().take(ts.len() as int) =~= ts.deep_view());
                }
                Token::Group(*d, inner)
            },
        }
    }
}

impl DeepView for InnerToken {
    type V = SpecInnerToken;

    open spec fn deep_view(&self) -> SpecInnerToken {
        match self {
            InnerToken::Ident(s) => SpecInnerToken::Ident(s@),
            InnerToken::LitStr(s) => SpecInnerToken::LitStr(s@),
            InnerToken::Sep => SpecInnerToken::Sep,
        }
    }
}

impl DeepView for Token {
    type V = SpecToken;

    open spec fn deep_view(&self) -> SpecToken {
        match self {
            Token::Ident(s) => SpecToken::Ident(s@),
            Token::LitStr(s) => SpecToken::LitStr(s@),
            Token::Sep => SpecToken::Sep,
            Token::Group(d, ts) => SpecToken::Group(*d, ts.deep_view()),
        }
    }
}

} // verus!
