//! The annotation grammar: field vocabulary, grammar errors, and the
//! tokenizer routine that turns the flat token sequence inside a
//! parenthesized group into an ordered list of identifiers.
//!
//! Inside a group, identifiers must alternate with exactly one separator.
//! A trailing separator is tolerated; a leading separator, a double
//! separator, a missing separator and a non-identifier token are grammar
//! errors carrying the offending token and the field context.

use vstd::prelude::*;

use crate::token::{InnerToken, SpecInnerToken, SpecToken, Token};

verus! {

/// The annotation field vocabulary: the "current field" register of the
/// parser's finite-state walk names one of these.
#[derive(Debug, Clone, Copy, PartialEq, Eq, Structural)]
pub enum Field {
    /// `is_default_variant`: marks the type's default variant; takes no payload.
    DefaultMarker,
    /// `platform_ids(..)`: the platforms the variant applies to.
    PlatformList,
    /// `primary_platform_ids(..)`: the platforms the variant is preferred on.
    PrimaryPlatformList,
    /// `display_name("..")`: an explicit display-string override.
    DisplayLiteral,
}

/// A grammar error in one variant's annotation block. Compilation of the
/// whole type definition aborts on the first of these; no artifact is
/// produced for a malformed type.
#[derive(Debug, Clone, PartialEq, Eq)]
pub enum ParseError {
    /// An identifier outside the field vocabulary stood where a field name
    /// was expected.
    UnknownField { name: String },
    /// A separator stood while no field was open.
    SeparatorOutsideField,
    /// A separator stood before the open field received its payload.
    DanglingSeparator { field: Field },
    /// A token stood that the open field context (`None`: no open field)
    /// does not allow.
    UnexpectedToken { field: Option<Field>, token: Token },
    /// An identifier-list payload was grouped by something other than
    /// parentheses.
    WrongDelimiter { field: Field },
    /// A token inside a grouped identifier list broke the
    /// identifier/separator alternation.
    ListToken { field: Field, token: InnerToken },
    /// The annotation ended while the open field still awaited its payload.
    MissingPayload { field: Field },
}

/// The mathematical value of a [`ParseError`].
pub enum SpecParseError {
    UnknownField { name: Seq<char> },
    SeparatorOutsideField,
    DanglingSeparator { field: Field },
    UnexpectedToken { field: Option<Field>, token: SpecToken },
    WrongDelimiter { field: Field },
    ListToken { field: Field, token: SpecInnerToken },
    MissingPayload { field: Field },
}

impl DeepView for ParseError {
    type V = SpecParseError;

    open spec fn deep_view(&self) -> SpecParseError {
        match self {
            ParseError::UnknownField { name } => SpecParseError::UnknownField { name: name@ },
            ParseError::SeparatorOutsideField => SpecParseError::SeparatorOutsideField,
            ParseError::DanglingSeparator { field } => SpecParseError::DanglingSeparator {
                field: *field,
            },
            ParseError::UnexpectedToken { field, token } => SpecParseError::UnexpectedToken {
                field: *field,
                token: token.deep_view(),
            },
            ParseError::WrongDelimiter { field } => SpecParseError::WrongDelimiter {
                field: *field,
            },
            ParseError::ListToken { field, token } => SpecParseError::ListToken {
                field: *field,
                token: token.deep_view(),
            },
            ParseError::MissingPayload { field } => SpecParseError::MissingPayload {
                field: *field,
            },
        }
    }
}

/// The identifier list denoted by the token sequence inside a parenthesized
/// payload group of `field`: identifiers alternating with single separators,
/// a trailing separator tolerated.
pub open spec fn spec_ident_list(ts: Seq<SpecInnerToken>, field: Field) -> Result<
    Seq<Seq<char>>,
    SpecParseError,
>
    decreases ts.len(),
{
    if ts.len() == 0 {
        Ok(Seq::empty())
    } else {
        match ts[0] {
            SpecInnerToken::Ident(name) => {
                if ts.len() == 1 {
                    Ok(seq![name])
                } else {
                    match ts[1] {
                        SpecInnerToken::Sep => match spec_ident_list(ts.skip(2), field) {
                            Ok(rest) => Ok(seq![name] + rest),
                            Err(e) => Err(e),
                        },
                        _ => Err(SpecParseError::ListToken { field, token: ts[1] }),
                    }
                }
            },
            _ => Err(SpecParseError::ListToken { field, token: ts[0] }),
        }
    }
}

/// The result of the executable tokenizer, read at the specification level.
pub open spec fn spec_of_idents_result(r: Result<Vec<String>, ParseError>) -> Result<
    Seq<Seq<char>>,
    SpecParseError,
> {
    match r {
        Ok(ids) => Ok(ids.deep_view()),
        Err(e) => Err(e.deep_view()),
    }
}

/// Joins an already-consumed identifier prefix with the denotation of the
/// remaining tokens.
pub open spec fn join_idents(
    prefix: Seq<Seq<char>>,
    rest: Result<Seq<Seq<char>>, SpecParseError>,
) -> Result<Seq<Seq<char>>, SpecParseError> {
    match rest {
        Ok(ids) => Ok(prefix + ids),
        Err(e) => Err(e),
    }
}

/// Turns the flat token sequence inside a parenthesized group into the
/// ordered list of identifiers it denotes, or reports the first grammar
/// error, naming `field` as the context.
pub fn punctuated_idents(tokens: &Vec<InnerToken>, field: Field) -> (r: Result<
    Vec<String>,
    ParseError,
>)
    ensures
        spec_of_idents_result(r) == spec_ident_list(tokens.deep_view(), field),
{
    let ghost ts = tokens.deep_view();
    let mut ids: Vec<String> = Vec::new();
    let mut i: usize = 0;
    proof {
        assert(ts.skip(0) =~= ts);
        assert(ids.deep_view() =~= Seq::<Seq<char>>::empty());
    }
    loop
        invariant
            ts == tokens.deep_view(),
            i <= tokens.len(),
            spec_ident_list(ts, field) == join_idents(
                ids.deep_view(),
                spec_ident_list(ts.skip(i as int), field),
            ),
        decreases tokens.len() - i,
    {
        if i >= tokens.len() {
            proof {
                assert(ts.skip(i as int) =~= Seq::<SpecInnerToken>::empty());
                assert(ids.deep_view() + Seq::<Seq<char>>::empty() =~= ids.deep_view());
            }
            return Ok(ids);
        }
        match &tokens[i] {
            InnerToken::Ident(name) => {
                let ghost prev = ids.deep_view();
                ids.push(name.clone());
                proof {
                    assert(ids.deep_view() =~= prev.push(ts.skip(i as int)[0]->Ident_0));
                }
                if i + 1 >= tokens.len() {
                    proof {
                        let head = ts.skip(i as int)[0]->Ident_0;
                        assert(prev + seq![head] =~= ids.deep_view());
                    }
                    return Ok(ids);
                }
                match &tokens[i + 1] {
                    InnerToken::Sep => {
                        proof {
                            let rem = ts.skip(i as int);
                            let head = rem[0]->Ident_0;
                            assert(rem.skip(2) =~= ts.skip(i as int + 2));
                            match spec_ident_list(ts.skip(i as int + 2), field) {
                                Ok(rest) => {
                                    assert(prev + (seq![head] + rest) =~= ids.deep_view() + rest);
                                },
                                Err(_) => {},
                            }
                        }
                        i = i + 2;
                    },
                    other => {
                        return Err(ParseError::ListToken { field, token: other.duplicate() });
                    },
                }
            },
            other => {
                return Err(ParseError::ListToken { field, token: other.duplicate() });
            },
        }
    }
}

} // verus!
