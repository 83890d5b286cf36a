//! The annotation parser: a finite-state walk over one variant's annotation
//! payload, with an explicit "current field" register.
//!
//! A field name opens the matching field; the default marker records itself
//! at once and takes no payload; a parenthesized group appends its
//! identifier list to the open list field; a string literal records the
//! display override; a separator closes a field that has received its
//! payload. Every other transition is a grammar error. A variant with no
//! annotations yields default metadata: not the default variant, empty
//! platform lists, display name lowercased from the variant name.

use vstd::prelude::*;

use crate::grammar::{punctuated_idents, spec_ident_list, Field, ParseError, SpecParseError};
use crate::metadata::{SpecVariant, SpecVariantMetadata, Variant, VariantMetadata};
use crate::text::spec_lower;
use crate::token::{Delim, SpecToken, Token};

verus! {

/// The parser's state: either no field is open, or `field` is open and
/// `got` says whether it has received its payload.
#[derive(Debug, Clone, Copy, PartialEq, Eq, Structural)]
pub enum FsmState {
    NoField,
    InField { field: Field, got: bool },
}

/// The metadata gathered so far from one variant's annotation block.
/// `display` is the explicit override, if one was seen.
pub struct AnnotationAcc {
    pub is_default: bool,
    pub platform_ids: Vec<String>,
    pub primary_platform_ids: Vec<String>,
    pub display: Option<String>,
}

/// The mathematical value of an [`AnnotationAcc`].
#[verifier::ext_equal]
pub struct SpecAnnotationAcc {
    pub is_default: bool,
    pub platform_ids: Seq<Seq<char>>,
    pub primary_platform_ids: Seq<Seq<char>>,
    pub display: Option<Seq<char>>,
}

impl DeepView for AnnotationAcc {
    type V = SpecAnnotationAcc;

    open spec fn deep_view(&self) -> SpecAnnotationAcc {
        SpecAnnotationAcc {
            is_default: self.is_default,
            platform_ids: self.platform_ids.deep_view(),
            primary_platform_ids: self.primary_platform_ids.deep_view(),
            display: self.display.deep_view(),
        }
    }
}

/// The accumulator before any token has been consumed.
pub open spec fn spec_init_acc() -> SpecAnnotationAcc {
    SpecAnnotationAcc {
        is_default: false,
        platform_ids: Seq::empty(),
        primary_platform_ids: Seq::empty(),
        display: None,
    }
}

/// The field a name opens: the annotation vocabulary.
pub open spec fn spec_field_of_name(name: Seq<char>) -> Option<Field> {
    if name == "is_default_variant"@ {
        Some(Field::DefaultMarker)
    } else if name == "platform_ids"@ {
        Some(Field::PlatformList)
    } else if name == "primary_platform_ids"@ {
        Some(Field::PrimaryPlatformList)
    } else if name == "display_name"@ {
        Some(Field::DisplayLiteral)
    } else {
        None
    }
}

/// Looks a field name up in the annotation vocabulary.
pub fn field_of_name(name: &String) -> (r: Option<Field>)
    ensures
        r == spec_field_of_name(name@),
{
    if name.eq(&"is_default_variant".to_owned()) {
        Some(Field::DefaultMarker)
    } else if name.eq(&"platform_ids".to_owned()) {
        Some(Field::PlatformList)
    } else if name.eq(&"primary_platform_ids".to_owned()) {
        Some(Field::PrimaryPlatformList)
    } else if name.eq(&"display_name".to_owned()) {
        Some(Field::DisplayLiteral)
    } else {
        None
    }
}

/// `ids` appended to `acc` in order, skipping identifiers already present:
/// repeating an identifier is a no-op, not an error.
pub open spec fn spec_append_unique(acc: Seq<Seq<char>>, ids: Seq<Seq<char>>) -> Seq<Seq<char>>
    decreases ids.len(),
{
    if ids.len() == 0 {
        acc
    } else {
        let done = spec_append_unique(acc, ids.drop_last());
        if done.contains(ids.last()) {
            done
        } else {
            done.push(ids.last())
        }
    }
}

/// The accumulator with `ids` folded into the list that `field` names.
pub open spec fn spec_acc_extend(
    acc: SpecAnnotationAcc,
    field: Field,
    ids: Seq<Seq<char>>,
) -> SpecAnnotationAcc {
    if field == Field::PlatformList {
        SpecAnnotationAcc { platform_ids: spec_append_unique(acc.platform_ids, ids), ..acc }
    } else {
        SpecAnnotationAcc {
            primary_platform_ids: spec_append_unique(acc.primary_platform_ids, ids),
            ..acc
        }
    }
}

/// One transition of the finite-state walk: the accumulator and state after
/// consuming `t`, or the grammar error that `t` raises.
pub open spec fn spec_parse_step(acc: SpecAnnotationAcc, st: FsmState, t: SpecToken) -> Result<
    (SpecAnnotationAcc, FsmState),
    SpecParseError,
> {
    match st {
        FsmState::NoField => match t {
            SpecToken::Ident(name) => match spec_field_of_name(name) {
                Some(Field::DefaultMarker) => Ok(
                    (
                        SpecAnnotationAcc { is_default: true, ..acc },
                        FsmState::InField { field: Field::DefaultMarker, got: true },
                    ),
                ),
                Some(f) => Ok((acc, FsmState::InField { field: f, got: false })),
                None => Err(SpecParseError::UnknownField { name }),
            },
            SpecToken::Sep => Err(SpecParseError::SeparatorOutsideField),
            _ => Err(SpecParseError::UnexpectedToken { field: None, token: t }),
        },
        FsmState::InField { field, got } => match field {
            Field::DefaultMarker => match t {
                SpecToken::Sep => Ok((acc, FsmState::NoField)),
                _ => Err(
                    SpecParseError::UnexpectedToken { field: Some(Field::DefaultMarker), token: t },
                ),
            },
            Field::PlatformList | Field::PrimaryPlatformList => match t {
                SpecToken::Group(delim, inner) => if got {
                    Err(SpecParseError::UnexpectedToken { field: Some(field), token: t })
                } else if delim != Delim::Paren {
                    Err(SpecParseError::WrongDelimiter { field })
                } else {
                    match spec_ident_list(inner, field) {
                        Ok(ids) => Ok(
                            (
                                spec_acc_extend(acc, field, ids),
                                FsmState::InField { field, got: true },
                            ),
                        ),
                        Err(e) => Err(e),
                    }
                },
                SpecToken::Sep => if got {
                    Ok((acc, FsmState::NoField))
                } else {
                    Err(SpecParseError::DanglingSeparator { field })
                },
                _ => Err(SpecParseError::UnexpectedToken { field: Some(field), token: t }),
            },
            Field::DisplayLiteral => match t {
                SpecToken::LitStr(s) => if got {
                    Err(SpecParseError::UnexpectedToken { field: Some(field), token: t })
                } else {
                    Ok(
                        (
                            SpecAnnotationAcc { display: Some(s), ..acc },
                            FsmState::InField { field, got: true },
                        ),
                    )
                },
                SpecToken::Sep => if got {
                    Ok((acc, FsmState::NoField))
                } else {
                    Err(SpecParseError::DanglingSeparator { field })
                },
                _ => Err(SpecParseError::UnexpectedToken { field: Some(field), token: t }),
            },
        },
    }
}

/// The walk over a whole token sequence, from the initial accumulator.
pub open spec fn spec_parse_tokens(ts: Seq<SpecToken>) -> Result<
    (SpecAnnotationAcc, FsmState),
    SpecParseError,
>
    decreases ts.len(),
{
    if ts.len() == 0 {
        Ok((spec_init_acc(), FsmState::NoField))
    } else {
        match spec_parse_tokens(ts.drop_last()) {
            Ok((acc, st)) => spec_parse_step(acc, st, ts.last()),
            Err(e) => Err(e),
        }
    }
}

/// A grammar error in a prefix settles the walk of the whole sequence.
pub proof fn lemma_parse_tokens_err_extend(ts: Seq<SpecToken>, i: int)
    requires
        0 <= i <= ts.len(),
        spec_parse_tokens(ts.take(i)) is Err,
    ensures
        spec_parse_tokens(ts) == spec_parse_tokens(ts.take(i)),
    decreases ts.len(),
{
    if i == ts.len() {
        assert(ts.take(i) =~= ts);
    } else {
        assert(ts.drop_last().take(i) =~= ts.take(i));
        lemma_parse_tokens_err_extend(ts.drop_last(), i);
    }
}

/// The end of the walk: a still-open field that never received its payload
/// is an error; otherwise the display override (or the lowercased variant
/// name) completes the metadata.
pub open spec fn spec_finish(
    name: Seq<char>,
    acc: SpecAnnotationAcc,
    st: FsmState,
) -> Result<SpecVariantMetadata, SpecParseError> {
    match st {
        FsmState::InField { field, got: false } => Err(SpecParseError::MissingPayload { field }),
        _ => Ok(
            SpecVariantMetadata {
                is_default: acc.is_default,
                platform_ids: acc.platform_ids,
                primary_platform_ids: acc.primary_platform_ids,
                display_name: match acc.display {
                    Some(s) => s,
                    None => spec_lower(name),
                },
            },
        ),
    }
}

/// The metadata one variant's annotation block denotes, or its first
/// grammar error. Opaque: callers reason through it by name; only the
/// parser itself and the display-resolution law look inside.
#[verifier::opaque]
pub open spec fn spec_parse_variant(v: SpecVariant) -> Result<
    SpecVariantMetadata,
    SpecParseError,
> {
    match spec_parse_tokens(v.annotation) {
        Ok((acc, st)) => spec_finish(v.name, acc, st),
        Err(e) => Err(e),
    }
}

/// The result of the executable parser, read at the specification level.
pub open spec fn spec_of_variant_result(r: Result<VariantMetadata, ParseError>) -> Result<
    SpecVariantMetadata,
    SpecParseError,
> {
    match r {
        Ok(md) => Ok(md.deep_view()),
        Err(e) => Err(e.deep_view()),
    }
}

/// `list` contains a string with the value of `s`.
pub fn contains_string(list: &Vec<String>, s: &String) -> (r: bool)
    ensures
        r == list.deep_view().contains(s@),
{
    let mut k: usize = 0;
    while k < list.len()
        invariant
            k <= list.len(),
            forall|m: int| 0 <= m < k ==> list.deep_view()[m] != s@,
        decreases list.len() - k,
    {
        if list[k].eq(s) {
            proof {
                assert(list.deep_view()[k as int] == s@);
            }
            return true;
        }
        k = k + 1;
    }
    false
}

/// Appends `ids` to `list` in order, skipping values already present.
pub fn append_unique(list: &mut Vec<String>, ids: Vec<String>)
    ensures
        final(list).deep_view() == spec_append_unique(old(list).deep_view(), ids.deep_view()),
{
    let ghost base = old(list).deep_view();
    let ghost idsv = ids.deep_view();
    let mut j: usize = 0;
    proof {
        assert(idsv.take(0) =~= Seq::<Seq<char>>::empty());
    }
    while j < ids.len()
        invariant
            j <= ids.len(),
            idsv == ids.deep_view(),
            base == old(list).deep_view(),
            list.deep_view() == spec_append_unique(base, idsv.take(j as int)),
        decreases ids.len() - j,
    {
        let ghost before = list.deep_view();
        let s = ids[j].clone();
        proof {
            assert(s@ == idsv[j as int]);
            assert(idsv.take(j as int + 1).drop_last() =~= idsv.take(j as int));
            assert(idsv.take(j as int + 1).last() == idsv[j as int]);
        }
        if !contains_string(list, &s) {
            list.push(s);
            proof {
                assert(list.deep_view() =~= before.push(idsv[j as int]));
            }
        }
        j = j + 1;
    }
    proof {
        assert(idsv.take(ids.len() as int) =~= idsv);
    }
}

/// One executable transition of the walk: consumes `t`, updating the
/// accumulator and returning the next state, or reports the grammar error
/// without touching the accumulator.
fn parse_step(acc: &mut AnnotationAcc, st: FsmState, t: &Token) -> (r: Result<
    FsmState,
    ParseError,
>)
    ensures
        match r {
            Ok(st2) => spec_parse_step(old(acc).deep_view(), st, t.deep_view()) == Ok::<
                _,
                SpecParseError,
            >((final(acc).deep_view(), st2)),
            Err(e) => spec_parse_step(old(acc).deep_view(), st, t.deep_view()) == Err::<
                (SpecAnnotationAcc, FsmState),
                _,
            >(e.deep_view()) && final(acc).deep_view() == old(acc).deep_view(),
        },
{
    match st {
        FsmState::NoField => match t {
            Token::Ident(name) => match field_of_name(name) {
                Some(Field::DefaultMarker) => {
                    acc.is_default = true;
                    proof {
                        assert(acc.deep_view() =~~= (SpecAnnotationAcc {
                            is_default: true,
                            ..old(acc).deep_view()
                        }));
                    }
                    Ok(FsmState::InField { field: Field::DefaultMarker, got: true })
                },
                Some(f) => Ok(FsmState::InField { field: f, got: false }),
                None => Err(ParseError::UnknownField { name: name.clone() }),
            },
            Token::Sep => Err(ParseError::SeparatorOutsideField),
            other => Err(ParseError::UnexpectedToken { field: None, token: other.duplicate() }),
        },
        FsmState::InField { field, got } => match field {
            Field::DefaultMarker => match t {
                Token::Sep => Ok(FsmState::NoField),
                other => Err(
                    ParseError::UnexpectedToken {
                        field: Some(Field::DefaultMarker),
                        token: other.duplicate(),
                    },
                ),
            },
            Field::PlatformList | Field::PrimaryPlatformList => match t {
                Token::Group(delim, inner) => {
                    if got {
                        return Err(
                            ParseError::UnexpectedToken {
                                field: Some(field),
                                token: t.duplicate(),
                            },
                        );
                    }
                    if *delim != Delim::Paren {
                        return Err(ParseError::WrongDelimiter { field });
                    }
                    let ids = match punctuated_idents(inner, field) {
                        Ok(ids) => ids,
                        Err(e) => {
                            return Err(e);
                        },
                    };
                    let ghost accv = acc.deep_view();
                    let ghost idsv = ids.deep_view();
                    if matches!(field, Field::PlatformList) {
                        append_unique(&mut acc.platform_ids, ids);
                    } else {
                        append_unique(&mut acc.primary_platform_ids, ids);
                    }
                    proof {
                        assert(acc.deep_view() =~~= spec_acc_extend(accv, field, idsv));
                    }
                    Ok(FsmState::InField { field, got: true })
                },
                Token::Sep => {
                    if got {
                        Ok(FsmState::NoField)
                    } else {
                        Err(ParseError::DanglingSeparator { field })
                    }
                },
                other => Err(
                    ParseError::UnexpectedToken { field: Some(field), token: other.duplicate() },
                ),
            },
            Field::DisplayLiteral => match t {
                Token::LitStr(s) => {
                    if got {
                        return Err(
                            ParseError::UnexpectedToken {
                                field: Some(field),
                                token: t.duplicate(),
                            },
                        );
                    }
                    acc.display = Some(s.clone());
                    proof {
                        assert(acc.deep_view() =~~= (SpecAnnotationAcc {
                            display: Some(s@),
                            ..old(acc).deep_view()
                        }));
                    }
                    Ok(FsmState::InField { field, got: true })
                },
                Token::Sep => {
                    if got {
                        Ok(FsmState::NoField)
                    } else {
                        Err(ParseError::DanglingSeparator { field })
                    }
                },
                other => Err(
                    ParseError::UnexpectedToken { field: Some(field), token: other.duplicate() },
                ),
            },
        },
    }
}

/// Parses one variant's annotation block into its structured metadata, or
/// reports the first grammar error; compilation of the whole type stops
/// there.
pub fn parse_variant(v: &Variant) -> (r: Result<VariantMetadata, ParseError>)
    ensures
        spec_of_variant_result(r) == spec_parse_variant(v.deep_view()),
{
    proof {
        reveal(spec_parse_variant);
    }
    let ghost ts = v.annotation.deep_view();
    let mut acc = AnnotationAcc {
        is_default: false,
        platform_ids: Vec::new(),
        primary_platform_ids: Vec::new(),
        display: None,
    };
    let mut st = FsmState::NoField;
    let mut i: usize = 0;
    proof {
        assert(ts.take(0) =~= Seq::<SpecToken>::empty());
        assert(acc.deep_view() =~~= spec_init_acc());
    }
    while i < v.annotation.len()
        invariant
            ts == v.annotation.deep_view(),
            i <= v.annotation.len(),
            spec_parse_tokens(ts.take(i as int)) == Ok::<_, SpecParseError>((acc.deep_view(), st)),
        decreases v.annotation.len() - i,
    {
        proof {
            assert(ts.take(i as int + 1).drop_last() =~= ts.take(i as int));
            assert(ts.take(i as int + 1).last() == ts[i as int]);
        }
        match parse_step(&mut acc, st, &v.annotation[i]) {
            Ok(st2) => {
                st = st2;
            },
            Err(e) => {
                proof {
                    reveal(spec_parse_variant);
                    lemma_parse_tokens_err_extend(ts, i as int + 1);
                }
                return Err(e);
            },
        }
        i = i + 1;
    }
    proof {
        reveal(spec_parse_variant);
        assert(ts.take(v.annotation.len() as int) =~= ts);
    }
    match st {
        FsmState::InField { field, got: false } => Err(ParseError::MissingPayload { field }),
        _ => {
            let AnnotationAcc { is_default, platform_ids, primary_platform_ids, display } = acc;
            let display_name = match display {
                Some(s) => s,
                None => v.name.as_str().to_ascii_lowercase(),
            };
            Ok(VariantMetadata { is_default, platform_ids, primary_platform_ids, display_name })
        },
    }
}

} // verus!
