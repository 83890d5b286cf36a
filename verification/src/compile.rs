//! The metadata aggregator: parses every variant of a type definition and
//! folds the results into validated [`TypeMetadata`].
//!
//! Validation is strict: a grammar error in any variant, a missing default
//! marker, more than one default marker, a primary platform that the same
//! variant does not declare as applicable, and a platform declared primary
//! by two variants each abort compilation of the whole type; no artifact is
//! produced. Rejecting duplicate markers and duplicate primaries keeps the
//! fold order-independent, so equal definitions compile to equal metadata.

use vstd::prelude::*;

use crate::grammar::{ParseError, SpecParseError};
use crate::metadata::{
    SpecTypeDefinition, SpecTypeMetadata, SpecVariant, SpecVariantMetadata, TypeDefinition,
    TypeMetadata, VariantMetadata,
};
use crate::parse::{contains_string, parse_variant, spec_parse_variant};

verus! {

/// Why a type definition was rejected. Grammar errors name the variant and
/// carry the error; the semantic errors name what clashed.
#[derive(Debug, Clone, PartialEq, Eq)]
pub enum CompileError {
    /// A grammar error in the named variant's annotation block.
    Annotation { variant: String, error: ParseError },
    /// No variant carries the default marker.
    MissingDefault,
    /// More than one variant carries the default marker.
    MultipleDefaults,
    /// The named variant declares a primary platform outside its own
    /// platform list.
    PrimaryNotApplicable { variant: String, platform: String },
    /// Two variants declare the same platform as primary.
    DuplicatePrimary { platform: String },
}

/// The mathematical value of a [`CompileError`].
pub enum SpecCompileError {
    Annotation { variant: Seq<char>, error: SpecParseError },
    MissingDefault,
    MultipleDefaults,
    PrimaryNotApplicable { variant: Seq<char>, platform: Seq<char> },
    DuplicatePrimary { platform: Seq<char> },
}

impl DeepView for CompileError {
    type V = SpecCompileError;

    open spec fn deep_view(&self) -> SpecCompileError {
        match self {
            CompileError::Annotation { variant, error } => SpecCompileError::Annotation {
                variant: variant@,
                error: error.deep_view(),
            },
            CompileError::MissingDefault => SpecCompileError::MissingDefault,
            CompileError::MultipleDefaults => SpecCompileError::MultipleDefaults,
            CompileError::PrimaryNotApplicable { variant, platform } => {
                SpecCompileError::PrimaryNotApplicable { variant: variant@, platform: platform@ }
            },
            CompileError::DuplicatePrimary { platform } => SpecCompileError::DuplicatePrimary {
                platform: platform@,
            },
        }
    }
}

/// Variant `i` parses without a grammar error.
pub open spec fn parse_ok_at(vs: Seq<SpecVariant>, i: int) -> bool {
    spec_parse_variant(vs[i]) is Ok
}

/// The metadata of variant `i` (meaningful when it parses).
pub open spec fn spec_md(vs: Seq<SpecVariant>, i: int) -> SpecVariantMetadata {
    spec_parse_variant(vs[i])->Ok_0
}

/// Every variant parses without a grammar error.
pub open spec fn all_parse_ok(vs: Seq<SpecVariant>) -> bool {
    forall|i: int| 0 <= i < vs.len() ==> #[trigger] parse_ok_at(vs, i)
}

/// Variant `i` parses and carries the default marker.
pub open spec fn is_default_at(vs: Seq<SpecVariant>, i: int) -> bool {
    0 <= i < vs.len() && parse_ok_at(vs, i) && spec_md(vs, i).is_default
}

/// Exactly one variant carries the default marker.
pub open spec fn unique_default(vs: Seq<SpecVariant>) -> bool {
    exists|i: int|
        #[trigger] is_default_at(vs, i) && forall|j: int| is_default_at(vs, j) ==> j == i
}

/// Every primary platform of every variant is among that variant's declared
/// platforms.
pub open spec fn primaries_applicable(vs: Seq<SpecVariant>) -> bool {
    forall|i: int, p: Seq<char>|
        0 <= i < vs.len() && #[trigger] spec_md(vs, i).primary_platform_ids.contains(p)
            ==> spec_md(vs, i).platform_ids.contains(p)
}

/// No platform is declared primary by two variants.
pub open spec fn primaries_unique(vs: Seq<SpecVariant>) -> bool {
    forall|i: int, j: int, p: Seq<char>|
        0 <= i < vs.len() && 0 <= j < vs.len() && i != j && #[trigger] spec_md(
            vs,
            i,
        ).primary_platform_ids.contains(p) ==> !(#[trigger] spec_md(
            vs,
            j,
        ).primary_platform_ids.contains(p))
}

/// The whole acceptance condition: a definition compiles exactly when every
/// variant parses and the three semantic rules hold.
pub open spec fn spec_compiles(d: SpecTypeDefinition) -> bool {
    &&& all_parse_ok(d.variants)
    &&& unique_default(d.variants)
    &&& primaries_applicable(d.variants)
    &&& primaries_unique(d.variants)
}

/// The metadata a definition compiles to: the parsed metadata of each
/// variant in declaration order, the variant names, and the index of the
/// (unique) default variant.
pub open spec fn spec_compiled(d: SpecTypeDefinition, m: SpecTypeMetadata) -> bool {
    &&& m.variant_names == d.variants.map_values(|v: SpecVariant| v.name)
    &&& m.variants == Seq::new(d.variants.len(), |i: int| spec_md(d.variants, i))
    &&& is_default_at(d.variants, m.default_index)
}

/// A grammar error rejects the definition: some variant is the first that
/// fails to parse, and `variant` and `error` name it.
pub open spec fn rejects_annotation(
    vs: Seq<SpecVariant>,
    variant: Seq<char>,
    error: SpecParseError,
) -> bool {
    exists|i: int|
        0 <= i < vs.len() && (#[trigger] spec_parse_variant(vs[i])) == Err::<
            SpecVariantMetadata,
            _,
        >(error) && vs[i].name == variant && (forall|j: int| 0 <= j < i ==> parse_ok_at(vs, j))
}

/// Everything parses, but no variant carries the default marker.
pub open spec fn rejects_missing_default(vs: Seq<SpecVariant>) -> bool {
    all_parse_ok(vs) && (forall|i: int| !is_default_at(vs, i))
}

/// Everything parses, but two variants carry the default marker.
pub open spec fn rejects_multiple_defaults(vs: Seq<SpecVariant>) -> bool {
    all_parse_ok(vs) && (exists|i: int, j: int|
        i != j && #[trigger] is_default_at(vs, i) && #[trigger] is_default_at(vs, j))
}

/// The earlier checks pass, but the named variant declares `platform` as
/// primary without declaring it applicable.
pub open spec fn rejects_primary_not_applicable(
    vs: Seq<SpecVariant>,
    variant: Seq<char>,
    platform: Seq<char>,
) -> bool {
    &&& all_parse_ok(vs)
    &&& unique_default(vs)
    &&& exists|i: int|
        0 <= i < vs.len() && (#[trigger] vs[i].name) == variant && spec_md(
            vs,
            i,
        ).primary_platform_ids.contains(platform) && !spec_md(vs, i).platform_ids.contains(
            platform,
        )
}

/// The earlier checks pass, but two variants declare `platform` as primary.
pub open spec fn rejects_duplicate_primary(vs: Seq<SpecVariant>, platform: Seq<char>) -> bool {
    &&& all_parse_ok(vs)
    &&& unique_default(vs)
    &&& primaries_applicable(vs)
    &&& exists|i: int, j: int|
        i != j && #[trigger] spec_md(vs, i).primary_platform_ids.contains(platform)
            && #[trigger] spec_md(vs, j).primary_platform_ids.contains(platform)
}

/// Which error rejects a definition: the checks run in this order, and the
/// first that fails is reported. Its witnesses are genuine: the named
/// variant is the first failing one for grammar errors, and the named
/// platform and variant exhibit the semantic clash.
pub open spec fn spec_rejected_with(d: SpecTypeDefinition, e: SpecCompileError) -> bool {
    match e {
        SpecCompileError::Annotation { variant, error } => rejects_annotation(
            d.variants,
            variant,
            error,
        ),
        SpecCompileError::MissingDefault => rejects_missing_default(d.variants),
        SpecCompileError::MultipleDefaults => rejects_multiple_defaults(d.variants),
        SpecCompileError::PrimaryNotApplicable { variant, platform } => {
            rejects_primary_not_applicable(d.variants, variant, platform)
        },
        SpecCompileError::DuplicatePrimary { platform } => rejects_duplicate_primary(
            d.variants,
            platform,
        ),
    }
}

/// Two distinct variants declaring the same primary platform reject the
/// definition with the duplicate-primary error once the earlier checks have
/// passed.
proof fn lemma_rejected_duplicate(d: SpecTypeDefinition, a: int, b: int, platform: Seq<char>)
    requires
        all_parse_ok(d.variants),
        unique_default(d.variants),
        primaries_applicable(d.variants),
        0 <= a < d.variants.len(),
        0 <= b < d.variants.len(),
        a != b,
        spec_md(d.variants, a).primary_platform_ids.contains(platform),
        spec_md(d.variants, b).primary_platform_ids.contains(platform),
    ensures
        spec_rejected_with(d, SpecCompileError::DuplicatePrimary { platform }),
        !primaries_unique(d.variants),
{
    let vs = d.variants;
    assert(exists|i: int, j: int|
        i != j && #[trigger] spec_md(vs, i).primary_platform_ids.contains(platform)
            && #[trigger] spec_md(vs, j).primary_platform_ids.contains(platform));
    assert(rejects_duplicate_primary(vs, platform));
}

/// Pairwise distinctness of primaries checked in index order gives the
/// symmetric statement.
proof fn lemma_primaries_unique_from_ordered(vs: Seq<SpecVariant>)
    requires
        forall|m: int, j: int, p: Seq<char>|
            0 <= m < vs.len() && m < j < vs.len() && #[trigger] spec_md(
                vs,
                m,
            ).primary_platform_ids.contains(p) ==> !(#[trigger] spec_md(
                vs,
                j,
            ).primary_platform_ids.contains(p)),
    ensures
        primaries_unique(vs),
{
    assert forall|m: int, j: int, p: Seq<char>|
        0 <= m < vs.len() && 0 <= j < vs.len() && m != j && #[trigger] spec_md(
            vs,
            m,
        ).primary_platform_ids.contains(p) implies !(#[trigger] spec_md(
        vs,
        j,
    ).primary_platform_ids.contains(p)) by {
        if m < j {
        } else {
            if spec_md(vs, j).primary_platform_ids.contains(p) {
                assert(!spec_md(vs, m).primary_platform_ids.contains(p));
            }
        }
    }
}

/// A validated aggregate is well formed and is the compiled metadata of its
/// definition, which then satisfies the whole acceptance condition.
proof fn lemma_aggregate_ok(d: SpecTypeDefinition, rm: SpecTypeMetadata)
    requires
        all_parse_ok(d.variants),
        is_default_at(d.variants, rm.default_index),
        forall|m: int| is_default_at(d.variants, m) ==> m == rm.default_index,
        primaries_applicable(d.variants),
        primaries_unique(d.variants),
        rm.variant_names == d.variants.map_values(|v: SpecVariant| v.name),
        rm.variants == Seq::new(d.variants.len(), |i: int| spec_md(d.variants, i)),
    ensures
        rm.wf(),
        spec_compiled(d, rm),
        spec_compiles(d),
{
    let vs = d.variants;
    assert(rm.variants[rm.default_index].is_default) by {
        assert(rm.variants[rm.default_index] == spec_md(vs, rm.default_index));
    }
    assert forall|i: int|
        0 <= i < rm.len() && i != rm.default_index implies !(#[trigger] rm.variants[i]).is_default by {
        assert(rm.variants[i] == spec_md(vs, i));
        assert(!is_default_at(vs, i));
    }
    assert forall|i: int, p: Seq<char>| #[trigger]
        rm.declares_primary(i, p) implies rm.declares(i, p) by {
        assert(rm.variants[i] == spec_md(vs, i));
    }
    assert forall|i: int, j: int, p: Seq<char>|
        #[trigger] rm.declares_primary(i, p) && #[trigger] rm.declares_primary(
            j,
            p,
        ) implies i == j by {
        if i != j {
            assert(rm.variants[i] == spec_md(vs, i));
            assert(rm.variants[j] == spec_md(vs, j));
        }
    }
    assert(unique_default(vs));
}

/// The first variant at or after `start` that carries the default marker.
fn first_default_from(mds: &Vec<VariantMetadata>, start: usize) -> (r: Option<usize>)
    requires
        start <= mds.len(),
    ensures
        r matches Some(di) ==> start <= di < mds.len() && (#[trigger] mds.deep_view()[
            di as int
        ]).is_default && (forall|m: int|
            start <= m < di ==> !(#[trigger] mds.deep_view()[m]).is_default),
        r is None ==> forall|m: int|
            start <= m < mds.len() ==> !(#[trigger] mds.deep_view()[m]).is_default,
{
    let mut k: usize = start;
    while k < mds.len()
        invariant
            start <= k <= mds.len(),
            forall|m: int| start <= m < k ==> !(#[trigger] mds.deep_view()[m]).is_default,
        decreases mds.len() - k,
    {
        if mds[k].is_default {
            return Some(k);
        }
        k = k + 1;
    }
    None
}

#[verifier::rlimit(100)]
pub fn compile(def: &TypeDefinition) -> (r: Result<TypeMetadata, CompileError>)
    ensures
        r is Ok <==> spec_compiles(def.deep_view()),
        r matches Ok(m) ==> m.deep_view().wf() && spec_compiled(def.deep_view(), m.deep_view()),
        r matches Err(e) ==> spec_rejected_with(def.deep_view(), e.deep_view()),
{
    let ghost d = def.deep_view();
    let ghost vs = d.variants;
    let n = def.variants.len();

    let mut mds: Vec<VariantMetadata> = Vec::new();
    let mut names: Vec<String> = Vec::new();
    let mut i: usize = 0;
    while i < n
        invariant
            vs == def.deep_view().variants,
            n == def.variants.len(),
            i <= n,
            mds.len() == i,
            names.len() == i,
            forall|k: int| 0 <= k < i ==> #[trigger] parse_ok_at(vs, k),
            forall|k: int| 0 <= k < i ==> mds.deep_view()[k] == spec_md(vs, k),
            forall|k: int| 0 <= k < i ==> names.deep_view()[k] == vs[k].name,
        decreases n - i,
    {
        proof {
            assert(def.variants[i as int].deep_view() == vs[i as int]);
        }
        match parse_variant(&def.variants[i]) {
            Ok(md) => {
                let ghost mdv = md.deep_view();
                let ghost mds_prev = mds.deep_view();
                let ghost names_prev = names.deep_view();
                let nm = def.variants[i].name.clone();
                mds.push(md);
                names.push(nm);
                proof {
                    assert(parse_ok_at(vs, i as int));
                    assert forall|k: int| 0 <= k < i + 1 implies mds.deep_view()[k] == spec_md(
                        vs,
                        k,
                    ) by {
                        if k < i {
                            assert(mds.deep_view()[k] == mds_prev[k]);
                        } else {
                            assert(mds.deep_view()[i as int] == mdv);
                            assert(mdv == spec_md(vs, i as int));
                        }
                    }
                    assert forall|k: int| 0 <= k < i + 1 implies names.deep_view()[k] == vs[k].name by {
                        if k < i {
                            assert(names.deep_view()[k] == names_prev[k]);
                        } else {
                            assert(names.deep_view()[i as int] == nm@);
                        }
                    }
                }
            },
            Err(e) => {
                proof {
                    assert(spec_parse_variant(vs[i as int]) == Err::<SpecVariantMetadata, _>(
                        e.deep_view(),
                    ));
                    assert(!parse_ok_at(vs, i as int));
                    assert(!all_parse_ok(vs));
                }
                return Err(
                    CompileError::Annotation {
                        variant: def.variants[i].name.clone(),
                        error: e,
                    },
                );
            },
        }
        i = i + 1;
    }

    let default_index: usize;
    match first_default_from(&mds, 0) {
        Some(di) => {
            match first_default_from(&mds, di + 1) {
                Some(dj) => {
                    proof {
                        assert(mds.deep_view()[di as int] == spec_md(vs, di as int));
                        assert(is_default_at(vs, di as int));
                        assert(mds.deep_view()[dj as int] == spec_md(vs, dj as int));
                        assert(is_default_at(vs, dj as int));
                        assert(di != dj);
                        assert(!unique_default(vs));
                    }
                    return Err(CompileError::MultipleDefaults);
                },
                None => {
                    default_index = di;
                },
            }
        },
        None => {
            proof {
                assert forall|m: int| !is_default_at(vs, m) by {
                    if 0 <= m < n {
                        assert(mds.deep_view()[m] == spec_md(vs, m));
                        assert(!mds.deep_view()[m].is_default);
                    }
                }
                assert(!unique_default(vs));
            }
            return Err(CompileError::MissingDefault);
        },
    }
    proof {
        assert(mds.deep_view()[default_index as int] == spec_md(vs, default_index as int));
        assert(is_default_at(vs, default_index as int));
        assert forall|m: int| is_default_at(vs, m) implies m == default_index as int by {
            if 0 <= m < n && m != default_index {
                assert(mds.deep_view()[m] == spec_md(vs, m));
                assert(!mds.deep_view()[m].is_default);
            }
        }
        assert(unique_default(vs));
    }

    let mut i2: usize = 0;
    while i2 < n
        invariant
            vs == def.deep_view().variants,
            n == def.variants.len(),
            i2 <= n,
            mds.len() == n,
            names.len() == n,
            all_parse_ok(vs),
            is_default_at(vs, default_index as int),
            forall|m: int| is_default_at(vs, m) ==> m == default_index as int,
            unique_default(vs),
            forall|m: int| 0 <= m < n ==> mds.deep_view()[m] == spec_md(vs, m),
            forall|m: int| 0 <= m < n ==> names.deep_view()[m] == vs[m].name,
            forall|m: int, p: Seq<char>|
                0 <= m < i2 && #[trigger] spec_md(vs, m).primary_platform_ids.contains(p)
                    ==> spec_md(vs, m).platform_ids.contains(p),
        decreases n - i2,
    {
        let mut q: usize = 0;
        while q < mds[i2].primary_platform_ids.len()
            invariant
                vs == def.deep_view().variants,
                n == def.variants.len(),
                i2 < n,
                mds.len() == n,
                names.len() == n,
                all_parse_ok(vs),
                unique_default(vs),
                forall|m: int| 0 <= m < n ==> mds.deep_view()[m] == spec_md(vs, m),
                forall|m: int| 0 <= m < n ==> names.deep_view()[m] == vs[m].name,
                q <= mds[i2 as int].primary_platform_ids.len(),
                forall|t: int|
                    0 <= t < q ==> spec_md(vs, i2 as int).platform_ids.contains(
                        #[trigger] spec_md(vs, i2 as int).primary_platform_ids[t],
                    ),
            decreases mds[i2 as int].primary_platform_ids.len() - q,
        {
            let p = mds[i2].primary_platform_ids[q].clone();
            proof {
                assert(mds.deep_view()[i2 as int] == spec_md(vs, i2 as int));
                assert(p@ == spec_md(vs, i2 as int).primary_platform_ids[q as int]);
                assert(spec_md(vs, i2 as int).primary_platform_ids.contains(p@));
            }
            if !contains_string(&mds[i2].platform_ids, &p) {
                let variant = names[i2].clone();
                proof {
                    assert(!spec_md(vs, i2 as int).platform_ids.contains(p@));
                    assert(names.deep_view()[i2 as int] == vs[i2 as int].name);
                    assert(variant@ == names.deep_view()[i2 as int]);
                    assert(vs[i2 as int].name == variant@);
                    assert(!primaries_applicable(vs));
                }
                return Err(CompileError::PrimaryNotApplicable { variant, platform: p });
            }
            q = q + 1;
        }
        proof {
            assert forall|p: Seq<char>|
                #[trigger] spec_md(vs, i2 as int).primary_platform_ids.contains(p) implies spec_md(
                vs,
                i2 as int,
            ).platform_ids.contains(p) by {
                let t = choose|t: int|
                    0 <= t < spec_md(vs, i2 as int).primary_platform_ids.len() && spec_md(
                        vs,
                        i2 as int,
                    ).primary_platform_ids[t] == p;
                assert(spec_md(vs, i2 as int).platform_ids.contains(
                    spec_md(vs, i2 as int).primary_platform_ids[t],
                ));
            }
        }
        i2 = i2 + 1;
    }

    let mut i3: usize = 0;
    while i3 < n
        invariant
            vs == def.deep_view().variants,
            n == def.variants.len(),
            i3 <= n,
            mds.len() == n,
            names.len() == n,
            all_parse_ok(vs),
            is_default_at(vs, default_index as int),
            forall|m: int| is_default_at(vs, m) ==> m == default_index as int,
            unique_default(vs),
            primaries_applicable(vs),
            forall|m: int| 0 <= m < n ==> mds.deep_view()[m] == spec_md(vs, m),
            forall|m: int| 0 <= m < n ==> names.deep_view()[m] == vs[m].name,
            forall|m: int, j: int, p: Seq<char>|
                0 <= m < i3 && m < j < n && #[trigger] spec_md(vs, m).primary_platform_ids.contains(
                    p,
                ) ==> !(#[trigger] spec_md(vs, j).primary_platform_ids.contains(p)),
        decreases n - i3,
    {
        let mut q: usize = 0;
        while q < mds[i3].primary_platform_ids.len()
            invariant
                vs == def.deep_view().variants,
                n == def.variants.len(),
                i3 < n,
                mds.len() == n,
                all_parse_ok(vs),
                unique_default(vs),
                primaries_applicable(vs),
                forall|m: int| 0 <= m < n ==> mds.deep_view()[m] == spec_md(vs, m),
                q <= mds[i3 as int].primary_platform_ids.len(),
                forall|t: int, j: int|
                    #![trigger spec_md(vs, j).primary_platform_ids.contains(spec_md(vs, i3 as int).primary_platform_ids[t])]
                    0 <= t < q && i3 < j < n ==> !spec_md(vs, j).primary_platform_ids.contains(
                        spec_md(vs, i3 as int).primary_platform_ids[t],
                    ),
            decreases mds[i3 as int].primary_platform_ids.len() - q,
        {
            let p = mds[i3].primary_platform_ids[q].clone();
            proof {
                assert(mds.deep_view()[i3 as int] == spec_md(vs, i3 as int));
                assert(p@ == spec_md(vs, i3 as int).primary_platform_ids[q as int]);
                assert(spec_md(vs, i3 as int).primary_platform_ids.contains(p@));
            }
            let mut j: usize = i3 + 1;
            while j < n
                invariant
                    vs == def.deep_view().variants,
                    n == def.variants.len(),
                    i3 < n,
                    i3 < j,
                    j <= n,
                    mds.len() == n,
                    all_parse_ok(vs),
                    unique_default(vs),
                    primaries_applicable(vs),
                    forall|m: int| 0 <= m < n ==> mds.deep_view()[m] == spec_md(vs, m),
                    q < spec_md(vs, i3 as int).primary_platform_ids.len(),
                    p@ == spec_md(vs, i3 as int).primary_platform_ids[q as int],
                    forall|m: int|
                        i3 < m < j ==> !(#[trigger] spec_md(vs, m).primary_platform_ids.contains(
                            p@,
                        )),
                decreases n - j,
            {
                if contains_string(&mds[j].primary_platform_ids, &p) {
                    proof {
                        assert(mds.deep_view()[j as int] == spec_md(vs, j as int));
                        assert(spec_md(vs, j as int).primary_platform_ids.contains(p@));
                        assert(spec_md(vs, i3 as int).primary_platform_ids.contains(p@));
                        lemma_rejected_duplicate(def.deep_view(), i3 as int, j as int, p@);
                    }
                    return Err(CompileError::DuplicatePrimary { platform: p });
                }
                j = j + 1;
            }
            q = q + 1;
        }
        proof {
            assert forall|j: int, p: Seq<char>|
                i3 < j < n && #[trigger] spec_md(vs, i3 as int).primary_platform_ids.contains(
                    p,
                ) implies !(#[trigger] spec_md(vs, j).primary_platform_ids.contains(p)) by {
                let t = choose|t: int|
                    0 <= t < spec_md(vs, i3 as int).primary_platform_ids.len() && spec_md(
                        vs,
                        i3 as int,
                    ).primary_platform_ids[t] == p;
                assert(!spec_md(vs, j).primary_platform_ids.contains(
                    spec_md(vs, i3 as int).primary_platform_ids[t],
                ));
            }
        }
        i3 = i3 + 1;
    }

    let result = TypeMetadata { variant_names: names, variants: mds, default_index };
    proof {
        lemma_primaries_unique_from_ordered(vs);
        let rm = result.deep_view();
        assert(rm.variants =~= Seq::new(vs.len(), |i: int| spec_md(vs, i)));
        assert(rm.variant_names =~= vs.map_values(|v: SpecVariant| v.name));
        lemma_aggregate_ok(def.deep_view(), rm);
    }
    Ok(result)
}

} // verus!
