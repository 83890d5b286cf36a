//! The laws of the compiler: properties that hold of every compiled type
//! definition, stated over the specification model and proved once and for
//! all.

use vstd::prelude::*;

use crate::compile::{
    all_parse_ok, is_default_at, spec_compiled, spec_compiles, spec_md, spec_rejected_with,
    SpecCompileError,
};
use crate::metadata::{SpecTypeDefinition, SpecTypeMetadata, SpecVariant, SpecVariantMetadata};
use crate::parse::{spec_parse_tokens, spec_parse_variant};
use crate::text::spec_lower;

verus! {

/// The default artifact returns the marked variant: in compiled metadata
/// the default index points at the variant whose annotations carry the
/// default marker, and at no other.
pub proof fn lemma_default_is_marked(d: SpecTypeDefinition, m: SpecTypeMetadata)
    requires
        spec_compiled(d, m),
        m.wf(),
    ensures
        spec_md(d.variants, m.default_index).is_default,
        forall|i: int| is_default_at(d.variants, i) ==> i == m.default_index,
{
    assert(m.variants[m.default_index] == spec_md(d.variants, m.default_index));
    assert forall|i: int| is_default_at(d.variants, i) implies i == m.default_index by {
        if i != m.default_index {
            assert(m.variants[i] == spec_md(d.variants, i));
            assert(!m.variants[i].is_default);
        }
    }
}

/// Display resolution: a variant's display name is the explicit override
/// recorded by its annotations when one was given, else the lowercased
/// variant name.
pub proof fn lemma_display_resolution(v: SpecVariant, md: SpecVariantMetadata)
    requires
        spec_parse_variant(v) == Ok::<SpecVariantMetadata, crate::grammar::SpecParseError>(md),
    ensures
        spec_parse_tokens(v.annotation) is Ok,
        md.display_name == (match spec_parse_tokens(v.annotation)->Ok_0.0.display {
            Some(s) => s,
            None => spec_lower(v.name),
        }),
{
    reveal(spec_parse_variant);
}

/// Membership is exactly declaration: a variant belongs to a platform's
/// applicable set if and only if its annotations declare that platform.
pub proof fn lemma_applicable_iff_declared(
    d: SpecTypeDefinition,
    m: SpecTypeMetadata,
    p: Seq<char>,
    i: int,
)
    requires
        spec_compiled(d, m),
        0 <= i < d.variants.len(),
    ensures
        m.membership(p).contains(i) <==> spec_md(d.variants, i).platform_ids.contains(p),
{
    assert(m.variants[i] == spec_md(d.variants, i));
}

/// A primary choice is an applicable choice: wherever the primary artifact
/// does not fall back to the default variant, its answer is a member of the
/// platform's applicable set.
pub proof fn lemma_primary_is_applicable(m: SpecTypeMetadata, p: Seq<char>)
    requires
        m.wf(),
    ensures
        m.has_primary(p) ==> m.membership(p).contains(m.primary_for(p)),
        m.primary_for(p) != m.default_index ==> m.membership(p).contains(m.primary_for(p)),
{
    if m.has_primary(p) {
        let i = m.primary_index(p);
        assert(m.declares_primary(i, p));
        assert(m.declares(i, p));
    }
}

/// Reproducibility: one definition compiles to one metadata value. Since
/// duplicate default markers and duplicate primary declarations are
/// rejected rather than resolved by fold order, equal definitions yield
/// equal names, variants, display entries, membership and primary maps.
pub proof fn lemma_compile_reproducible(
    d: SpecTypeDefinition,
    m1: SpecTypeMetadata,
    m2: SpecTypeMetadata,
)
    requires
        spec_compiled(d, m1),
        spec_compiled(d, m2),
        m1.wf(),
    ensures
        m1 == m2,
{
    lemma_default_is_marked(d, m1);
    assert(is_default_at(d.variants, m2.default_index));
    assert(m2.default_index == m1.default_index);
    assert(m1 =~= m2);
}

/// A definition whose variants all parse but where none carries the
/// default marker is rejected, and with exactly the missing-default error.
pub proof fn lemma_missing_default_rejected(d: SpecTypeDefinition, e: SpecCompileError)
    requires
        all_parse_ok(d.variants),
        forall|i: int|
            0 <= i < d.variants.len() ==> !(#[trigger] spec_md(d.variants, i)).is_default,
        spec_rejected_with(d, e),
    ensures
        e == SpecCompileError::MissingDefault,
        !spec_compiles(d),
{
    let vs = d.variants;
    assert(forall|i: int| !is_default_at(vs, i));
    assert(!crate::compile::unique_default(vs));
    match e {
        SpecCompileError::Annotation { variant, error } => {
            let i = choose|i: int|
                0 <= i < vs.len() && (#[trigger] spec_parse_variant(vs[i])) == Err::<
                    SpecVariantMetadata,
                    _,
                >(error) && vs[i].name == variant && (forall|j: int|
                    0 <= j < i ==> crate::compile::parse_ok_at(vs, j));
            assert(crate::compile::parse_ok_at(vs, i));
            assert(false);
        },
        SpecCompileError::MissingDefault => {},
        SpecCompileError::MultipleDefaults => {
            assert(false);
        },
        SpecCompileError::PrimaryNotApplicable { variant, platform } => {
            assert(false);
        },
        SpecCompileError::DuplicatePrimary { platform } => {
            assert(false);
        },
    }
}

} // verus!
