//! The data model: type definitions as read, and the metadata derived from
//! them.
//!
//! A [`TypeDefinition`] is an ordered sequence of named variants, each
//! carrying the raw token stream of its annotation block. Parsing yields one
//! [`VariantMetadata`] per variant; aggregation folds those into a
//! [`TypeMetadata`], against which the generated queries are answered.
//! Variants are referred to by their index in the definition.

use vstd::prelude::*;

use crate::token::{SpecToken, Token};

verus! {

/// One named case of the type definition, with the raw token stream of its
/// annotation block (empty when the variant carries no annotations).
#[derive(Debug)]
pub struct Variant {
    pub name: String,
    pub annotation: Vec<Token>,
}

/// The mathematical value of a [`Variant`].
pub struct SpecVariant {
    pub name: Seq<char>,
    pub annotation: Seq<SpecToken>,
}

impl DeepView for Variant {
    type V = SpecVariant;

    open spec fn deep_view(&self) -> SpecVariant {
        SpecVariant { name: self.name@, annotation: self.annotation.deep_view() }
    }
}

/// A type definition as handed in by the host: a name and an ordered
/// variant list. Immutable once read.
#[derive(Debug)]
pub struct TypeDefinition {
    pub name: String,
    pub variants: Vec<Variant>,
}

/// The mathematical value of a [`TypeDefinition`].
pub struct SpecTypeDefinition {
    pub name: Seq<char>,
    pub variants: Seq<SpecVariant>,
}

impl DeepView for TypeDefinition {
    type V = SpecTypeDefinition;

    open spec fn deep_view(&self) -> SpecTypeDefinition {
        SpecTypeDefinition { name: self.name@, variants: self.variants.deep_view() }
    }
}

/// The structured metadata of one variant, as the parser derives it from the
/// variant's annotation block. The identifier lists are kept in first-seen
/// order without duplicates; `display_name` is the explicit override when one
/// was given, else the lowercased variant name.
#[derive(Debug)]
pub struct VariantMetadata {
    pub is_default: bool,
    pub platform_ids: Vec<String>,
    pub primary_platform_ids: Vec<String>,
    pub display_name: String,
}

/// The mathematical value of a [`VariantMetadata`].
#[verifier::ext_equal]
pub struct SpecVariantMetadata {
    pub is_default: bool,
    pub platform_ids: Seq<Seq<char>>,
    pub primary_platform_ids: Seq<Seq<char>>,
    pub display_name: Seq<char>,
}

impl DeepView for VariantMetadata {
    type V = SpecVariantMetadata;

    open spec fn deep_view(&self) -> SpecVariantMetadata {
        SpecVariantMetadata {
            is_default: self.is_default,
            platform_ids: self.platform_ids.deep_view(),
            primary_platform_ids: self.primary_platform_ids.deep_view(),
            display_name: self.display_name@,
        }
    }
}

/// The aggregated, validated metadata of one type definition. The
/// platform-to-variant maps of the model are read off `variants`: see
/// [`SpecTypeMetadata::membership`] and [`SpecTypeMetadata::primary_for`].
#[derive(Debug)]
pub struct TypeMetadata {
    pub variant_names: Vec<String>,
    pub variants: Vec<VariantMetadata>,
    pub default_index: usize,
}

/// The mathematical value of a [`TypeMetadata`].
#[verifier::ext_equal]
pub struct SpecTypeMetadata {
    pub variant_names: Seq<Seq<char>>,
    pub variants: Seq<SpecVariantMetadata>,
    pub default_index: int,
}

impl DeepView for TypeMetadata {
    type V = SpecTypeMetadata;

    open spec fn deep_view(&self) -> SpecTypeMetadata {
        SpecTypeMetadata {
            variant_names: self.variant_names.deep_view(),
            variants: self.variants.deep_view(),
            default_index: self.default_index as int,
        }
    }
}

impl SpecTypeMetadata {
    /// The number of variants.
    pub open spec fn len(self) -> int {
        self.variants.len() as int
    }

    /// Variant `i` declares platform `p` in its platform list.
    pub open spec fn declares(self, i: int, p: Seq<char>) -> bool {
        0 <= i < self.len() && self.variants[i].platform_ids.contains(p)
    }

    /// Variant `i` declares platform `p` in its primary-platform list.
    pub open spec fn declares_primary(self, i: int, p: Seq<char>) -> bool {
        0 <= i < self.len() && self.variants[i].primary_platform_ids.contains(p)
    }

    /// The membership map's entry for platform `p`: every variant that
    /// declares `p` (the empty set for an unknown platform).
    pub open spec fn membership(self, p: Seq<char>) -> Set<int> {
        Set::new(|i: int| self.declares(i, p))
    }

    /// Some variant declares `p` as a primary platform.
    pub open spec fn has_primary(self, p: Seq<char>) -> bool {
        exists|i: int| self.declares_primary(i, p)
    }

    /// The variant declaring `p` as a primary platform (unique under
    /// [`Self::wf`]).
    pub open spec fn primary_index(self, p: Seq<char>) -> int {
        choose|i: int| self.declares_primary(i, p)
    }

    /// The primary map's entry for `p`, falling back to the default variant
    /// when no variant declares `p` as primary.
    pub open spec fn primary_for(self, p: Seq<char>) -> int {
        if self.has_primary(p) {
            self.primary_index(p)
        } else {
            self.default_index
        }
    }

    /// The display map's entry for variant `i`.
    pub open spec fn display(self, i: int) -> Seq<char> {
        self.variants[i].display_name
    }

    /// Well-formedness: what aggregation establishes and every query relies
    /// on. Exactly one variant is the default; a variant's primary platforms
    /// are among its declared platforms; no platform is declared primary by
    /// two variants.
    pub open spec fn wf(self) -> bool {
        &&& self.variant_names.len() == self.variants.len()
        &&& 0 <= self.default_index < self.len()
        &&& self.variants[self.default_index].is_default
        &&& forall|i: int|
            0 <= i < self.len() && i != self.default_index ==> !(#[trigger] self.variants[i]).is_default
        &&& forall|i: int, p: Seq<char>|
            #[trigger] self.declares_primary(i, p) ==> self.declares(i, p)
        &&& forall|i: int, j: int, p: Seq<char>|
            #[trigger] self.declares_primary(i, p) && #[trigger] self.declares_primary(j, p) ==> i
                == j
    }
}

} // verus!
