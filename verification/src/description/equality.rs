//! Structural equality of descriptions: `==` compares two trees by what
//! they say, node by node, never by identity.

use crate::description::{
    field_view, fields_view, lemma_fields_view, lemma_variants_view, text_view,
    variant_view, variants_view, EnumVariantRepresentation, TypeDescription, TypeEnumKind,
    TypeKind,
};
use vstd::prelude::*;
use vstd::std_specs::cmp::PartialEqSpecImpl;
use vstd::string::StringSliceAdditionalSpecFns;
use vstd::utf8::encode_utf8_decode_utf8;

verus! {

/// Whether two pieces of text hold the same characters.
fn same_text(a: &str, b: &str) -> (same: bool)
    ensures
        same == (a@ == b@),
{
    let x = a.as_bytes();
    let y = b.as_bytes();
    if x.len() != y.len() {
        return false;
    }
    let mut i: usize = 0;
    while i < x.len()
        invariant
            i <= x@.len(),
            x@.len() == y@.len(),
            x@ == a.spec_bytes(),
            y@ == b.spec_bytes(),
            forall|j: int| 0 <= j < i ==> x@[j] == y@[j],
        decreases x.len() - i,
    {
        if x[i] != y[i] {
            return false;
        }
        i += 1;
    }
    proof {
        assert(x@ =~= y@);
        encode_utf8_decode_utf8(a@);
        encode_utf8_decode_utf8(b@);
    }
    true
}

/// Whether two optional pieces of text are both absent or hold the same
/// characters.
fn same_optional_text(a: Option<&'static str>, b: Option<&'static str>) -> (same: bool)
    ensures
        same == (text_view(a) == text_view(b)),
{
    match (a, b) {
        (Some(x), Some(y)) => same_text(x, y),
        (None, None) => true,
        _ => false,
    }
}

fn same_enum_kind(a: &TypeEnumKind, b: &TypeEnumKind) -> (same: bool)
    ensures
        same == (a@ == b@),
{
    match (a, b) {
        (TypeEnumKind::Tagged(x), TypeEnumKind::Tagged(y)) => same_text(x, y),
        (TypeEnumKind::Untagged, TypeEnumKind::Untagged) => true,
        _ => false,
    }
}

fn same_description(a: &TypeDescription, b: &TypeDescription) -> (same: bool)
    ensures
        same == (a@ == b@),
    decreases a,
{
    same_text(a.name.as_str(), b.name.as_str()) && same_kind(&a.kind, &b.kind)
        && same_optional_text(a.doc, b.doc)
}

fn same_representation(a: &EnumVariantRepresentation, b: &EnumVariantRepresentation) -> (same:
    bool)
    ensures
        same == (a@ == b@),
    decreases a,
{
    match (a, b) {
        (EnumVariantRepresentation::String(x), EnumVariantRepresentation::String(y)) => same_text(
            x,
            y,
        ),
        (
            EnumVariantRepresentation::Wrapped(x),
            EnumVariantRepresentation::Wrapped(y),
        ) => same_description(x, y),
        _ => false,
    }
}

fn same_kind(a: &TypeKind, b: &TypeKind) -> (same: bool)
    ensures
        same == (a@ == b@),
    decreases a,
{
    match (a, b) {
        (TypeKind::Bool, TypeKind::Bool) => true,
        (TypeKind::Integer, TypeKind::Integer) => true,
        (TypeKind::Float, TypeKind::Float) => true,
        (TypeKind::String, TypeKind::String) => true,
        (TypeKind::Wrapped(x), TypeKind::Wrapped(y)) => same_description(x, y),
        (TypeKind::Array(x), TypeKind::Array(y)) => same_description(x, y),
        (TypeKind::HashMap(x), TypeKind::HashMap(y)) => same_description(x, y),
        (TypeKind::Struct(x), TypeKind::Struct(y)) => same_fields(x, y),
        (TypeKind::Enum(j, x), TypeKind::Enum(k, y)) => same_enum_kind(j, k) && same_variants(
            x,
            y,
        ),
        _ => false,
    }
}

fn same_fields(
    a: &Vec<(&'static str, Option<&'static str>, TypeDescription)>,
    b: &Vec<(&'static str, Option<&'static str>, TypeDescription)>,
) -> (same: bool)
    ensures
        same == (fields_view(*a) == fields_view(*b)),
    decreases a,
{
    proof {
        lemma_fields_view(*a);
        lemma_fields_view(*b);
    }
    if a.len() != b.len() {
        return false;
    }
    let mut i: usize = 0;
    while i < a.len()
        invariant
            i <= a.len(),
            a.len() == b.len(),
            fields_view(*a).len() == a.len(),
            fields_view(*b).len() == b.len(),
            forall|j: int| 0 <= j < a.len() ==> fields_view(*a)[j] == field_view(a[j]),
            forall|j: int| 0 <= j < b.len() ==> fields_view(*b)[j] == field_view(b[j]),
            forall|j: int| 0 <= j < i ==> field_view(a[j]) == field_view(b[j]),
        decreases a.len() - i,
    {
        let same = same_text(a[i].0, b[i].0) && same_optional_text(a[i].1, b[i].1)
            && same_description(&a[i].2, &b[i].2);
        if !same {
            assert(fields_view(*a)[i as int] != fields_view(*b)[i as int]);
            return false;
        }
        i += 1;
    }
    assert(fields_view(*a) =~= fields_view(*b));
    true
}

fn same_variants(
    a: &Vec<(&'static str, Option<&'static str>, EnumVariantRepresentation)>,
    b: &Vec<(&'static str, Option<&'static str>, EnumVariantRepresentation)>,
) -> (same: bool)
    ensures
        same == (variants_view(*a) == variants_view(*b)),
    decreases a,
{
    proof {
        lemma_variants_view(*a);
        lemma_variants_view(*b);
    }
    if a.len() != b.len() {
        return false;
    }
    let mut i: usize = 0;
    while i < a.len()
        invariant
            i <= a.len(),
            a.len() == b.len(),
            variants_view(*a).len() == a.len(),
            variants_view(*b).len() == b.len(),
            forall|j: int| 0 <= j < a.len() ==> variants_view(*a)[j] == variant_view(a[j]),
            forall|j: int| 0 <= j < b.len() ==> variants_view(*b)[j] == variant_view(b[j]),
            forall|j: int| 0 <= j < i ==> variant_view(a[j]) == variant_view(b[j]),
        decreases a.len() - i,
    {
        let same = same_text(a[i].0, b[i].0) && same_optional_text(a[i].1, b[i].1)
            && same_representation(&a[i].2, &b[i].2);
        if !same {
            assert(variants_view(*a)[i as int] != variants_view(*b)[i as int]);
            return false;
        }
        i += 1;
    }
    assert(variants_view(*a) =~= variants_view(*b));
    true
}

impl PartialEq for TypeEnumKind {
    fn eq(&self, other: &Self) -> (same: bool) {
        same_enum_kind(self, other)
    }
}

impl PartialEqSpecImpl for TypeEnumKind {
    open spec fn obeys_eq_spec() -> bool {
        true
    }

    open spec fn eq_spec(&self, other: &Self) -> bool {
        self@ == other@
    }
}

impl PartialEq for EnumVariantRepresentation {
    fn eq(&self, other: &Self) -> (same: bool) {
        same_representation(self, other)
    }
}

impl PartialEqSpecImpl for EnumVariantRepresentation {
    open spec fn obeys_eq_spec() -> bool {
        true
    }

    open spec fn eq_spec(&self, other: &Self) -> bool {
        self@ == other@
    }
}

impl PartialEq for TypeKind {
    fn eq(&self, other: &Self) -> (same: bool) {
        same_kind(self, other)
    }
}

impl PartialEqSpecImpl for TypeKind {
    open spec fn obeys_eq_spec() -> bool {
        true
    }

    open spec fn eq_spec(&self, other: &Self) -> bool {
        self@ == other@
    }
}

impl PartialEq for TypeDescription {
    fn eq(&self, other: &Self) -> (same: bool) {
        same_description(self, other)
    }
}

impl PartialEqSpecImpl for TypeDescription {
    open spec fn obeys_eq_spec() -> bool {
        true
    }

    open spec fn eq_spec(&self, other: &Self) -> bool {
        self@ == other@
    }
}

} // verus!
