//! The schema tree and its mathematical model.

use vstd::prelude::*;

mod equality;

verus! {

/// Model of a [`TypeDescription`]: a named, optionally documented node.
pub struct TypeDescriptionView {
    pub name: Seq<char>,
    pub kind: TypeKindView,
    pub doc: Option<Seq<char>>,
}

/// Model of a [`TypeEnumKind`].
pub enum TypeEnumKindView {
    Tagged(Seq<char>),
    Untagged,
}

/// Model of an [`EnumVariantRepresentation`].
pub enum EnumVariantRepresentationView {
    String(Seq<char>),
    Wrapped(Box<TypeDescriptionView>),
}

/// Model of a [`TypeKind`]. Records and choices keep their entries in
/// declaration order, each as `(name, documentation, shape)`.
pub enum TypeKindView {
    Bool,
    Integer,
    Float,
    String,
    Wrapped(Box<TypeDescriptionView>),
    Array(Box<TypeDescriptionView>),
    HashMap(Box<TypeDescriptionView>),
    Struct(Seq<(Seq<char>, Option<Seq<char>>, TypeDescriptionView)>),
    Enum(TypeEnumKindView, Seq<(Seq<char>, Option<Seq<char>>, EnumVariantRepresentationView)>),
}

/// The characters of an optional piece of static text.
pub open spec fn text_view(text: Option<&'static str>) -> Option<Seq<char>> {
    match text {
        Some(s) => Some(s@),
        None => None,
    }
}

/// Generic config that represents what kind of config a plugin wishes to accept
#[derive(Debug)]
pub struct TypeDescription {
    name: String,
    kind: TypeKind,
    doc: Option<&'static str>,
}

/// How an enum is represented
#[derive(Debug)]
pub enum EnumVariantRepresentation {
    /// The enum is represented by a string
    ///
    /// This is the case with unit variants for example
    String(&'static str),
    /// The enum is represented by the value presented here
    Wrapped(Box<TypeDescription>),
}

/// The kind of enum tagging used by the [`TypeKind`]
#[derive(Debug)]
pub enum TypeEnumKind {
    /// An internal tag with the given tag name
    Tagged(&'static str),
    /// An untagged enum variant
    Untagged,
}

/// The specific kind a [`TypeDescription`] represents
#[derive(Debug)]
pub enum TypeKind {
    /// Type represents a boolean `true`/`false`
    Bool,
    /// Type represents an integer `1, 10, 200, 10_000, ...`
    ///
    /// The values that can be represented lie between [`i64::MIN`] and [`i64::MAX`]
    Integer,
    /// Type represents a floating point value `1.0, 20.235, 3.1419`
    ///
    /// Integers are also accepted and converted to their floating point variant
    Float,
    /// Type represents a string
    String,
    /// Wrap another config
    ///
    /// This is particularly useful if you want to restrict another kind. The common example is a
    /// `Port` config object which is represented as a `u16` but with an explanation of what it is
    /// meant to represent.
    Wrapped(Box<TypeDescription>),
    /// Type represents an array of values of the given [`TypeKind`]
    Array(Box<TypeDescription>),
    /// Type represents a hashmap of named configurations of the same type
    ///
    /// The key is always a [`String`] so this only holds the value config
    HashMap(Box<TypeDescription>),
    /// Type represents a map of different configurations
    ///
    /// The tuple represent `(field_name, documentation, config_description)`
    Struct(Vec<(&'static str, Option<&'static str>, TypeDescription)>),
    /// Type represents multiple choice of configurations
    Enum(TypeEnumKind, Vec<(&'static str, Option<&'static str>, EnumVariantRepresentation)>),
}

impl View for TypeEnumKind {
    type V = TypeEnumKindView;

    open spec fn view(&self) -> TypeEnumKindView {
        match self {
            TypeEnumKind::Tagged(tag) => TypeEnumKindView::Tagged(tag@),
            TypeEnumKind::Untagged => TypeEnumKindView::Untagged,
        }
    }
}

impl View for TypeDescription {
    type V = TypeDescriptionView;

    /// The model of this node and of everything below it.
    closed spec fn view(&self) -> TypeDescriptionView
        decreases self,
    {
        TypeDescriptionView { name: self.name@, kind: self.kind.view(), doc: text_view(self.doc) }
    }
}

impl View for EnumVariantRepresentation {
    type V = EnumVariantRepresentationView;

    /// The model of this representation.
    open spec fn view(&self) -> EnumVariantRepresentationView
        decreases self,
    {
        match self {
            EnumVariantRepresentation::String(tag) => EnumVariantRepresentationView::String(tag@),
            EnumVariantRepresentation::Wrapped(inner) => EnumVariantRepresentationView::Wrapped(
                Box::new((**inner).view()),
            ),
        }
    }
}

impl View for TypeKind {
    type V = TypeKindView;

    /// The model of this kind: the same variant over the models of its parts.
    open spec fn view(&self) -> TypeKindView
        decreases self,
    {
        match self {
            TypeKind::Bool => TypeKindView::Bool,
            TypeKind::Integer => TypeKindView::Integer,
            TypeKind::Float => TypeKindView::Float,
            TypeKind::String => TypeKindView::String,
            TypeKind::Wrapped(inner) => TypeKindView::Wrapped(Box::new((**inner).view())),
            TypeKind::Array(inner) => TypeKindView::Array(Box::new((**inner).view())),
            TypeKind::HashMap(inner) => TypeKindView::HashMap(Box::new((**inner).view())),
            TypeKind::Struct(fields) => TypeKindView::Struct(fields_view(*fields)),
            TypeKind::Enum(kind, variants) => TypeKindView::Enum(kind@, variants_view(*variants)),
        }
    }
}

/// Model of the fields of a record, in declaration order.
pub open spec fn fields_view(
    fields: Vec<(&'static str, Option<&'static str>, TypeDescription)>,
) -> Seq<(Seq<char>, Option<Seq<char>>, TypeDescriptionView)>
    decreases fields,
{
    Seq::new(
        fields.len() as nat,
        |i: int|
            if 0 <= i < fields.len() {
                field_view(fields[i])
            } else {
                arbitrary()
            },
    )
}

/// Model of the variants of a choice, in declaration order.
pub open spec fn variants_view(
    variants: Vec<(&'static str, Option<&'static str>, EnumVariantRepresentation)>,
) -> Seq<(Seq<char>, Option<Seq<char>>, EnumVariantRepresentationView)>
    decreases variants,
{
    Seq::new(
        variants.len() as nat,
        |i: int|
            if 0 <= i < variants.len() {
                variant_view(variants[i])
            } else {
                arbitrary()
            },
    )
}

/// The model of a record's fields has one entry for each field, in the
/// same place.
pub proof fn lemma_fields_view(fields: Vec<(&'static str, Option<&'static str>, TypeDescription)>)
    ensures
        fields_view(fields).len() == fields.len(),
        forall|i: int|
            0 <= i < fields.len() ==> #[trigger] fields_view(fields)[i] == field_view(fields[i]),
{
}

/// The model of a choice's variants has one entry for each variant, in the
/// same place.
pub proof fn lemma_variants_view(
    variants: Vec<(&'static str, Option<&'static str>, EnumVariantRepresentation)>,
)
    ensures
        variants_view(variants).len() == variants.len(),
        forall|i: int|
            0 <= i < variants.len() ==> #[trigger] variants_view(variants)[i] == variant_view(
                variants[i],
            ),
{
}

/// Model of one field of a record: its name, its documentation and the
/// model of its shape.
pub open spec fn field_view(field: (&'static str, Option<&'static str>, TypeDescription)) -> (
    Seq<char>,
    Option<Seq<char>>,
    TypeDescriptionView,
)
    decreases field,
{
    (field.0@, text_view(field.1), field.2.view())
}

/// Model of one variant of a choice: its name, its documentation and the
/// model of its representation.
pub open spec fn variant_view(
    variant: (&'static str, Option<&'static str>, EnumVariantRepresentation),
) -> (Seq<char>, Option<Seq<char>>, EnumVariantRepresentationView)
    decreases variant,
{
    (variant.0@, text_view(variant.1), variant.2.view())
}

impl TypeDescription {
    /// Construct a new generic config explanation
    #[must_use]
    pub fn new(name: String, kind: TypeKind, doc: Option<&'static str>) -> (description: Self)
        ensures
            description@ == (TypeDescriptionView { name: name@, kind: kind@, doc: text_view(doc) }),
    {
        Self { name, kind, doc }
    }

    /// Get a reference to the config's documentation.
    #[must_use]
    pub fn doc(&self) -> (doc: Option<&'static str>)
        ensures
            text_view(doc) == self@.doc,
    {
        self.doc
    }

    /// Get a reference to the config's kind.
    #[must_use]
    pub fn kind(&self) -> (kind: &TypeKind)
        ensures
            kind@ == self@.kind,
    {
        &self.kind
    }

    /// Set or replace the documentation of this [`TypeDescription`]
    #[must_use]
    pub fn with_doc(self, doc: Option<&'static str>) -> (description: Self)
        ensures
            description@ == (TypeDescriptionView { doc: text_view(doc), ..self@ }),
    {
        Self { name: self.name, kind: self.kind, doc }
    }

    /// Get the config's name.
    #[must_use]
    pub fn name(&self) -> (name: &str)
        ensures
            name@ == self@.name,
    {
        self.name.as_str()
    }
}

} // verus!
