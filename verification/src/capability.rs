//! The capability of a type to describe itself, and the rules that compose
//! the descriptions of optional values, sequences and string-keyed tables
//! from the description of what they hold.

use crate::description::{TypeDescription, TypeDescriptionView, TypeKind, TypeKindView};
use std::collections::HashMap;
use std::path::PathBuf;
use vstd::prelude::*;
use vstd::string::StringExecFns;

verus! {

/// `std::path::PathBuf`, named here only as the key type of a table; nothing
/// is claimed about its values.
#[verifier::external_type_specification]
#[verifier::external_body]
pub struct ExPathBuf(PathBuf);

/// Turn a plugin configuration into a [`TypeDescription`] object
///
/// Plugin authors are expected to implement this for their configurations to give users
/// a description of what they accept.
pub trait AsTypeDescription {
    /// The model of the tree that describes this type. It depends on the
    /// type alone. A verified implementation states it; of one that does
    /// not, only this is known: it is one fixed tree.
    open spec fn type_description() -> TypeDescriptionView {
        arbitrary()
    }

    /// Get a [`TypeDescription`] object from the type
    fn as_type_description() -> (description: TypeDescription)
        ensures
            description@ == Self::type_description(),
    ;
}

/// The name of an optional value: `An optional '<inner>'`.
pub open spec fn optional_name(inner: Seq<char>) -> Seq<char> {
    "An optional '"@ + inner + "'"@
}

/// The name of a sequence: `Array of '<inner>'s`.
pub open spec fn array_name(inner: Seq<char>) -> Seq<char> {
    "Array of '"@ + inner + "'s"@
}

/// The name of a string-keyed table: `Table of '<inner>'s`.
pub open spec fn table_name(inner: Seq<char>) -> Seq<char> {
    "Table of '"@ + inner + "'s"@
}

/// A synthesized name holds the whole inner name between its fixed opening
/// and closing text, so it is never empty and gives the inner name back.
pub proof fn lemma_synthesized_names(inner: Seq<char>)
    ensures
        optional_name(inner).len() == inner.len() + 14,
        optional_name(inner).subrange(13, 13 + inner.len() as int) == inner,
        array_name(inner).len() == inner.len() + 12,
        array_name(inner).subrange(10, 10 + inner.len() as int) == inner,
        table_name(inner).len() == inner.len() + 12,
        table_name(inner).subrange(10, 10 + inner.len() as int) == inner,
{
    reveal_strlit("An optional '");
    reveal_strlit("Array of '");
    reveal_strlit("Table of '");
    reveal_strlit("'");
    reveal_strlit("'s");
}

/// Puts `inner` between `before` and `after`.
fn enclose(before: &str, inner: &str, after: &str) -> (name: String)
    ensures
        name@ == before@ + inner@ + after@,
{
    let mut name = String::from_str(before);
    name.append(inner);
    name.append(after);
    name
}

impl<T: AsTypeDescription> AsTypeDescription for Option<T> {
    open spec fn type_description() -> TypeDescriptionView {
        TypeDescriptionView {
            name: optional_name(T::type_description().name),
            kind: TypeKindView::Wrapped(Box::new(T::type_description())),
            doc: None,
        }
    }

    fn as_type_description() -> (description: TypeDescription)
        ensures
            description@.name == "An optional '"@ + T::type_description().name + "'"@,
            description@.kind == TypeKindView::Wrapped(Box::new(T::type_description())),
            description@.doc is None,
    {
        let inner = T::as_type_description();
        let name = enclose("An optional '", inner.name(), "'");
        TypeDescription::new(name, TypeKind::Wrapped(Box::new(inner)), None)
    }
}

impl<T: AsTypeDescription> AsTypeDescription for Vec<T> {
    open spec fn type_description() -> TypeDescriptionView {
        TypeDescriptionView {
            name: array_name(T::type_description().name),
            kind: TypeKindView::Array(Box::new(T::type_description())),
            doc: None,
        }
    }

    fn as_type_description() -> (description: TypeDescription)
        ensures
            description@.name == "Array of '"@ + T::type_description().name + "'s"@,
            description@.kind == TypeKindView::Array(Box::new(T::type_description())),
            description@.doc is None,
    {
        let inner = T::as_type_description();
        let name = enclose("Array of '", inner.name(), "'s");
        TypeDescription::new(name, TypeKind::Array(Box::new(inner)), None)
    }
}

impl<V: AsTypeDescription> AsTypeDescription for HashMap<String, V> {
    open spec fn type_description() -> TypeDescriptionView {
        TypeDescriptionView {
            name: table_name(V::type_description().name),
            kind: TypeKindView::HashMap(Box::new(V::type_description())),
            doc: None,
        }
    }

    fn as_type_description() -> (description: TypeDescription)
        ensures
            description@.name == "Table of '"@ + V::type_description().name + "'s"@,
            description@.kind == TypeKindView::HashMap(Box::new(V::type_description())),
            description@.doc is None,
    {
        let inner = V::as_type_description();
        let name = enclose("Table of '", inner.name(), "'s");
        TypeDescription::new(name, TypeKind::HashMap(Box::new(inner)), None)
    }
}

impl<V: AsTypeDescription> AsTypeDescription for HashMap<PathBuf, V> {
    open spec fn type_description() -> TypeDescriptionView {
        TypeDescriptionView {
            name: table_name(V::type_description().name),
            kind: TypeKindView::HashMap(Box::new(V::type_description())),
            doc: None,
        }
    }

    fn as_type_description() -> (description: TypeDescription)
        ensures
            description@.name == "Table of '"@ + V::type_description().name + "'s"@,
            description@.kind == TypeKindView::HashMap(Box::new(V::type_description())),
            description@.doc is None,
    {
        let inner = V::as_type_description();
        let name = enclose("Table of '", inner.name(), "'s");
        TypeDescription::new(name, TypeKind::HashMap(Box::new(inner)), None)
    }
}

/// Asking a type for its description twice gives the same tree: any two
/// results of [`AsTypeDescription::as_type_description`] for one type have
/// equal models.
pub proof fn lemma_description_is_repeatable<T: AsTypeDescription>(
    first: TypeDescription,
    second: TypeDescription,
)
    requires
        call_ensures(T::as_type_description, (), first),
        call_ensures(T::as_type_description, (), second),
    ensures
        first@ == second@,
{
}

/// A table is described by what it holds, whatever its keys are: tables
/// keyed by strings and tables keyed by paths have the same description,
/// a `HashMap` kind over the description of the values.
pub proof fn lemma_table_key_is_irrelevant<V: AsTypeDescription>()
    ensures
        <HashMap<String, V> as AsTypeDescription>::type_description() == <HashMap<
            PathBuf,
            V,
        > as AsTypeDescription>::type_description(),
        <HashMap<String, V> as AsTypeDescription>::type_description().kind
            == TypeKindView::HashMap(Box::new(V::type_description())),
{
}

} // verus!
