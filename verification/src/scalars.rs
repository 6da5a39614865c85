//! The built-in scalars: each has one fixed description, a leaf of the
//! schema tree with a fixed name and fixed documentation.

use crate::capability::AsTypeDescription;
use crate::description::{TypeDescription, TypeDescriptionView, TypeKind, TypeKindView};
use vstd::prelude::*;
use vstd::string::StringExecFns;

verus! {

/// The built-in scalar types that have a description of their own.
#[derive(Debug, Clone, Copy, PartialEq, Eq, Structural)]
pub enum Scalar {
    /// A signed integer of 64 bits.
    Int64,
    /// A signed integer of 64 bits, zero excluded.
    NonZeroInt64,
    /// An unsigned integer of 64 bits.
    UInt64,
    /// An unsigned integer of 64 bits, zero excluded.
    NonZeroUInt64,
    /// A signed integer of 32 bits.
    Int32,
    /// A signed integer of 32 bits, zero excluded.
    NonZeroInt32,
    /// An unsigned integer of 32 bits.
    UInt32,
    /// An unsigned integer of 32 bits, zero excluded.
    NonZeroUInt32,
    /// A signed integer of 16 bits.
    Int16,
    /// A signed integer of 16 bits, zero excluded.
    NonZeroInt16,
    /// An unsigned integer of 16 bits.
    UInt16,
    /// An unsigned integer of 16 bits, zero excluded.
    NonZeroUInt16,
    /// A signed integer of 8 bits.
    Int8,
    /// A signed integer of 8 bits, zero excluded.
    NonZeroInt8,
    /// An unsigned integer of 8 bits.
    UInt8,
    /// An unsigned integer of 8 bits, zero excluded.
    NonZeroUInt8,
    /// A floating point number of 64 bits.
    Float64,
    /// A floating point number of 32 bits.
    Float32,
    /// A truth value.
    Bool,
    /// UTF-8 text.
    String,
    /// A socket address of either address family.
    SocketAddr,
    /// A socket address of the IPv4 family.
    SocketAddrV4,
    /// A socket address of the IPv6 family.
    SocketAddrV6,
}

impl Scalar {
    /// The kind that describes this scalar: always a leaf.
    pub open spec fn kind(self) -> TypeKindView {
        match self {
            Scalar::Float64 | Scalar::Float32 => TypeKindView::Float,
            Scalar::Bool => TypeKindView::Bool,
            Scalar::String
            | Scalar::SocketAddr
            | Scalar::SocketAddrV4
            | Scalar::SocketAddrV6 => TypeKindView::String,
            _ => TypeKindView::Integer,
        }
    }

    /// The name of this scalar's description, fixed by its kind.
    pub open spec fn name(self) -> Seq<char> {
        match self.kind() {
            TypeKindView::Float => "Float"@,
            TypeKindView::Bool => "Boolean"@,
            TypeKindView::String => "String"@,
            _ => "Integer"@,
        }
    }

    /// The documentation of this scalar's description.
    pub open spec fn doc(self) -> Seq<char> {
        match self {
            Scalar::Int64 => "A signed integer with 64 bits"@,
            Scalar::NonZeroInt64 => "A signed integer with 64 bits that cannot be zero"@,
            Scalar::UInt64 => "An unsigned integer with 64 bits"@,
            Scalar::NonZeroUInt64 => "An unsigned integer with 64 bits that cannot be zero"@,
            Scalar::Int32 => "A signed integer with 32 bits"@,
            Scalar::NonZeroInt32 => "A signed integer with 32 bits that cannot be zero"@,
            Scalar::UInt32 => "An unsigned integer with 32 bits"@,
            Scalar::NonZeroUInt32 => "An unsigned integer with 32 bits that cannot be zero"@,
            Scalar::Int16 => "A signed integer with 16 bits"@,
            Scalar::NonZeroInt16 => "A signed integer with 16 bits that cannot be zero"@,
            Scalar::UInt16 => "An unsigned integer with 16 bits"@,
            Scalar::NonZeroUInt16 => "An unsigned integer with 16 bits that cannot be zero"@,
            Scalar::Int8 => "A signed integer with 8 bits"@,
            Scalar::NonZeroInt8 => "A signed integer with 8 bits that cannot be zero"@,
            Scalar::UInt8 => "An unsigned integer with 8 bits"@,
            Scalar::NonZeroUInt8 => "An unsigned integer with 8 bits that cannot be zero"@,
            Scalar::Float64 => "A floating point value with 64 bits"@,
            Scalar::Float32 => "A floating point value with 32 bits"@,
            Scalar::Bool => "A boolean"@,
            Scalar::String => "An UTF-8 string"@,
            Scalar::SocketAddr => "A socket address"@,
            Scalar::SocketAddrV4 => "An IPv4 socket address"@,
            Scalar::SocketAddrV6 => "An IPv6 socket address"@,
        }
    }

    /// The model of this scalar's description.
    pub open spec fn type_description(self) -> TypeDescriptionView {
        TypeDescriptionView { name: self.name(), kind: self.kind(), doc: Some(self.doc()) }
    }

    /// The documentation of this scalar, as static text.
    fn doc_text(self) -> (doc: &'static str)
        ensures
            doc@ == self.doc(),
    {
        match self {
            Scalar::Int64 => "A signed integer with 64 bits",
            Scalar::NonZeroInt64 => "A signed integer with 64 bits that cannot be zero",
            Scalar::UInt64 => "An unsigned integer with 64 bits",
            Scalar::NonZeroUInt64 => "An unsigned integer with 64 bits that cannot be zero",
            Scalar::Int32 => "A signed integer with 32 bits",
            Scalar::NonZeroInt32 => "A signed integer with 32 bits that cannot be zero",
            Scalar::UInt32 => "An unsigned integer with 32 bits",
            Scalar::NonZeroUInt32 => "An unsigned integer with 32 bits that cannot be zero",
            Scalar::Int16 => "A signed integer with 16 bits",
            Scalar::NonZeroInt16 => "A signed integer with 16 bits that cannot be zero",
            Scalar::UInt16 => "An unsigned integer with 16 bits",
            Scalar::NonZeroUInt16 => "An unsigned integer with 16 bits that cannot be zero",
            Scalar::Int8 => "A signed integer with 8 bits",
            Scalar::NonZeroInt8 => "A signed integer with 8 bits that cannot be zero",
            Scalar::UInt8 => "An unsigned integer with 8 bits",
            Scalar::NonZeroUInt8 => "An unsigned integer with 8 bits that cannot be zero",
            Scalar::Float64 => "A floating point value with 64 bits",
            Scalar::Float32 => "A floating point value with 32 bits",
            Scalar::Bool => "A boolean",
            Scalar::String => "An UTF-8 string",
            Scalar::SocketAddr => "A socket address",
            Scalar::SocketAddrV4 => "An IPv4 socket address",
            Scalar::SocketAddrV6 => "An IPv6 socket address",
        }
    }

    /// The description of this scalar.
    pub fn as_type_description(self) -> (description: TypeDescription)
        ensures
            description@ == self.type_description(),
            description@.kind == self.kind(),
    {
        let doc = self.doc_text();
        match self {
            Scalar::Float64 | Scalar::Float32 => leaf("Float", TypeKind::Float, doc),
            Scalar::Bool => leaf("Boolean", TypeKind::Bool, doc),
            Scalar::String
            | Scalar::SocketAddr
            | Scalar::SocketAddrV4
            | Scalar::SocketAddrV6 => leaf("String", TypeKind::String, doc),
            _ => leaf("Integer", TypeKind::Integer, doc),
        }
    }
}

/// A documented description with nothing below it.
fn leaf(name: &'static str, kind: TypeKind, doc: &'static str) -> (description: TypeDescription)
    ensures
        description@ == (TypeDescriptionView { name: name@, kind: kind@, doc: Some(doc@) }),
{
    TypeDescription::new(String::from_str(name), kind, Some(doc))
}

/// Every built-in scalar is described by a leaf: a boolean, an integer, a
/// float or a string, with nothing below it. The leaf has a name and is
/// documented.
pub proof fn lemma_scalar_is_leaf(scalar: Scalar)
    ensures
        scalar.type_description().kind is Bool || scalar.type_description().kind is Integer
            || scalar.type_description().kind is Float || scalar.type_description().kind is String,
        scalar.type_description().name.len() > 0,
        scalar.type_description().doc is Some,
{
    reveal_strlit("Integer");
    reveal_strlit("Float");
    reveal_strlit("Boolean");
    reveal_strlit("String");
}

impl AsTypeDescription for i64 {
    open spec fn type_description() -> TypeDescriptionView {
        Scalar::Int64.type_description()
    }

    fn as_type_description() -> (description: TypeDescription)
        ensures
            description@.kind == TypeKindView::Integer,
    {
        Scalar::Int64.as_type_description()
    }
}

impl AsTypeDescription for u64 {
    open spec fn type_description() -> TypeDescriptionView {
        Scalar::UInt64.type_description()
    }

    fn as_type_description() -> (description: TypeDescription)
        ensures
            description@.kind == TypeKindView::Integer,
    {
        Scalar::UInt64.as_type_description()
    }
}

impl AsTypeDescription for i32 {
    open spec fn type_description() -> TypeDescriptionView {
        Scalar::Int32.type_description()
    }

    fn as_type_description() -> (description: TypeDescription)
        ensures
            description@.kind == TypeKindView::Integer,
    {
        Scalar::Int32.as_type_description()
    }
}

impl AsTypeDescription for u32 {
    open spec fn type_description() -> TypeDescriptionView {
        Scalar::UInt32.type_description()
    }

    fn as_type_description() -> (description: TypeDescription)
        ensures
            description@.kind == TypeKindView::Integer,
    {
        Scalar::UInt32.as_type_description()
    }
}

impl AsTypeDescription for i16 {
    open spec fn type_description() -> TypeDescriptionView {
        Scalar::Int16.type_description()
    }

    fn as_type_description() -> (description: TypeDescription)
        ensures
            description@.kind == TypeKindView::Integer,
    {
        Scalar::Int16.as_type_description()
    }
}

impl AsTypeDescription for u16 {
    open spec fn type_description() -> TypeDescriptionView {
        Scalar::UInt16.type_description()
    }

    fn as_type_description() -> (description: TypeDescription)
        ensures
            description@.kind == TypeKindView::Integer,
    {
        Scalar::UInt16.as_type_description()
    }
}

impl AsTypeDescription for i8 {
    open spec fn type_description() -> TypeDescriptionView {
        Scalar::Int8.type_description()
    }

    fn as_type_description() -> (description: TypeDescription)
        ensures
            description@.kind == TypeKindView::Integer,
    {
        Scalar::Int8.as_type_description()
    }
}

impl AsTypeDescription for u8 {
    open spec fn type_description() -> TypeDescriptionView {
        Scalar::UInt8.type_description()
    }

    fn as_type_description() -> (description: TypeDescription)
        ensures
            description@.kind == TypeKindView::Integer,
    {
        Scalar::UInt8.as_type_description()
    }
}

impl AsTypeDescription for bool {
    open spec fn type_description() -> TypeDescriptionView {
        Scalar::Bool.type_description()
    }

    fn as_type_description() -> (description: TypeDescription)
        ensures
            description@.kind == TypeKindView::Bool,
    {
        Scalar::Bool.as_type_description()
    }
}

impl AsTypeDescription for String {
    open spec fn type_description() -> TypeDescriptionView {
        Scalar::String.type_description()
    }

    fn as_type_description() -> (description: TypeDescription)
        ensures
            description@.kind == TypeKindView::String,
    {
        Scalar::String.as_type_description()
    }
}

} // verus!
