//! From a type expression to a [`TypeInfo`].

use vstd::prelude::*;
use crate::grammar::{GPrimitive, GType, GTypeCategory, GTypeCategoryView, GTypeView};
use crate::manifest::{Error, TypeInfo, TypeInfoView, TypeVariant, TypeVariantView};

verus! {

/// The variant that a scalar keyword stands for: each keyword has its own.
pub open spec fn scalar_variant(p: GPrimitive) -> TypeVariantView {
    match p {
        GPrimitive::Void => TypeVariantView::Void,
        GPrimitive::Bool => TypeVariantView::Bool,
        GPrimitive::Int8T => TypeVariantView::Int8,
        GPrimitive::Int16T => TypeVariantView::Int16,
        GPrimitive::Int32T => TypeVariantView::Int32,
        GPrimitive::Int64T => TypeVariantView::Int64,
        GPrimitive::UInt8T => TypeVariantView::Uint8,
        GPrimitive::UInt16T => TypeVariantView::Uint16,
        GPrimitive::UInt32T => TypeVariantView::Uint32,
        GPrimitive::UInt64T => TypeVariantView::Uint64,
        GPrimitive::Float => TypeVariantView::Float32,
        GPrimitive::Double => TypeVariantView::Float64,
    }
}

/// What a category names once pointers and null marks are taken off.
///
/// A scalar keyword names its variant. `struct N` and `enum N` name that
/// struct or enum. Any other keyword is the name of a type declared
/// elsewhere and is kept as a reference to a struct of that name. A category
/// whose innermost name is empty names nothing.
pub open spec fn variant_of(cat: GTypeCategoryView) -> Option<TypeVariantView>
    decreases cat,
{
    match cat {
        GTypeCategoryView::Scalar(p) => Some(scalar_variant(p)),
        GTypeCategoryView::Struct(n) => if n.len() == 0 {
            None
        } else {
            Some(TypeVariantView::Struct(n))
        },
        GTypeCategoryView::Enum(n) => if n.len() == 0 {
            None
        } else {
            Some(TypeVariantView::Enum(n))
        },
        GTypeCategoryView::Unrecognized(n) => if n.len() == 0 {
            None
        } else {
            Some(TypeVariantView::Struct(n))
        },
        GTypeCategoryView::Pointer(inner) => variant_of(*inner),
        GTypeCategoryView::Nullable(inner) => variant_of(*inner),
    }
}

/// Whatever a category names can be resolved: it is a scalar or a reference
/// by a name that is not empty.
pub proof fn lemma_variant_is_resolvable(cat: GTypeCategoryView)
    ensures
        variant_of(cat) is Some ==> variant_of(cat)->0.is_resolvable(),
    decreases cat,
{
    match cat {
        GTypeCategoryView::Pointer(inner) => lemma_variant_is_resolvable(*inner),
        GTypeCategoryView::Nullable(inner) => lemma_variant_is_resolvable(*inner),
        _ => {},
    }
}

/// Whether a pointer stands anywhere between the qualifier and the name.
pub open spec fn has_pointer(cat: GTypeCategoryView) -> bool
    decreases cat,
{
    match cat {
        GTypeCategoryView::Pointer(_) => true,
        GTypeCategoryView::Nullable(inner) => has_pointer(*inner),
        _ => false,
    }
}

/// Whether a null mark stands anywhere between the qualifier and the name.
pub open spec fn has_nullable(cat: GTypeCategoryView) -> bool
    decreases cat,
{
    match cat {
        GTypeCategoryView::Nullable(_) => true,
        GTypeCategoryView::Pointer(inner) => has_nullable(*inner),
        _ => false,
    }
}

/// The canonical description of a type expression, where it has one.
///
/// The qualifier decides `is_constant` and nothing else; the category decides
/// the rest.
pub open spec fn type_info_of(ty: GTypeView) -> Option<TypeInfoView> {
    match variant_of(ty.category()) {
        Some(variant) => Some(
            TypeInfoView {
                variant,
                is_constant: ty is Const,
                is_nullable: has_nullable(ty.category()),
                is_pointer: has_pointer(ty.category()),
            },
        ),
        None => None,
    }
}

/// The name under the qualifier, where the category is a bare keyword that
/// is no scalar.
pub open spec fn custom_name(ty: GTypeView) -> Option<Seq<char>> {
    match ty.category() {
        GTypeCategoryView::Unrecognized(n) => Some(n),
        _ => None,
    }
}

/// The three facts that describe a category.
struct Shape {
    variant: Option<TypeVariant>,
    pointer: bool,
    nullable: bool,
}

fn named(name: &String, as_enum: bool) -> (out: Option<TypeVariant>)
    ensures
        name@.len() == 0 ==> out is None,
        name@.len() != 0 && as_enum ==> out is Some && out->0@ == TypeVariantView::Enum(name@),
        name@.len() != 0 && !as_enum ==> out is Some && out->0@ == TypeVariantView::Struct(
            name@,
        ),
{
    if name.as_str().is_empty() {
        None
    } else if as_enum {
        Some(TypeVariant::Enum(name.clone()))
    } else {
        Some(TypeVariant::Struct(name.clone()))
    }
}

fn scalar(p: GPrimitive) -> (out: TypeVariant)
    ensures
        out@ == scalar_variant(p),
{
    match p {
        GPrimitive::Void => TypeVariant::Void,
        GPrimitive::Bool => TypeVariant::Bool,
        GPrimitive::Int8T => TypeVariant::Int8,
        GPrimitive::Int16T => TypeVariant::Int16,
        GPrimitive::Int32T => TypeVariant::Int32,
        GPrimitive::Int64T => TypeVariant::Int64,
        GPrimitive::UInt8T => TypeVariant::Uint8,
        GPrimitive::UInt16T => TypeVariant::Uint16,
        GPrimitive::UInt32T => TypeVariant::Uint32,
        GPrimitive::UInt64T => TypeVariant::Uint64,
        GPrimitive::Float => TypeVariant::Float32,
        GPrimitive::Double => TypeVariant::Float64,
    }
}

fn shape_of(cat: &GTypeCategory) -> (out: Shape)
    ensures
        match out.variant {
            Some(v) => variant_of(cat@) == Some(v@),
            None => variant_of(cat@) is None,
        },
        out.pointer == has_pointer(cat@),
        out.nullable == has_nullable(cat@),
    decreases cat,
{
    match cat {
        GTypeCategory::Scalar(p) => Shape {
            variant: Some(scalar(*p)),
            pointer: false,
            nullable: false,
        },
        GTypeCategory::Struct(n) => Shape {
            variant: named(&n.0.0, false),
            pointer: false,
            nullable: false,
        },
        GTypeCategory::Enum(n) => Shape {
            variant: named(&n.0.0, true),
            pointer: false,
            nullable: false,
        },
        GTypeCategory::Unrecognized(k) => Shape {
            variant: named(&k.0, false),
            pointer: false,
            nullable: false,
        },
        GTypeCategory::Pointer(inner) => {
            let below = shape_of(inner);
            Shape { variant: below.variant, pointer: true, nullable: below.nullable }
        },
        GTypeCategory::Nullable(inner) => {
            let below = shape_of(inner);
            Shape { variant: below.variant, pointer: below.pointer, nullable: true }
        },
    }
}

impl TypeInfo {
    /// Normalizes a type expression.
    ///
    /// Fails with [`Error::BadType`] exactly when the expression names nothing.
    /// On success `is_constant` is set for a `Const` qualifier and clear for
    /// `Mutable` and `Extern`.
    pub fn from_g_type(ty: &GType) -> (res: Result<TypeInfo, Error>)
        ensures
            match res {
                Ok(info) => type_info_of(ty@) == Some(info@),
                Err(e) => e == Error::BadType && type_info_of(ty@) is None,
            },
            res matches Ok(info) ==> info.is_constant == (ty is Const),
            res matches Ok(info) ==> info@.variant.is_resolvable(),
    {
        let is_constant = match ty {
            GType::Const(_) => true,
            _ => false,
        };
        let shape = shape_of(ty.category());
        proof {
            lemma_variant_is_resolvable(ty@.category());
        }
        match shape.variant {
            Some(variant) => Ok(
                TypeInfo {
                    variant,
                    is_constant,
                    is_nullable: shape.nullable,
                    is_pointer: shape.pointer,
                },
            ),
            None => Err(Error::BadType),
        }
    }
}

/// The bare name that a type expression consists of, if it is one.
///
/// The qualifier plays no part: the three give the same answer for the same
/// category.
pub fn extract_custom(ty: &GType) -> (res: Option<String>)
    ensures
        match res {
            Some(name) => custom_name(ty@) == Some(name@),
            None => custom_name(ty@) is None,
        },
{
    match ty.category() {
        GTypeCategory::Unrecognized(keyword) => Some(keyword.0.clone()),
        _ => None,
    }
}

} // verus!
