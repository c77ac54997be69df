//! The manifest of a header: its public surface, free of C syntax.
//!
//! Each record is plain data with public fields. Its model, reached with `@`,
//! has the same shape with every name as a sequence of characters.

use vstd::prelude::*;
use crate::model::views;

pub use crate::assemble::process_c_header_dir;
pub use crate::normalize::extract_custom;

verus! {

/// Why a declaration or a path could not be taken over.
#[derive(Debug, Clone, Copy, PartialEq, Eq, Structural)]
pub enum Error {
    /// A path does not break into the segments that its use asks for.
    BadImport,
    /// A struct or an enum definition cannot be converted.
    BadObject,
    /// A function declaration cannot be converted.
    BadProperty,
    /// A type expression names nothing.
    BadType,
}

/// What a type is, apart from its flags.
#[derive(Debug, Clone, Eq, PartialEq)]
pub enum TypeVariant {
    Void,
    Bool,
    Int8,
    Int16,
    Int32,
    Int64,
    Uint8,
    Uint16,
    Uint32,
    Uint64,
    Float32,
    Float64,
    /// A struct declared in this header or another, by name.
    Struct(String),
    /// An enum declared in this header or another, by name.
    Enum(String),
}

/// The model of a [`TypeVariant`].
pub enum TypeVariantView {
    Void,
    Bool,
    Int8,
    Int16,
    Int32,
    Int64,
    Uint8,
    Uint16,
    Uint32,
    Uint64,
    Float32,
    Float64,
    Struct(Seq<char>),
    Enum(Seq<char>),
}

impl TypeVariantView {
    /// Whether the variant says what the type is: it is a scalar, or it
    /// refers to a struct or an enum by a name that is not empty.
    pub open spec fn is_resolvable(self) -> bool {
        match self {
            TypeVariantView::Struct(name) => name.len() > 0,
            TypeVariantView::Enum(name) => name.len() > 0,
            _ => true,
        }
    }
}

impl View for TypeVariant {
    type V = TypeVariantView;

    open spec fn view(&self) -> TypeVariantView {
        match self {
            TypeVariant::Void => TypeVariantView::Void,
            TypeVariant::Bool => TypeVariantView::Bool,
            TypeVariant::Int8 => TypeVariantView::Int8,
            TypeVariant::Int16 => TypeVariantView::Int16,
            TypeVariant::Int32 => TypeVariantView::Int32,
            TypeVariant::Int64 => TypeVariantView::Int64,
            TypeVariant::Uint8 => TypeVariantView::Uint8,
            TypeVariant::Uint16 => TypeVariantView::Uint16,
            TypeVariant::Uint32 => TypeVariantView::Uint32,
            TypeVariant::Uint64 => TypeVariantView::Uint64,
            TypeVariant::Float32 => TypeVariantView::Float32,
            TypeVariant::Float64 => TypeVariantView::Float64,
            TypeVariant::Struct(n) => TypeVariantView::Struct(n@),
            TypeVariant::Enum(n) => TypeVariantView::Enum(n@),
        }
    }
}

/// One occurrence of a type: what it is, and the three flags on it.
#[derive(Debug, Clone, Eq, PartialEq)]
pub struct TypeInfo {
    pub variant: TypeVariant,
    pub is_constant: bool,
    pub is_nullable: bool,
    pub is_pointer: bool,
}

/// The model of a [`TypeInfo`].
pub struct TypeInfoView {
    pub variant: TypeVariantView,
    pub is_constant: bool,
    pub is_nullable: bool,
    pub is_pointer: bool,
}

impl View for TypeInfo {
    type V = TypeInfoView;

    open spec fn view(&self) -> TypeInfoView {
        TypeInfoView {
            variant: self.variant@,
            is_constant: self.is_constant,
            is_nullable: self.is_nullable,
            is_pointer: self.is_pointer,
        }
    }
}

/// A header that this one refers to.
#[derive(Debug, Clone, Eq, PartialEq)]
pub struct ImportInfo {
    /// The directories and then the file, so that `to/some/file.h` is
    /// `["to", "some", "file.h"]`.
    pub path: Vec<String>,
}

/// The model of an [`ImportInfo`].
pub struct ImportInfoView {
    pub path: Seq<Seq<char>>,
}

impl View for ImportInfo {
    type V = ImportInfoView;

    open spec fn view(&self) -> ImportInfoView {
        ImportInfoView { path: views(self.path@) }
    }
}

/// An enum of the header.
#[derive(Debug, Clone, Eq, PartialEq)]
pub struct EnumInfo {
    pub name: String,
    pub is_public: bool,
    /// The variants in declaration order. A value is present only where the
    /// header fixes it.
    pub variants: Vec<(String, Option<usize>)>,
    pub tags: Vec<String>,
}

/// The model of an [`EnumInfo`].
pub struct EnumInfoView {
    pub name: Seq<char>,
    pub is_public: bool,
    pub variants: Seq<(Seq<char>, Option<usize>)>,
    pub tags: Seq<Seq<char>>,
}

impl View for EnumInfo {
    type V = EnumInfoView;

    open spec fn view(&self) -> EnumInfoView {
        EnumInfoView {
            name: self.name@,
            is_public: self.is_public,
            variants: views(self.variants@),
            tags: views(self.tags@),
        }
    }
}

/// A struct of the header.
#[derive(Debug, Clone, Eq, PartialEq)]
pub struct StructInfo {
    pub name: String,
    pub is_public: bool,
    /// The fields in declaration order.
    pub fields: Vec<(String, TypeInfo)>,
    pub tags: Vec<String>,
}

/// The model of a [`StructInfo`].
pub struct StructInfoView {
    pub name: Seq<char>,
    pub is_public: bool,
    pub fields: Seq<(Seq<char>, TypeInfoView)>,
    pub tags: Seq<Seq<char>>,
}

impl View for StructInfo {
    type V = StructInfoView;

    open spec fn view(&self) -> StructInfoView {
        StructInfoView {
            name: self.name@,
            is_public: self.is_public,
            fields: views(self.fields@),
            tags: views(self.tags@),
        }
    }
}

/// An accessor without parameters.
#[derive(Debug, Clone, Eq, PartialEq)]
pub struct PropertyInfo {
    pub name: String,
    pub is_public: bool,
    pub is_static: bool,
    pub return_type: TypeInfo,
    pub comments: Vec<String>,
}

/// The model of a [`PropertyInfo`].
pub struct PropertyInfoView {
    pub name: Seq<char>,
    pub is_public: bool,
    pub is_static: bool,
    pub return_type: TypeInfoView,
    pub comments: Seq<Seq<char>>,
}

impl View for PropertyInfo {
    type V = PropertyInfoView;

    open spec fn view(&self) -> PropertyInfoView {
        PropertyInfoView {
            name: self.name@,
            is_public: self.is_public,
            is_static: self.is_static,
            return_type: self.return_type@,
            comments: views(self.comments@),
        }
    }
}

/// One parameter of a function.
#[derive(Debug, Clone, Eq, PartialEq)]
pub struct ParamInfo {
    pub name: String,
    pub ty: TypeInfo,
}

/// The model of a [`ParamInfo`].
pub struct ParamInfoView {
    pub name: Seq<char>,
    pub ty: TypeInfoView,
}

impl View for ParamInfo {
    type V = ParamInfoView;

    open spec fn view(&self) -> ParamInfoView {
        ParamInfoView { name: self.name@, ty: self.ty@ }
    }
}

/// An exported function of the header.
#[derive(Debug, Clone, Eq, PartialEq)]
pub struct MethodInfo {
    pub name: String,
    pub is_public: bool,
    pub is_static: bool,
    /// The parameters in declaration order.
    pub params: Vec<ParamInfo>,
    pub return_type: TypeInfo,
    /// The documentation lines, first line first, as they stand in the header.
    pub comments: Vec<String>,
}

/// The model of a [`MethodInfo`].
pub struct MethodInfoView {
    pub name: Seq<char>,
    pub is_public: bool,
    pub is_static: bool,
    pub params: Seq<ParamInfoView>,
    pub return_type: TypeInfoView,
    pub comments: Seq<Seq<char>>,
}

impl View for MethodInfo {
    type V = MethodInfoView;

    open spec fn view(&self) -> MethodInfoView {
        MethodInfoView {
            name: self.name@,
            is_public: self.is_public,
            is_static: self.is_static,
            params: views(self.params@),
            return_type: self.return_type@,
            comments: views(self.comments@),
        }
    }
}

/// Everything that one header exposes.
#[derive(Debug, Clone, Eq, PartialEq)]
pub struct FileInfo {
    /// The header's file name without directories and without `.h`.
    pub name: String,
    pub imports: Vec<ImportInfo>,
    pub structs: Vec<StructInfo>,
    pub enums: Vec<EnumInfo>,
    pub functions: Vec<MethodInfo>,
    pub properties: Vec<PropertyInfo>,
}

/// The model of a [`FileInfo`].
pub struct FileInfoView {
    pub name: Seq<char>,
    pub imports: Seq<ImportInfoView>,
    pub structs: Seq<StructInfoView>,
    pub enums: Seq<EnumInfoView>,
    pub functions: Seq<MethodInfoView>,
    pub properties: Seq<PropertyInfoView>,
}

impl FileInfoView {
    /// Whether every type in the manifest can be resolved: the types of the
    /// fields of its structs, and the parameter types and the return types
    /// of its functions.
    pub open spec fn has_resolvable_types(self) -> bool {
        &&& forall|k: int, i: int|
            #![trigger self.structs[k].fields[i]]
            0 <= k < self.structs.len() && 0 <= i < self.structs[k].fields.len()
                ==> self.structs[k].fields[i].1.variant.is_resolvable()
        &&& forall|k: int|
            #![trigger self.functions[k]]
            0 <= k < self.functions.len()
                ==> self.functions[k].return_type.variant.is_resolvable()
        &&& forall|k: int, i: int|
            #![trigger self.functions[k].params[i]]
            0 <= k < self.functions.len() && 0 <= i < self.functions[k].params.len()
                ==> self.functions[k].params[i].ty.variant.is_resolvable()
    }
}

impl View for FileInfo {
    type V = FileInfoView;

    open spec fn view(&self) -> FileInfoView {
        FileInfoView {
            name: self.name@,
            imports: views(self.imports@),
            structs: views(self.structs@),
            enums: views(self.enums@),
            functions: views(self.functions@),
            properties: views(self.properties@),
        }
    }
}

} // verus!
