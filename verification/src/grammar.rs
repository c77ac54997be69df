//! The declarations of a C header as the parser hands them over.
//!
//! Every type here is plain data. Beside each stands its mathematical model,
//! reached with `@`, in which every name is a sequence of characters. The
//! contracts of the crate speak of the models alone, so two headers that
//! spell the same declarations are the same input.

use vstd::prelude::*;
use crate::model::views;

verus! {

/// An identifier as it is spelled in the header.
#[derive(Debug, Clone, PartialEq, Eq)]
pub struct GKeyword(pub String);

impl View for GKeyword {
    type V = Seq<char>;

    open spec fn view(&self) -> Seq<char> {
        self.0@
    }
}

/// The name of a struct.
#[derive(Debug, Clone, PartialEq, Eq)]
pub struct GStructName(pub GKeyword);

impl View for GStructName {
    type V = Seq<char>;

    open spec fn view(&self) -> Seq<char> {
        self.0@
    }
}

/// The name of an enum.
#[derive(Debug, Clone, PartialEq, Eq)]
pub struct GEnumName(pub GKeyword);

impl View for GEnumName {
    type V = Seq<char>;

    open spec fn view(&self) -> Seq<char> {
        self.0@
    }
}

/// The name of a function.
#[derive(Debug, Clone, PartialEq, Eq)]
pub struct GFunctionName(pub String);

impl View for GFunctionName {
    type V = Seq<char>;

    open spec fn view(&self) -> Seq<char> {
        self.0@
    }
}

/// The name of a parameter.
#[derive(Debug, Clone, PartialEq, Eq)]
pub struct GParamName(pub GKeyword);

impl View for GParamName {
    type V = Seq<char>;

    open spec fn view(&self) -> Seq<char> {
        self.0@
    }
}

/// The path between the quotes or angle brackets of an include line.
#[derive(Debug, Clone, PartialEq, Eq)]
pub struct GHeaderInclude(pub String);

impl View for GHeaderInclude {
    type V = Seq<char>;

    open spec fn view(&self) -> Seq<char> {
        self.0@
    }
}

/// The scalar keywords that the parser recognizes.
#[derive(Debug, Clone, Copy, PartialEq, Eq, Structural)]
pub enum GPrimitive {
    Void,
    Bool,
    Int8T,
    Int16T,
    Int32T,
    Int64T,
    UInt8T,
    UInt16T,
    UInt32T,
    UInt64T,
    Float,
    Double,
}

/// What a type expression names, under its qualifier.
#[derive(Debug, PartialEq, Eq)]
pub enum GTypeCategory {
    /// A recognized scalar keyword.
    Scalar(GPrimitive),
    /// `struct` followed by a name.
    Struct(GStructName),
    /// `enum` followed by a name.
    Enum(GEnumName),
    /// A pointer to the inner category.
    Pointer(Box<GTypeCategory>),
    /// The inner category, marked as one that may be null.
    Nullable(Box<GTypeCategory>),
    /// A keyword that is no scalar: the name of a type declared elsewhere.
    Unrecognized(GKeyword),
}

/// The model of a [`GTypeCategory`].
pub enum GTypeCategoryView {
    Scalar(GPrimitive),
    Struct(Seq<char>),
    Enum(Seq<char>),
    Pointer(Box<GTypeCategoryView>),
    Nullable(Box<GTypeCategoryView>),
    Unrecognized(Seq<char>),
}

impl View for GTypeCategory {
    type V = GTypeCategoryView;

    open spec fn view(&self) -> GTypeCategoryView
        decreases self,
    {
        match self {
            GTypeCategory::Scalar(p) => GTypeCategoryView::Scalar(*p),
            GTypeCategory::Struct(n) => GTypeCategoryView::Struct(n@),
            GTypeCategory::Enum(n) => GTypeCategoryView::Enum(n@),
            GTypeCategory::Pointer(inner) => GTypeCategoryView::Pointer(Box::new((**inner).view())),
            GTypeCategory::Nullable(inner) => GTypeCategoryView::Nullable(
                Box::new((**inner).view()),
            ),
            GTypeCategory::Unrecognized(k) => GTypeCategoryView::Unrecognized(k@),
        }
    }
}

impl Clone for GTypeCategory {
    fn clone(&self) -> (out: Self)
        ensures
            out@ == self@,
        decreases self,
    {
        match self {
            GTypeCategory::Scalar(p) => GTypeCategory::Scalar(*p),
            GTypeCategory::Struct(n) => GTypeCategory::Struct(
                GStructName(GKeyword(n.0.0.clone())),
            ),
            GTypeCategory::Enum(n) => GTypeCategory::Enum(GEnumName(GKeyword(n.0.0.clone()))),
            GTypeCategory::Pointer(inner) => GTypeCategory::Pointer(Box::new((**inner).clone())),
            GTypeCategory::Nullable(inner) => GTypeCategory::Nullable(
                Box::new((**inner).clone()),
            ),
            GTypeCategory::Unrecognized(k) => GTypeCategory::Unrecognized(GKeyword(k.0.clone())),
        }
    }
}

/// A type expression: one category under exactly one qualifier.
#[derive(Debug, PartialEq, Eq)]
pub enum GType {
    Mutable(GTypeCategory),
    Const(GTypeCategory),
    Extern(GTypeCategory),
}

/// The model of a [`GType`].
pub enum GTypeView {
    Mutable(GTypeCategoryView),
    Const(GTypeCategoryView),
    Extern(GTypeCategoryView),
}

impl GTypeView {
    /// The category under the qualifier.
    pub open spec fn category(self) -> GTypeCategoryView {
        match self {
            GTypeView::Mutable(c) => c,
            GTypeView::Const(c) => c,
            GTypeView::Extern(c) => c,
        }
    }
}

impl View for GType {
    type V = GTypeView;

    open spec fn view(&self) -> GTypeView {
        match self {
            GType::Mutable(c) => GTypeView::Mutable(c@),
            GType::Const(c) => GTypeView::Const(c@),
            GType::Extern(c) => GTypeView::Extern(c@),
        }
    }
}

impl Clone for GType {
    fn clone(&self) -> (out: Self)
        ensures
            out@ == self@,
    {
        match self {
            GType::Mutable(c) => GType::Mutable(c.clone()),
            GType::Const(c) => GType::Const(c.clone()),
            GType::Extern(c) => GType::Extern(c.clone()),
        }
    }
}

impl GType {
    /// The category under the qualifier.
    pub fn category(&self) -> (cat: &GTypeCategory)
        ensures
            cat@ == self@.category(),
    {
        match self {
            GType::Mutable(c) => c,
            GType::Const(c) => c,
            GType::Extern(c) => c,
        }
    }
}

/// An annotation in front of a declaration.
#[derive(Debug, Clone, Copy, PartialEq, Eq, Structural)]
pub enum GMarker {
    TwExportClass,
    TwExportStruct,
    TwExportEnum,
    TwExportFunc,
    /// The function is exported as a method of an instance.
    TwExportMethod,
    /// The function is exported as a method of the type itself.
    TwExportStaticMethod,
}

/// The annotations of one declaration, in source order.
#[derive(Debug, Clone, PartialEq, Eq)]
pub struct GMarkers(pub Vec<GMarker>);

impl View for GMarkers {
    type V = Seq<GMarker>;

    open spec fn view(&self) -> Seq<GMarker> {
        self.0@
    }
}

impl GMarkers {
    /// Whether `marker` is among the annotations.
    pub fn contains(&self, marker: GMarker) -> (found: bool)
        ensures
            found == self@.contains(marker),
    {
        let mut i: usize = 0;
        while i < self.0.len()
            invariant
                i <= self.0.len(),
                forall|j: int| 0 <= j < i ==> self.0@[j] != marker,
            decreases self.0.len() - i,
        {
            if self.0[i] == marker {
                return true;
            }
            i += 1;
        }
        false
    }
}

/// One parameter of a function declaration.
#[derive(Debug, Clone, PartialEq, Eq)]
pub struct GParamItem {
    pub ty: GType,
    pub name: GParamName,
}

/// The model of a [`GParamItem`].
pub struct GParamItemView {
    pub ty: GTypeView,
    pub name: Seq<char>,
}

impl View for GParamItem {
    type V = GParamItemView;

    open spec fn view(&self) -> GParamItemView {
        GParamItemView { ty: self.ty@, name: self.name@ }
    }
}

/// A function declaration.
#[derive(Debug, Clone, PartialEq, Eq)]
pub struct GFunctionDecl {
    pub name: GFunctionName,
    pub params: Vec<GParamItem>,
    pub return_value: GType,
    pub markers: GMarkers,
    /// The documentation lines above the declaration, first line first.
    pub comments: Vec<String>,
}

/// The model of a [`GFunctionDecl`].
pub struct GFunctionDeclView {
    pub name: Seq<char>,
    pub params: Seq<GParamItemView>,
    pub return_value: GTypeView,
    pub markers: Seq<GMarker>,
    pub comments: Seq<Seq<char>>,
}

impl View for GFunctionDecl {
    type V = GFunctionDeclView;

    open spec fn view(&self) -> GFunctionDeclView {
        GFunctionDeclView {
            name: self.name@,
            params: views(self.params@),
            return_value: self.return_value@,
            markers: self.markers@,
            comments: views(self.comments@),
        }
    }
}

/// A struct named without its fields.
#[derive(Debug, Clone, PartialEq, Eq)]
pub struct GStructIndicator {
    pub name: GStructName,
}

/// The model of a [`GStructIndicator`].
pub struct GStructIndicatorView {
    pub name: Seq<char>,
}

impl View for GStructIndicator {
    type V = GStructIndicatorView;

    open spec fn view(&self) -> GStructIndicatorView {
        GStructIndicatorView { name: self.name@ }
    }
}

/// A struct definition.
#[derive(Debug, Clone, PartialEq, Eq)]
pub struct GStructDecl {
    pub name: GStructName,
    /// The fields in declaration order, each with its name and type.
    pub fields: Vec<(GKeyword, GType)>,
    /// The annotations on the definition, as they are spelled.
    pub tags: Vec<String>,
}

/// The model of a [`GStructDecl`].
pub struct GStructDeclView {
    pub name: Seq<char>,
    pub fields: Seq<(Seq<char>, GTypeView)>,
    pub tags: Seq<Seq<char>>,
}

impl View for GStructDecl {
    type V = GStructDeclView;

    open spec fn view(&self) -> GStructDeclView {
        GStructDeclView {
            name: self.name@,
            fields: views(self.fields@),
            tags: views(self.tags@),
        }
    }
}

/// An enum definition.
#[derive(Debug, Clone, PartialEq, Eq)]
pub struct GEnumDecl {
    pub name: GEnumName,
    /// The variants in declaration order, each with the value that the
    /// header fixes for it, if it fixes one.
    pub variants: Vec<(GKeyword, Option<usize>)>,
    /// The annotations on the definition, as they are spelled.
    pub tags: Vec<String>,
}

/// The model of a [`GEnumDecl`].
pub struct GEnumDeclView {
    pub name: Seq<char>,
    pub variants: Seq<(Seq<char>, Option<usize>)>,
    pub tags: Seq<Seq<char>>,
}

impl View for GEnumDecl {
    type V = GEnumDeclView;

    open spec fn view(&self) -> GEnumDeclView {
        GEnumDeclView {
            name: self.name@,
            variants: views(self.variants@),
            tags: views(self.tags@),
        }
    }
}

/// One parsed unit of a header.
#[derive(Debug, Clone, PartialEq, Eq)]
pub enum GHeaderFileItem {
    Comment(String),
    HeaderInclude(GHeaderInclude),
    StructIndicator(GStructIndicator),
    StructDecl(GStructDecl),
    EnumDecl(GEnumDecl),
    FunctionDecl(GFunctionDecl),
    Unrecognized(String),
}

/// The model of a [`GHeaderFileItem`].
pub enum GHeaderFileItemView {
    Comment(Seq<char>),
    HeaderInclude(Seq<char>),
    StructIndicator(GStructIndicatorView),
    StructDecl(GStructDeclView),
    EnumDecl(GEnumDeclView),
    FunctionDecl(GFunctionDeclView),
    Unrecognized(Seq<char>),
}

impl View for GHeaderFileItem {
    type V = GHeaderFileItemView;

    open spec fn view(&self) -> GHeaderFileItemView {
        match self {
            GHeaderFileItem::Comment(c) => GHeaderFileItemView::Comment(c@),
            GHeaderFileItem::HeaderInclude(p) => GHeaderFileItemView::HeaderInclude(p@),
            GHeaderFileItem::StructIndicator(d) => GHeaderFileItemView::StructIndicator(d@),
            GHeaderFileItem::StructDecl(d) => GHeaderFileItemView::StructDecl(d@),
            GHeaderFileItem::EnumDecl(d) => GHeaderFileItemView::EnumDecl(d@),
            GHeaderFileItem::FunctionDecl(d) => GHeaderFileItemView::FunctionDecl(d@),
            GHeaderFileItem::Unrecognized(t) => GHeaderFileItemView::Unrecognized(t@),
        }
    }
}

} // verus!
