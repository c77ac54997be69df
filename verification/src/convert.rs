//! From one declaration to its record.
//!
//! Each converter has a spec function that says which record a declaration
//! has, if it has one, and an executable function that builds it.

use vstd::prelude::*;
use crate::grammar::{
    GEnumDecl, GEnumDeclView, GFunctionDecl, GFunctionDeclView, GHeaderInclude, GParamItem,
    GParamItemView, GStructDecl, GStructDeclView, GStructIndicator, GStructIndicatorView,
};
use crate::manifest::{
    EnumInfo, EnumInfoView, Error, ImportInfo, ImportInfoView, MethodInfo, MethodInfoView,
    ParamInfo, ParamInfoView, PropertyInfo, PropertyInfoView, StructInfo, StructInfoView,
    TypeInfo,
};
use crate::model::views;
use crate::normalize::type_info_of;
use crate::policy::{visibility, visibility_of};
use crate::text::{segments, split_path};

verus! {

/// The record of an include line: the segments of its path, where none of
/// them is empty.
pub open spec fn import_info_of(path: Seq<char>) -> Option<ImportInfoView> {
    if forall|k: int| 0 <= k < segments(path).len() ==> (#[trigger] segments(path)[k]).len() > 0 {
        Some(ImportInfoView { path: segments(path) })
    } else {
        None
    }
}

/// The record of a parameter: its name and its normalized type.
pub open spec fn param_info_of(param: GParamItemView) -> Option<ParamInfoView> {
    match type_info_of(param.ty) {
        Some(ty) => Some(ParamInfoView { name: param.name, ty }),
        None => None,
    }
}

/// The record of a struct that is named without its fields.
pub open spec fn forward_struct(decl: GStructIndicatorView) -> StructInfoView {
    StructInfoView { name: decl.name, is_public: true, fields: Seq::empty(), tags: Seq::empty() }
}

/// The record of a struct definition: public, with every field under its
/// name and normalized type, in declaration order, and the tags as they are.
/// There is none where the type of some field names nothing.
pub open spec fn struct_info_of(decl: GStructDeclView) -> Option<StructInfoView> {
    if forall|i: int|
        #![trigger decl.fields[i]]
        0 <= i < decl.fields.len() ==> type_info_of(decl.fields[i].1) is Some {
        Some(
            StructInfoView {
                name: decl.name,
                is_public: true,
                fields: Seq::new(
                    decl.fields.len(),
                    |i: int| (decl.fields[i].0, type_info_of(decl.fields[i].1)->0),
                ),
                tags: decl.tags,
            },
        )
    } else {
        None
    }
}

/// The record of an enum definition: public, with the variants and the tags
/// as they are. There is none where some variant has no name.
pub open spec fn enum_info_of(decl: GEnumDeclView) -> Option<EnumInfoView> {
    if forall|i: int|
        #![trigger decl.variants[i]]
        0 <= i < decl.variants.len() ==> decl.variants[i].0.len() > 0 {
        Some(
            EnumInfoView {
                name: decl.name,
                is_public: true,
                variants: decl.variants,
                tags: decl.tags,
            },
        )
    } else {
        None
    }
}

/// Whether every type in the signature of `decl` names something.
pub open spec fn has_sound_signature(decl: GFunctionDeclView) -> bool {
    &&& type_info_of(decl.return_value) is Some
    &&& forall|i: int|
        #![trigger decl.params[i]]
        0 <= i < decl.params.len() ==> param_info_of(decl.params[i]) is Some
}

/// The record of a function declaration: exposed as its markers say, with
/// the parameters in declaration order and the comment lines as they are.
/// There is none where the declaration carries no export marker or a type in
/// its signature names nothing.
pub open spec fn method_info_of(decl: GFunctionDeclView) -> Option<MethodInfoView> {
    match visibility_of(decl.markers) {
        Some(visibility) => if has_sound_signature(decl) {
            Some(
                MethodInfoView {
                    name: decl.name,
                    is_public: visibility.is_public,
                    is_static: visibility.is_static,
                    params: Seq::new(
                        decl.params.len(),
                        |i: int| param_info_of(decl.params[i])->0,
                    ),
                    return_type: type_info_of(decl.return_value)->0,
                    comments: decl.comments,
                },
            )
        } else {
            None
        },
        None => None,
    }
}

/// The record of a function declaration read as a property: that of the
/// method without the parameter list. There is none where the declaration
/// has a parameter or has no record as a method.
pub open spec fn property_info_of(decl: GFunctionDeclView) -> Option<PropertyInfoView> {
    if decl.params.len() == 0 {
        match method_info_of(decl) {
            Some(m) => Some(
                PropertyInfoView {
                    name: m.name,
                    is_public: m.is_public,
                    is_static: m.is_static,
                    return_type: m.return_type,
                    comments: m.comments,
                },
            ),
            None => None,
        }
    } else {
        None
    }
}

fn clone_lines(lines: &Vec<String>) -> (out: Vec<String>)
    ensures
        out@ == lines@,
{
    let mut out: Vec<String> = Vec::new();
    let mut i: usize = 0;
    while i < lines.len()
        invariant
            i <= lines.len(),
            out@ == lines@.take(i as int),
        decreases lines.len() - i,
    {
        out.push(lines[i].clone());
        assert(lines@.take(i + 1) =~= lines@.take(i as int).push(lines@[i as int]));
        i += 1;
    }
    assert(lines@.take(lines.len() as int) =~= lines@);
    out
}

impl ImportInfo {
    /// Converts an include line: `to/some/file.h` becomes `to`, `some`,
    /// `file.h`. Fails with [`Error::BadImport`] exactly when a segment of
    /// the path is empty: the path is empty, starts or ends with `/`, or
    /// holds two `/` in a row.
    pub fn from_g_type(line: &GHeaderInclude) -> (res: Result<ImportInfo, Error>)
        ensures
            match res {
                Ok(info) => import_info_of(line@) == Some(info@),
                Err(e) => e == Error::BadImport && import_info_of(line@) is None,
            },
    {
        let path = split_path(line.0.as_str());
        let mut k: usize = 0;
        while k < path.len()
            invariant
                k <= path.len(),
                views(path@) == segments(line@),
                forall|j: int| 0 <= j < k ==> (#[trigger] segments(line@)[j]).len() > 0,
            decreases path.len() - k,
        {
            assert(segments(line@)[k as int] == path@[k as int]@);
            if path[k].as_str().is_empty() {
                return Err(Error::BadImport);
            }
            k += 1;
        }
        Ok(ImportInfo { path })
    }
}

impl ParamInfo {
    /// Converts a parameter. Fails with [`Error::BadType`] exactly when its
    /// type names nothing.
    pub fn from_g_type(param: &GParamItem) -> (res: Result<ParamInfo, Error>)
        ensures
            match res {
                Ok(info) => param_info_of(param@) == Some(info@),
                Err(e) => e == Error::BadType && param_info_of(param@) is None,
            },
    {
        match TypeInfo::from_g_type(&param.ty) {
            Ok(ty) => Ok(ParamInfo { name: param.name.0.0.clone(), ty }),
            Err(e) => Err(e),
        }
    }
}

impl StructInfo {
    /// The record of a struct that the header names without defining it:
    /// public, without fields and without tags.
    pub fn from_indicator(decl: &GStructIndicator) -> (info: StructInfo)
        ensures
            info@ == forward_struct(decl@),
            info@.name == decl@.name,
            info.is_public,
            info.fields@.len() == 0,
            info.tags@.len() == 0,
    {
        let info = StructInfo {
            name: decl.name.0.0.clone(),
            is_public: true,
            fields: Vec::new(),
            tags: Vec::new(),
        };
        assert(info@.fields =~= Seq::empty());
        assert(info@.tags =~= Seq::empty());
        info
    }

    /// Converts a struct definition. Fails with [`Error::BadObject`] exactly
    /// when the type of some field names nothing.
    pub fn from_g_type(decl: &GStructDecl) -> (res: Result<StructInfo, Error>)
        ensures
            match res {
                Ok(info) => struct_info_of(decl@) == Some(info@),
                Err(e) => e == Error::BadObject && struct_info_of(decl@) is None,
            },
    {
        let mut fields: Vec<(String, TypeInfo)> = Vec::new();
        let mut i: usize = 0;
        while i < decl.fields.len()
            invariant
                i <= decl.fields.len(),
                fields@.len() == i,
                forall|j: int|
                    #![trigger decl@.fields[j]]
                    0 <= j < i ==> type_info_of(decl@.fields[j].1) == Some(fields@[j].1@)
                        && fields@[j].0@ == decl@.fields[j].0,
            decreases decl.fields.len() - i,
        {
            assert(decl@.fields[i as int] == decl.fields@[i as int]@);
            match TypeInfo::from_g_type(&decl.fields[i].1) {
                Ok(ty) => {
                    fields.push((decl.fields[i].0.0.clone(), ty));
                },
                Err(_) => {
                    return Err(Error::BadObject);
                },
            }
            i += 1;
        }
        let info = StructInfo {
            name: decl.name.0.0.clone(),
            is_public: true,
            fields,
            tags: clone_lines(&decl.tags),
        };
        assert(info@.fields =~= struct_info_of(decl@)->0.fields);
        Ok(info)
    }
}

impl EnumInfo {
    /// Converts an enum definition. Fails with [`Error::BadObject`] exactly
    /// when some variant has no name.
    pub fn from_g_type(decl: &GEnumDecl) -> (res: Result<EnumInfo, Error>)
        ensures
            match res {
                Ok(info) => enum_info_of(decl@) == Some(info@),
                Err(e) => e == Error::BadObject && enum_info_of(decl@) is None,
            },
    {
        let mut variants: Vec<(String, Option<usize>)> = Vec::new();
        let mut i: usize = 0;
        while i < decl.variants.len()
            invariant
                i <= decl.variants.len(),
                variants@.len() == i,
                forall|j: int|
                    #![trigger decl@.variants[j]]
                    0 <= j < i ==> decl@.variants[j].0.len() > 0 && variants@[j]@
                        == decl@.variants[j],
            decreases decl.variants.len() - i,
        {
            assert(decl@.variants[i as int] == decl.variants@[i as int]@);
            if decl.variants[i].0.0.as_str().is_empty() {
                return Err(Error::BadObject);
            }
            variants.push((decl.variants[i].0.0.clone(), decl.variants[i].1));
            i += 1;
        }
        let info = EnumInfo {
            name: decl.name.0.0.clone(),
            is_public: true,
            variants,
            tags: clone_lines(&decl.tags),
        };
        assert(info@.variants =~= decl@.variants);
        Ok(info)
    }
}

/// The parameters of `decl`, converted in order; `None` where the type of
/// one names nothing.
fn convert_params(decl: &GFunctionDecl) -> (res: Option<Vec<ParamInfo>>)
    ensures
        match res {
            Some(params) => {
                &&& forall|i: int|
                    #![trigger decl@.params[i]]
                    0 <= i < decl@.params.len() ==> param_info_of(decl@.params[i]) is Some
                &&& views(params@) == Seq::new(
                    decl@.params.len(),
                    |i: int| param_info_of(decl@.params[i])->0,
                )
            },
            None => exists|i: int|
                #![trigger decl@.params[i]]
                0 <= i < decl@.params.len() && param_info_of(decl@.params[i]) is None,
        },
{
    let mut params: Vec<ParamInfo> = Vec::new();
    let mut i: usize = 0;
    while i < decl.params.len()
        invariant
            i <= decl.params.len(),
            params@.len() == i,
            forall|j: int|
                #![trigger decl@.params[j]]
                0 <= j < i ==> param_info_of(decl@.params[j]) == Some(params@[j]@),
        decreases decl.params.len() - i,
    {
        assert(decl@.params[i as int] == decl.params@[i as int]@);
        match ParamInfo::from_g_type(&decl.params[i]) {
            Ok(p) => {
                params.push(p);
            },
            Err(_) => {
                return None;
            },
        }
        i += 1;
    }
    assert(views(params@) =~= Seq::new(
        decl@.params.len(),
        |i: int| param_info_of(decl@.params[i])->0,
    ));
    Some(params)
}

impl MethodInfo {
    /// Converts a function declaration.
    ///
    /// `_object` is the header that owns the declaration, where the caller
    /// knows it; the record does not depend on it. Fails with
    /// [`Error::BadProperty`] exactly when the declaration carries neither
    /// export marker or a type in its signature names nothing.
    pub fn from_g_type(_object: &Option<String>, decl: &GFunctionDecl) -> (res: Result<
        MethodInfo,
        Error,
    >)
        ensures
            match res {
                Ok(info) => method_info_of(decl@) == Some(info@),
                Err(e) => e == Error::BadProperty && method_info_of(decl@) is None,
            },
    {
        let exposed = match visibility(&decl.markers) {
            Some(v) => v,
            None => {
                return Err(Error::BadProperty);
            },
        };
        let return_type = match TypeInfo::from_g_type(&decl.return_value) {
            Ok(ty) => ty,
            Err(_) => {
                return Err(Error::BadProperty);
            },
        };
        match convert_params(decl) {
            Some(params) => Ok(
                MethodInfo {
                    name: decl.name.0.clone(),
                    is_public: exposed.is_public,
                    is_static: exposed.is_static,
                    params,
                    return_type,
                    comments: clone_lines(&decl.comments),
                },
            ),
            None => Err(Error::BadProperty),
        }
    }
}

impl PropertyInfo {
    /// Converts a function declaration that stands for a property.
    ///
    /// `_object` is the header that owns the declaration, where the caller
    /// knows it; the record does not depend on it. Fails with
    /// [`Error::BadProperty`] exactly when the declaration has a parameter,
    /// carries neither export marker, or has a return type that names nothing.
    pub fn from_g_type(_object: &Option<String>, decl: &GFunctionDecl) -> (res: Result<
        PropertyInfo,
        Error,
    >)
        ensures
            match res {
                Ok(info) => property_info_of(decl@) == Some(info@),
                Err(e) => e == Error::BadProperty && property_info_of(decl@) is None,
            },
    {
        if decl.params.len() != 0 {
            return Err(Error::BadProperty);
        }
        let exposed = match visibility(&decl.markers) {
            Some(v) => v,
            None => {
                return Err(Error::BadProperty);
            },
        };
        match TypeInfo::from_g_type(&decl.return_value) {
            Ok(return_type) => Ok(
                PropertyInfo {
                    name: decl.name.0.clone(),
                    is_public: exposed.is_public,
                    is_static: exposed.is_static,
                    return_type,
                    comments: clone_lines(&decl.comments),
                },
            ),
            Err(_) => Err(Error::BadProperty),
        }
    }
}

} // verus!
