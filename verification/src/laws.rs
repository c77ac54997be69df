//! What holds of every manifest.
//!
//! Each law is a proof function over the spec functions that the contracts
//! of the executable functions use, so it holds of whatever they return.

use vstd::prelude::*;
use crate::assemble::{
    absorb, enum_records, function_record, function_records, header_report, is_header_report,
    manifest_of, present, rejection, rejections, struct_record, struct_records, with,
    FileReport,
};
use crate::convert::{
    enum_info_of, forward_struct, has_sound_signature, method_info_of, param_info_of,
    property_info_of, struct_info_of,
};
use crate::grammar::{
    GEnumDeclView, GFunctionDeclView, GHeaderFileItemView, GMarker, GStructDeclView,
    GStructIndicatorView, GTypeCategoryView, GTypeView,
};
use crate::manifest::{Error, FileInfoView, TypeInfoView};
use crate::normalize::{custom_name, lemma_variant_is_resolvable, type_info_of};
use crate::policy::{is_exported, is_lifecycle_name, is_selected};
use crate::text::header_stem;

verus! {

/// The positions of the entries of `options` that are present, rising.
pub open spec fn positions<A>(options: Seq<Option<A>>) -> Seq<int>
    decreases options.len(),
{
    if options.len() == 0 {
        Seq::empty()
    } else {
        with(
            positions(options.drop_last()),
            if options.last() is Some {
                Some(options.len() - 1)
            } else {
                None
            },
        )
    }
}

/// `out` holds the present entries of `options` and no others, in their
/// order: `from` names, for each element of `out`, the position in `options`
/// that it comes from, the positions rise, and no present entry is left out.
pub open spec fn keeps_order<A>(options: Seq<Option<A>>, out: Seq<A>, from: Seq<int>) -> bool {
    &&& out.len() == from.len()
    &&& forall|k: int|
        0 <= k < from.len() ==> 0 <= #[trigger] from[k] < options.len() && options[from[k]]
            == Some(out[k])
    &&& forall|j: int, k: int| 0 <= j < k < from.len() ==> from[j] < from[k]
    &&& forall|i: int|
        0 <= i < options.len() && (#[trigger] options[i]) is Some ==> from.contains(i)
}

/// Leaving out the absent entries changes no order.
pub proof fn lemma_present_keeps_order<A>(options: Seq<Option<A>>)
    ensures
        keeps_order(options, present(options), positions(options)),
    decreases options.len(),
{
    if options.len() > 0 {
        let init = options.drop_last();
        let from0 = positions(init);
        let from = positions(options);
        lemma_present_keeps_order(init);
        assert forall|i: int| 0 <= i < options.len() && (#[trigger] options[i]) is Some implies {
            from.contains(i)
        } by {
            if i < init.len() {
                assert(init[i] is Some);
                let k = choose|k: int| 0 <= k < from0.len() && from0[k] == i;
                assert(from[k] == i);
            } else {
                assert(from[from.len() - 1] == i);
            }
        }
    }
}

/// The collections of a manifest keep the order of the header: its structs,
/// its enums and its functions are the records of the declarations, each in
/// the relative order of the declarations that they come from. Its imports
/// and its properties are empty.
pub proof fn lemma_manifest_keeps_order(name: Seq<char>, items: Seq<GHeaderFileItemView>)
    ensures
        keeps_order(
            struct_records(items),
            manifest_of(name, items).structs,
            positions(struct_records(items)),
        ),
        keeps_order(
            enum_records(items),
            manifest_of(name, items).enums,
            positions(enum_records(items)),
        ),
        keeps_order(
            function_records(items),
            manifest_of(name, items).functions,
            positions(function_records(items)),
        ),
        manifest_of(name, items).imports.len() == 0,
        manifest_of(name, items).properties.len() == 0,
{
    lemma_present_keeps_order(struct_records(items));
    lemma_present_keeps_order(enum_records(items));
    lemma_present_keeps_order(function_records(items));
}

/// A struct keeps the order of its fields: the record has one field for
/// each field of the definition, at the same position, under the same name
/// and with its normalized type; the tags are those of the definition.
pub proof fn lemma_struct_keeps_field_order(decl: GStructDeclView)
    requires
        struct_info_of(decl) is Some,
    ensures
        struct_info_of(decl)->0.fields.len() == decl.fields.len(),
        forall|i: int|
            #![trigger decl.fields[i]]
            0 <= i < decl.fields.len() ==> struct_info_of(decl)->0.fields[i].0 == decl.fields[i].0
                && type_info_of(decl.fields[i].1) == Some(struct_info_of(decl)->0.fields[i].1),
        struct_info_of(decl)->0.tags == decl.tags,
{
}

/// An enum keeps the order of its variants: the record has the variants of
/// the definition, each at its position with its name and with the value
/// that the header fixes for it or with none; the tags are those of the
/// definition.
pub proof fn lemma_enum_keeps_variant_order(decl: GEnumDeclView)
    requires
        enum_info_of(decl) is Some,
    ensures
        enum_info_of(decl)->0.variants == decl.variants,
        enum_info_of(decl)->0.tags == decl.tags,
{
}

/// A function keeps the order of its parameters and of its comments: the
/// record has one parameter for each parameter of the declaration, at the
/// same position; the comment lines are those of the declaration.
pub proof fn lemma_method_keeps_param_order(decl: GFunctionDeclView)
    requires
        method_info_of(decl) is Some,
    ensures
        method_info_of(decl)->0.params.len() == decl.params.len(),
        forall|i: int|
            #![trigger decl.params[i]]
            0 <= i < decl.params.len() ==> param_info_of(decl.params[i]) == Some(
                method_info_of(decl)->0.params[i],
            ),
        method_info_of(decl)->0.comments == decl.comments,
        property_info_of(decl) is Some ==> property_info_of(decl)->0.comments == decl.comments,
{
}

/// Processing is repeatable: whatever it returns is fixed by the path and
/// the declarations. Two runs on the same input fail with the same error or
/// give the same manifest and the same list of skipped declarations.
pub proof fn lemma_processing_is_deterministic(
    path: Seq<char>,
    items: Seq<GHeaderFileItemView>,
    first: Result<FileReport, Error>,
    second: Result<FileReport, Error>,
)
    requires
        is_header_report(path, items, first),
        is_header_report(path, items, second),
    ensures
        match (first, second) {
            (Ok(a), Ok(b)) => a@ == b@,
            (Err(a), Err(b)) => a == b,
            _ => false,
        },
{
}

/// What a declaration adds to a manifest, and the error that it is reported
/// with, depend on the declaration alone: not on its position, and not on
/// the declarations around it.
pub proof fn lemma_policy_is_declaration_local(
    a: Seq<GHeaderFileItemView>,
    i: int,
    b: Seq<GHeaderFileItemView>,
    j: int,
)
    requires
        0 <= i < a.len(),
        0 <= j < b.len(),
        a[i] == b[j],
    ensures
        struct_records(a)[i] == struct_records(b)[j],
        enum_records(a)[i] == enum_records(b)[j],
        function_records(a)[i] == function_records(b)[j],
        rejection(a[i]) == rejection(b[j]),
{
}

/// No error is swallowed: the list of skipped declarations names exactly
/// the declarations that the policy takes up and that have no record, each
/// by its position and with its error, the positions rising.
pub proof fn lemma_rejections_are_complete(items: Seq<GHeaderFileItemView>)
    requires
        items.len() <= usize::MAX,
    ensures
        forall|k: int|
            0 <= k < rejections(items).len() ==> (#[trigger] rejections(items)[k]).0
                < items.len() && rejection(items[rejections(items)[k].0 as int]) == Some(
                rejections(items)[k].1,
            ),
        forall|j: int, k: int|
            0 <= j < k < rejections(items).len() ==> rejections(items)[j].0 < rejections(
                items,
            )[k].0,
        forall|i: int|
            0 <= i < items.len() && rejection(#[trigger] items[i]) is Some ==> exists|k: int|
                0 <= k < rejections(items).len() && (#[trigger] rejections(items)[k]).0 == i,
    decreases items.len(),
{
    if items.len() > 0 {
        let init = items.drop_last();
        lemma_rejections_are_complete(init);
        assert forall|i: int|
            0 <= i < items.len() && rejection(#[trigger] items[i]) is Some implies {
            exists|k: int|
                0 <= k < rejections(items).len() && (#[trigger] rejections(items)[k]).0 == i
        } by {
            if i < init.len() {
                assert(init[i] == items[i]);
                let k = choose|k: int|
                    0 <= k < rejections(init).len() && (#[trigger] rejections(init)[k]).0 == i;
                assert(rejections(items)[k].0 == i);
            } else {
                assert(rejections(items)[rejections(items).len() - 1].0 == i);
            }
        }
    }
}

/// A manifest is named by the path of its header alone: by the file name
/// without its `.h`, whatever the header declares.
pub proof fn lemma_manifest_is_named_by_path(path: Seq<char>, items: Seq<GHeaderFileItemView>)
    ensures
        header_report(path, items) is Ok <==> header_stem(path) is Some,
        header_report(path, items) matches Ok(report) ==> header_stem(path) == Some(
            report.info.name,
        ),
        header_report(path, items) matches Err(e) ==> e == Error::BadImport,
{
}

/// Every type in a manifest can be resolved: it is a scalar or a reference
/// by a name that is not empty.
pub proof fn lemma_manifest_types_are_resolvable(name: Seq<char>, items: Seq<GHeaderFileItemView>)
    ensures
        manifest_of(name, items).has_resolvable_types(),
{
    let m = manifest_of(name, items);
    lemma_present_keeps_order(struct_records(items));
    lemma_present_keeps_order(function_records(items));
    assert forall|k: int, i: int|
        #![trigger m.structs[k].fields[i]]
        0 <= k < m.structs.len() && 0 <= i < m.structs[k].fields.len() implies {
        m.structs[k].fields[i].1.variant.is_resolvable()
    } by {
        let from = positions(struct_records(items))[k];
        assert(struct_records(items)[from] == struct_record(items[from]));
        match items[from] {
            GHeaderFileItemView::StructDecl(decl) => {
                assert(type_info_of(decl.fields[i].1) == Some(m.structs[k].fields[i].1));
                lemma_variant_is_resolvable(decl.fields[i].1.category());
            },
            _ => {},
        }
    }
    assert forall|k: int| #![trigger m.functions[k]] 0 <= k < m.functions.len() implies {
        m.functions[k].return_type.variant.is_resolvable()
    } by {
        let from = positions(function_records(items))[k];
        assert(function_records(items)[from] == function_record(items[from]));
        match items[from] {
            GHeaderFileItemView::FunctionDecl(decl) => {
                lemma_variant_is_resolvable(decl.return_value.category());
            },
            _ => {},
        }
    }
    assert forall|k: int, i: int|
        #![trigger m.functions[k].params[i]]
        0 <= k < m.functions.len() && 0 <= i < m.functions[k].params.len() implies {
        m.functions[k].params[i].ty.variant.is_resolvable()
    } by {
        let from = positions(function_records(items))[k];
        assert(function_records(items)[from] == function_record(items[from]));
        match items[from] {
            GHeaderFileItemView::FunctionDecl(decl) => {
                assert(param_info_of(decl.params[i]) == Some(m.functions[k].params[i]));
                lemma_variant_is_resolvable(decl.params[i].ty.category());
            },
            _ => {},
        }
    }
}

/// A function whose name holds `CreateWith` or `Delete` has no record, is
/// no error, and leaves every manifest as it is, whatever markers it
/// carries.
pub proof fn lemma_lifecycle_function_is_passed_over(m: FileInfoView, decl: GFunctionDeclView)
    requires
        is_lifecycle_name(decl.name),
    ensures
        function_record(GHeaderFileItemView::FunctionDecl(decl)) is None,
        rejection(GHeaderFileItemView::FunctionDecl(decl)) is None,
        absorb(m, GHeaderFileItemView::FunctionDecl(decl)) == m,
{
}

/// A function that carries neither export marker has no record, is no
/// error, and leaves every manifest as it is.
pub proof fn lemma_unexported_function_is_passed_over(m: FileInfoView, decl: GFunctionDeclView)
    requires
        !is_exported(decl.markers),
    ensures
        function_record(GHeaderFileItemView::FunctionDecl(decl)) is None,
        rejection(GHeaderFileItemView::FunctionDecl(decl)) is None,
        absorb(m, GHeaderFileItemView::FunctionDecl(decl)) == m,
{
}

/// The export markers decide the flags: the record of a function is public;
/// it is static exactly when the declaration carries the marker for a static
/// method. So a function with that marker is static, and a function with the
/// plain marker alone is not.
pub proof fn lemma_export_marker_decides_static(decl: GFunctionDeclView)
    requires
        function_record(GHeaderFileItemView::FunctionDecl(decl)) is Some,
    ensures
        function_record(GHeaderFileItemView::FunctionDecl(decl))->0.is_public,
        function_record(GHeaderFileItemView::FunctionDecl(decl))->0.is_static
            == decl.markers.contains(GMarker::TwExportStaticMethod),
        !decl.markers.contains(GMarker::TwExportStaticMethod) ==> decl.markers.contains(
            GMarker::TwExportMethod,
        ),
{
}

/// Scanning an exported function whose name is no lifecycle name and whose
/// signature is sound puts its record at the end of the functions and
/// changes nothing else.
pub proof fn lemma_exported_function_appears(m: FileInfoView, decl: GFunctionDeclView)
    requires
        is_selected(decl),
        has_sound_signature(decl),
    ensures
        method_info_of(decl) is Some,
        absorb(m, GHeaderFileItemView::FunctionDecl(decl)) == (FileInfoView {
            functions: m.functions.push(method_info_of(decl)->0),
            ..m
        }),
        rejection(GHeaderFileItemView::FunctionDecl(decl)) is None,
{
}

/// Every function of a manifest is the record of a function declaration of
/// the header that carries an export marker and whose name is no lifecycle
/// name. It has the name of that declaration and is public.
pub proof fn lemma_functions_come_from_exports(name: Seq<char>, items: Seq<GHeaderFileItemView>)
    ensures
        forall|k: int|
            #![trigger manifest_of(name, items).functions[k]]
            0 <= k < manifest_of(name, items).functions.len() ==> {
                let from = positions(function_records(items))[k];
                let record = manifest_of(name, items).functions[k];
                &&& 0 <= from < items.len()
                &&& items[from] matches GHeaderFileItemView::FunctionDecl(decl)
                &&& is_exported(decl.markers)
                &&& !is_lifecycle_name(decl.name)
                &&& method_info_of(decl) == Some(record)
                &&& record.name == decl.name
                &&& record.is_public
                &&& !is_lifecycle_name(record.name)
            },
{
    lemma_present_keeps_order(function_records(items));
    assert forall|k: int|
        #![trigger manifest_of(name, items).functions[k]]
        0 <= k < manifest_of(name, items).functions.len() implies {
        let from = positions(function_records(items))[k];
        let record = manifest_of(name, items).functions[k];
        &&& 0 <= from < items.len()
        &&& items[from] matches GHeaderFileItemView::FunctionDecl(decl)
        &&& is_exported(decl.markers)
        &&& !is_lifecycle_name(decl.name)
        &&& method_info_of(decl) == Some(record)
        &&& record.name == decl.name
        &&& record.is_public
        &&& !is_lifecycle_name(record.name)
    } by {
        let from = positions(function_records(items))[k];
        assert(function_records(items)[from] == function_record(items[from]));
    }
}

/// The qualifier decides constness: under `Const` a type is constant, under
/// `Mutable` and under `Extern` it is not. It decides nothing else: whether
/// the type can be normalized, its variant and its other two flags are those
/// of the category.
pub proof fn lemma_qualifier_decides_constness(cat: GTypeCategoryView)
    ensures
        type_info_of(GTypeView::Const(cat)) is Some ==> type_info_of(
            GTypeView::Const(cat),
        )->0.is_constant,
        type_info_of(GTypeView::Mutable(cat)) is Some ==> !type_info_of(
            GTypeView::Mutable(cat),
        )->0.is_constant,
        type_info_of(GTypeView::Extern(cat)) is Some ==> !type_info_of(
            GTypeView::Extern(cat),
        )->0.is_constant,
        type_info_of(GTypeView::Extern(cat)) == type_info_of(GTypeView::Mutable(cat)),
        type_info_of(GTypeView::Const(cat)) is Some <==> type_info_of(GTypeView::Mutable(cat))
            is Some,
        type_info_of(GTypeView::Const(cat)) is Some ==> type_info_of(GTypeView::Const(cat))->0
            == (TypeInfoView { is_constant: true, ..type_info_of(GTypeView::Mutable(cat))->0 }),
{
}

/// The qualifier is transparent to the name of a bare keyword: the three
/// qualifiers give the same name for the same category, or none.
pub proof fn lemma_custom_name_ignores_qualifier(cat: GTypeCategoryView)
    ensures
        custom_name(GTypeView::Const(cat)) == custom_name(GTypeView::Mutable(cat)),
        custom_name(GTypeView::Extern(cat)) == custom_name(GTypeView::Mutable(cat)),
{
}

/// A struct that is named without its fields always has a record, which is
/// public and has no fields and no tags. Scanning it is no error and puts
/// that record at the end of the structs.
pub proof fn lemma_forward_struct_defaults(m: FileInfoView, decl: GStructIndicatorView)
    ensures
        struct_record(GHeaderFileItemView::StructIndicator(decl)) == Some(forward_struct(decl)),
        forward_struct(decl).name == decl.name,
        forward_struct(decl).is_public,
        forward_struct(decl).fields.len() == 0,
        forward_struct(decl).tags.len() == 0,
        rejection(GHeaderFileItemView::StructIndicator(decl)) is None,
        absorb(m, GHeaderFileItemView::StructIndicator(decl)) == (FileInfoView {
            structs: m.structs.push(forward_struct(decl)),
            ..m
        }),
{
}

} // verus!
