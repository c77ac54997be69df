use codegen_v2::grammar::{
    GEnumDecl, GEnumName, GFunctionDecl, GFunctionName, GHeaderInclude, GKeyword, GMarker,
    GMarkers, GParamItem, GParamName, GPrimitive, GStructDecl, GStructIndicator, GStructName,
    GType, GTypeCategory,
};
use codegen_v2::manifest::{
    EnumInfo, Error, ImportInfo, MethodInfo, ParamInfo, PropertyInfo, StructInfo, TypeInfo,
    TypeVariant,
};

fn scalar_type(p: GPrimitive) -> GType {
    GType::Mutable(GTypeCategory::Scalar(p))
}

fn bad_type() -> GType {
    GType::Mutable(GTypeCategory::Unrecognized(GKeyword(String::new())))
}

fn data_pointer() -> GType {
    GType::Const(GTypeCategory::Pointer(Box::new(GTypeCategory::Unrecognized(GKeyword(
        "TWData".to_string(),
    )))))
}

fn data_pointer_info() -> TypeInfo {
    TypeInfo {
        variant: TypeVariant::Struct("TWData".to_string()),
        is_constant: true,
        is_nullable: false,
        is_pointer: true,
    }
}

fn scalar_info(variant: TypeVariant) -> TypeInfo {
    TypeInfo { variant, is_constant: false, is_nullable: false, is_pointer: false }
}

fn param(name: &str, ty: GType) -> GParamItem {
    GParamItem { ty, name: GParamName(GKeyword(name.to_string())) }
}

fn function(name: &str, markers: Vec<GMarker>) -> GFunctionDecl {
    GFunctionDecl {
        name: GFunctionName(name.to_string()),
        params: vec![],
        return_value: scalar_type(GPrimitive::Bool),
        markers: GMarkers(markers),
        comments: vec![],
    }
}

fn enum_decl(variants: Vec<(&str, Option<usize>)>) -> GEnumDecl {
    GEnumDecl {
        name: GEnumName(GKeyword("TWCurve".to_string())),
        variants: variants.into_iter().map(|(n, v)| (GKeyword(n.to_string()), v)).collect(),
        tags: vec!["TW_EXPORT_ENUM".to_string()],
    }
}

#[test]
fn forward_struct_is_public_and_empty() {
    let decl = GStructIndicator { name: GStructName(GKeyword("Wallet".to_string())) };
    assert_eq!(
        StructInfo::from_indicator(&decl),
        StructInfo { name: "Wallet".to_string(), is_public: true, fields: vec![], tags: vec![] }
    );
}

#[test]
fn forward_struct_with_empty_name_is_still_recorded() {
    let decl = GStructIndicator { name: GStructName(GKeyword(String::new())) };
    assert_eq!(
        StructInfo::from_indicator(&decl),
        StructInfo { name: String::new(), is_public: true, fields: vec![], tags: vec![] }
    );
}

#[test]
fn struct_definition_keeps_fields_and_tags_in_order() {
    let decl = GStructDecl {
        name: GStructName(GKeyword("TWPoint".to_string())),
        fields: vec![
            (GKeyword("y".to_string()), scalar_type(GPrimitive::Int64T)),
            (GKeyword("x".to_string()), scalar_type(GPrimitive::UInt8T)),
            (GKeyword("data".to_string()), data_pointer()),
        ],
        tags: vec![
            "TW_EXPORT_STRUCT".to_string(),
            "b".to_string(),
            "TW_EXPORT_STRUCT".to_string(),
        ],
    };
    assert_eq!(
        StructInfo::from_g_type(&decl),
        Ok(StructInfo {
            name: "TWPoint".to_string(),
            is_public: true,
            fields: vec![
                ("y".to_string(), scalar_info(TypeVariant::Int64)),
                ("x".to_string(), scalar_info(TypeVariant::Uint8)),
                ("data".to_string(), data_pointer_info()),
            ],
            tags: vec![
                "TW_EXPORT_STRUCT".to_string(),
                "b".to_string(),
                "TW_EXPORT_STRUCT".to_string()
            ],
        })
    );
}

#[test]
fn struct_definition_without_fields_is_public() {
    let decl = GStructDecl {
        name: GStructName(GKeyword("TWEmpty".to_string())),
        fields: vec![],
        tags: vec![],
    };
    assert_eq!(
        StructInfo::from_g_type(&decl),
        Ok(StructInfo {
            name: "TWEmpty".to_string(),
            is_public: true,
            fields: vec![],
            tags: vec![],
        })
    );
}

#[test]
fn struct_with_a_bad_field_type_is_bad_object() {
    let decl = GStructDecl {
        name: GStructName(GKeyword("TWPoint".to_string())),
        fields: vec![
            (GKeyword("x".to_string()), scalar_type(GPrimitive::UInt8T)),
            (GKeyword("y".to_string()), bad_type()),
            (GKeyword("z".to_string()), scalar_type(GPrimitive::UInt8T)),
        ],
        tags: vec![],
    };
    assert_eq!(StructInfo::from_g_type(&decl), Err(Error::BadObject));
}

#[test]
fn enum_keeps_the_three_states_of_a_discriminant() {
    let decl = enum_decl(vec![("A", Some(0)), ("B", None), ("C", Some(5))]);
    assert_eq!(
        EnumInfo::from_g_type(&decl),
        Ok(EnumInfo {
            name: "TWCurve".to_string(),
            is_public: true,
            variants: vec![
                ("A".to_string(), Some(0)),
                ("B".to_string(), None),
                ("C".to_string(), Some(5)),
            ],
            tags: vec!["TW_EXPORT_ENUM".to_string()],
        })
    );
}

#[test]
fn enum_keeps_the_order_of_its_variants() {
    let decl = enum_decl(vec![("Z", Some(9)), ("A", Some(9)), ("M", Some(usize::MAX))]);
    let info = EnumInfo::from_g_type(&decl).unwrap();
    assert_eq!(
        info.variants,
        vec![
            ("Z".to_string(), Some(9)),
            ("A".to_string(), Some(9)),
            ("M".to_string(), Some(usize::MAX)),
        ]
    );
}

#[test]
fn enum_without_variants_is_converted() {
    let info = EnumInfo::from_g_type(&enum_decl(vec![])).unwrap();
    assert!(info.is_public);
    assert!(info.variants.is_empty());
}

#[test]
fn enum_with_a_nameless_variant_is_bad_object() {
    let decl = enum_decl(vec![("A", Some(0)), ("", None)]);
    assert_eq!(EnumInfo::from_g_type(&decl), Err(Error::BadObject));
}

#[test]
fn param_is_its_name_and_type() {
    assert_eq!(
        ParamInfo::from_g_type(&param("data", data_pointer())),
        Ok(ParamInfo { name: "data".to_string(), ty: data_pointer_info() })
    );
}

#[test]
fn param_with_a_bad_type_is_bad_type() {
    assert_eq!(ParamInfo::from_g_type(&param("data", bad_type())), Err(Error::BadType));
}

#[test]
fn static_marker_gives_a_static_method() {
    let decl = function("TWWalletIsValid", vec![GMarker::TwExportStaticMethod]);
    let info = MethodInfo::from_g_type(&None, &decl).unwrap();
    assert!(info.is_public);
    assert!(info.is_static);
}

#[test]
fn plain_marker_gives_an_instance_method() {
    let decl = function("TWWalletIsValid", vec![GMarker::TwExportMethod]);
    let info = MethodInfo::from_g_type(&None, &decl).unwrap();
    assert!(info.is_public);
    assert!(!info.is_static);
}

#[test]
fn both_markers_give_a_static_method() {
    let decl =
        function("TWWalletIsValid", vec![GMarker::TwExportMethod, GMarker::TwExportStaticMethod]);
    assert!(MethodInfo::from_g_type(&None, &decl).unwrap().is_static);
}

#[test]
fn marker_is_found_among_others() {
    let decl = function(
        "TWWalletIsValid",
        vec![GMarker::TwExportFunc, GMarker::TwExportClass, GMarker::TwExportMethod],
    );
    assert!(!MethodInfo::from_g_type(&None, &decl).unwrap().is_static);
}

#[test]
fn function_without_export_marker_is_bad_property() {
    let none = function("TWWalletIsValid", vec![]);
    assert_eq!(MethodInfo::from_g_type(&None, &none), Err(Error::BadProperty));
    let others = function(
        "TWWalletIsValid",
        vec![
            GMarker::TwExportClass,
            GMarker::TwExportStruct,
            GMarker::TwExportEnum,
            GMarker::TwExportFunc,
        ],
    );
    assert_eq!(MethodInfo::from_g_type(&None, &others), Err(Error::BadProperty));
}

#[test]
fn function_with_a_bad_return_type_is_bad_property() {
    let mut decl = function("TWWalletData", vec![GMarker::TwExportMethod]);
    decl.return_value = bad_type();
    assert_eq!(MethodInfo::from_g_type(&None, &decl), Err(Error::BadProperty));
}

#[test]
fn function_with_a_bad_param_type_is_bad_property() {
    let mut decl = function("TWWalletData", vec![GMarker::TwExportMethod]);
    decl.params = vec![
        param("a", scalar_type(GPrimitive::Bool)),
        param("b", bad_type()),
        param("c", scalar_type(GPrimitive::Bool)),
    ];
    assert_eq!(MethodInfo::from_g_type(&None, &decl), Err(Error::BadProperty));
}

#[test]
fn method_keeps_params_and_comments_in_order() {
    let mut decl = function("TWWalletSign", vec![GMarker::TwExportMethod]);
    decl.params = vec![
        param("wallet", data_pointer()),
        param("count", scalar_type(GPrimitive::UInt32T)),
        param("again", scalar_type(GPrimitive::UInt32T)),
    ];
    decl.return_value = data_pointer();
    decl.comments = vec!["/// Signs.".to_string(), "".to_string(), "///  \\return x ".to_string()];
    assert_eq!(
        MethodInfo::from_g_type(&Some("TWWallet".to_string()), &decl),
        Ok(MethodInfo {
            name: "TWWalletSign".to_string(),
            is_public: true,
            is_static: false,
            params: vec![
                ParamInfo { name: "wallet".to_string(), ty: data_pointer_info() },
                ParamInfo { name: "count".to_string(), ty: scalar_info(TypeVariant::Uint32) },
                ParamInfo { name: "again".to_string(), ty: scalar_info(TypeVariant::Uint32) },
            ],
            return_type: data_pointer_info(),
            comments: vec![
                "/// Signs.".to_string(),
                "".to_string(),
                "///  \\return x ".to_string(),
            ],
        })
    );
}

#[test]
fn method_does_not_depend_on_the_owning_header() {
    let decl = function("TWWalletIsValid", vec![GMarker::TwExportStaticMethod]);
    let without = MethodInfo::from_g_type(&None, &decl);
    assert_eq!(MethodInfo::from_g_type(&Some("TWWallet".to_string()), &decl), without);
    assert_eq!(MethodInfo::from_g_type(&Some("other".to_string()), &decl), without);
    assert_eq!(MethodInfo::from_g_type(&Some(String::new()), &decl), without);
}

#[test]
fn method_converter_does_not_look_at_the_name() {
    let decl = function("TWWalletCreateWithData", vec![GMarker::TwExportStaticMethod]);
    assert_eq!(MethodInfo::from_g_type(&None, &decl).unwrap().name, "TWWalletCreateWithData");
}

#[test]
fn property_is_the_method_without_params() {
    let mut decl = function("TWWalletCount", vec![GMarker::TwExportStaticMethod]);
    decl.return_value = scalar_type(GPrimitive::UInt64T);
    decl.comments = vec!["/// Count.".to_string()];
    assert_eq!(
        PropertyInfo::from_g_type(&None, &decl),
        Ok(PropertyInfo {
            name: "TWWalletCount".to_string(),
            is_public: true,
            is_static: true,
            return_type: scalar_info(TypeVariant::Uint64),
            comments: vec!["/// Count.".to_string()],
        })
    );
    let method = MethodInfo::from_g_type(&None, &decl).unwrap();
    assert!(method.params.is_empty());
}

#[test]
fn property_with_the_plain_marker_is_not_static() {
    let decl = function("TWWalletCount", vec![GMarker::TwExportMethod]);
    assert!(!PropertyInfo::from_g_type(&None, &decl).unwrap().is_static);
}

#[test]
fn property_with_a_param_is_bad_property() {
    let mut decl = function("TWWalletCount", vec![GMarker::TwExportMethod]);
    decl.params = vec![param("wallet", data_pointer())];
    assert_eq!(PropertyInfo::from_g_type(&None, &decl), Err(Error::BadProperty));
}

#[test]
fn property_without_marker_or_type_is_bad_property() {
    let decl = function("TWWalletCount", vec![]);
    assert_eq!(PropertyInfo::from_g_type(&None, &decl), Err(Error::BadProperty));
    let mut decl = function("TWWalletCount", vec![GMarker::TwExportMethod]);
    decl.return_value = bad_type();
    assert_eq!(PropertyInfo::from_g_type(&None, &decl), Err(Error::BadProperty));
}

#[test]
fn import_is_the_directories_and_the_file() {
    assert_eq!(
        ImportInfo::from_g_type(&GHeaderInclude("to/some/file.h".to_string())),
        Ok(ImportInfo { path: vec!["to".to_string(), "some".to_string(), "file.h".to_string()] })
    );
    assert_eq!(
        ImportInfo::from_g_type(&GHeaderInclude("TWBase.h".to_string())),
        Ok(ImportInfo { path: vec!["TWBase.h".to_string()] })
    );
}

#[test]
fn import_with_an_empty_segment_is_bad_import() {
    for path in vec!["", "/", "/usr/a.h", "to//file.h", "to/some/", "//"] {
        assert_eq!(
            ImportInfo::from_g_type(&GHeaderInclude(path.to_string())),
            Err(Error::BadImport)
        );
    }
}
