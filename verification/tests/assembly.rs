use codegen_v2::assemble::{process_header, FileReport};
use codegen_v2::grammar::{
    GEnumDecl, GEnumName, GFunctionDecl, GFunctionName, GHeaderFileItem, GHeaderInclude, GKeyword,
    GMarker, GMarkers, GParamItem, GParamName, GPrimitive, GStructDecl, GStructIndicator,
    GStructName, GType, GTypeCategory,
};
use codegen_v2::manifest::{
    process_c_header_dir, EnumInfo, Error, FileInfo, MethodInfo, ParamInfo, StructInfo, TypeInfo,
    TypeVariant,
};
use codegen_v2::CHeaderDirectory;

fn bool_type() -> GType {
    GType::Mutable(GTypeCategory::Scalar(GPrimitive::Bool))
}

fn nameless_type() -> GType {
    GType::Mutable(GTypeCategory::Unrecognized(GKeyword(String::new())))
}

fn forward(name: &str) -> GHeaderFileItem {
    GHeaderFileItem::StructIndicator(GStructIndicator {
        name: GStructName(GKeyword(name.to_string())),
    })
}

fn definition(name: &str, field_types: Vec<GType>) -> GHeaderFileItem {
    GHeaderFileItem::StructDecl(GStructDecl {
        name: GStructName(GKeyword(name.to_string())),
        fields: field_types
            .into_iter()
            .enumerate()
            .map(|(i, ty)| (GKeyword(format!("f{}", i)), ty))
            .collect(),
        tags: vec![],
    })
}

fn enumeration(name: &str, variants: Vec<&str>) -> GHeaderFileItem {
    GHeaderFileItem::EnumDecl(GEnumDecl {
        name: GEnumName(GKeyword(name.to_string())),
        variants: variants.into_iter().map(|v| (GKeyword(v.to_string()), None)).collect(),
        tags: vec![],
    })
}

fn func(name: &str, markers: Vec<GMarker>) -> GHeaderFileItem {
    GHeaderFileItem::FunctionDecl(GFunctionDecl {
        name: GFunctionName(name.to_string()),
        params: vec![],
        return_value: bool_type(),
        markers: GMarkers(markers),
        comments: vec![],
    })
}

fn func_returning(name: &str, markers: Vec<GMarker>, ty: GType) -> GHeaderFileItem {
    GHeaderFileItem::FunctionDecl(GFunctionDecl {
        name: GFunctionName(name.to_string()),
        params: vec![],
        return_value: ty,
        markers: GMarkers(markers),
        comments: vec![],
    })
}

fn names_of_functions(report: &FileReport) -> Vec<String> {
    report.info.functions.iter().map(|f| f.name.clone()).collect()
}

fn names_of_structs(report: &FileReport) -> Vec<String> {
    report.info.structs.iter().map(|s| s.name.clone()).collect()
}

fn names_of_enums(report: &FileReport) -> Vec<String> {
    report.info.enums.iter().map(|e| e.name.clone()).collect()
}

fn wallet_header() -> Vec<GHeaderFileItem> {
    vec![
        forward("Wallet"),
        func("TWWalletCreateWithData", vec![GMarker::TwExportStaticMethod]),
        GHeaderFileItem::FunctionDecl(GFunctionDecl {
            name: GFunctionName("TWWalletIsValid".to_string()),
            params: vec![GParamItem {
                ty: GType::Mutable(GTypeCategory::Pointer(Box::new(GTypeCategory::Struct(
                    GStructName(GKeyword("Wallet".to_string())),
                )))),
                name: GParamName(GKeyword("ptr".to_string())),
            }],
            return_value: bool_type(),
            markers: GMarkers(vec![GMarker::TwExportStaticMethod]),
            comments: vec![],
        }),
    ]
}

#[test]
fn wallet_header_gives_one_struct_and_one_function() {
    let report = process_header("wallet.h", &wallet_header()).unwrap();
    assert_eq!(
        report.info,
        FileInfo {
            name: "wallet".to_string(),
            imports: vec![],
            structs: vec![StructInfo {
                name: "Wallet".to_string(),
                is_public: true,
                fields: vec![],
                tags: vec![],
            }],
            enums: vec![],
            functions: vec![MethodInfo {
                name: "TWWalletIsValid".to_string(),
                is_public: true,
                is_static: true,
                params: vec![ParamInfo {
                    name: "ptr".to_string(),
                    ty: TypeInfo {
                        variant: TypeVariant::Struct("Wallet".to_string()),
                        is_constant: false,
                        is_nullable: false,
                        is_pointer: true,
                    },
                }],
                return_type: TypeInfo {
                    variant: TypeVariant::Bool,
                    is_constant: false,
                    is_nullable: false,
                    is_pointer: false,
                },
                comments: vec![],
            }],
            properties: vec![],
        }
    );
    assert!(report.skipped.is_empty());
}

#[test]
fn new_manifest_is_empty() {
    assert_eq!(
        FileInfo::new("wallet".to_string()),
        FileInfo {
            name: "wallet".to_string(),
            imports: vec![],
            structs: vec![],
            enums: vec![],
            functions: vec![],
            properties: vec![],
        }
    );
}

#[test]
fn header_without_declarations_gives_an_empty_manifest() {
    let report = FileInfo::from_g_items("wallet".to_string(), &vec![]);
    assert_eq!(report.info, FileInfo::new("wallet".to_string()));
    assert!(report.skipped.is_empty());
}

#[test]
fn extraction_twice_gives_the_same_report() {
    let items = vec![
        forward("Wallet"),
        definition("Bad", vec![nameless_type()]),
        enumeration("TWCurve", vec!["A", "B"]),
        func("TWWalletIsValid", vec![GMarker::TwExportMethod]),
        func("TWWalletDelete", vec![GMarker::TwExportMethod]),
    ];
    let first = process_header("include/wallet.h", &items);
    let second = process_header("include/wallet.h", &items.clone());
    assert_eq!(first, second);
    assert!(first.is_ok());
}

#[test]
fn records_stand_in_the_order_of_their_declarations() {
    let items = vec![
        func("F1", vec![GMarker::TwExportMethod]),
        enumeration("E1", vec!["A"]),
        forward("S1"),
        GHeaderFileItem::Comment("// note".to_string()),
        definition("S2", vec![bool_type()]),
        func("F2", vec![GMarker::TwExportStaticMethod]),
        enumeration("E2", vec![]),
        forward("S3"),
        func("F3", vec![GMarker::TwExportMethod]),
        definition("S1", vec![]),
        enumeration("E1", vec!["B"]),
        func("F1", vec![GMarker::TwExportStaticMethod]),
    ];
    let report = FileInfo::from_g_items("x".to_string(), &items);
    assert_eq!(names_of_structs(&report), vec!["S1", "S2", "S3", "S1"]);
    assert_eq!(names_of_enums(&report), vec!["E1", "E2", "E1"]);
    assert_eq!(names_of_functions(&report), vec!["F1", "F2", "F3", "F1"]);
    assert!(report.skipped.is_empty());
    assert!(report.info.imports.is_empty());
    assert!(report.info.properties.is_empty());
}

#[test]
fn forward_and_definition_of_one_struct_are_two_entries() {
    let items = vec![forward("Wallet"), definition("Wallet", vec![bool_type()])];
    let report = FileInfo::from_g_items("wallet".to_string(), &items);
    assert_eq!(report.info.structs.len(), 2);
    assert_eq!(
        report.info.structs[0],
        StructInfo { name: "Wallet".to_string(), is_public: true, fields: vec![], tags: vec![] }
    );
    assert_eq!(report.info.structs[1].name, "Wallet");
    assert_eq!(report.info.structs[1].fields.len(), 1);
}

#[test]
fn lifecycle_functions_are_left_out_whatever_their_markers() {
    let items = vec![
        func("TWWalletCreateWithData", vec![GMarker::TwExportStaticMethod]),
        func("TWWalletCreateWithData", vec![GMarker::TwExportMethod]),
        func("TWWalletCreateWithData", vec![]),
        func("TWWalletDelete", vec![GMarker::TwExportMethod]),
        func("TWWalletDelete", vec![GMarker::TwExportStaticMethod, GMarker::TwExportMethod]),
        func("DeleteCreateWith", vec![GMarker::TwExportMethod]),
    ];
    let report = FileInfo::from_g_items("wallet".to_string(), &items);
    assert!(report.info.functions.is_empty());
    assert!(report.skipped.is_empty());
}

#[test]
fn lifecycle_function_with_a_bad_type_is_no_error() {
    let items = vec![func_returning(
        "TWWalletDelete",
        vec![GMarker::TwExportMethod],
        nameless_type(),
    )];
    let report = FileInfo::from_g_items("wallet".to_string(), &items);
    assert!(report.info.functions.is_empty());
    assert!(report.skipped.is_empty());
}

#[test]
fn functions_without_export_marker_are_left_out() {
    let items = vec![
        func("TWWalletHelper", vec![]),
        func("TWWalletOther", vec![GMarker::TwExportFunc, GMarker::TwExportClass]),
        func_returning("TWWalletBroken", vec![], nameless_type()),
    ];
    let report = FileInfo::from_g_items("wallet".to_string(), &items);
    assert!(report.info.functions.is_empty());
    assert!(report.skipped.is_empty());
}

#[test]
fn export_marker_decides_is_static() {
    let items = vec![
        func("TWWalletA", vec![GMarker::TwExportStaticMethod]),
        func("TWWalletB", vec![GMarker::TwExportMethod]),
        func("TWWalletC", vec![GMarker::TwExportMethod, GMarker::TwExportStaticMethod]),
    ];
    let report = FileInfo::from_g_items("wallet".to_string(), &items);
    let flags: Vec<(bool, bool)> =
        report.info.functions.iter().map(|f| (f.is_public, f.is_static)).collect();
    assert_eq!(flags, vec![(true, true), (true, false), (true, true)]);
}

#[test]
fn bad_declarations_are_skipped_and_reported_by_position() {
    let items = vec![
        forward("S0"),
        definition("S1", vec![bool_type(), nameless_type()]),
        enumeration("E2", vec!["A", ""]),
        func_returning("F3", vec![GMarker::TwExportMethod], nameless_type()),
        func("F4", vec![GMarker::TwExportMethod]),
        definition("S5", vec![bool_type()]),
        enumeration("E6", vec!["A"]),
    ];
    let report = FileInfo::from_g_items("wallet".to_string(), &items);
    assert_eq!(
        report.skipped,
        vec![(1, Error::BadObject), (2, Error::BadObject), (3, Error::BadProperty)]
    );
    assert_eq!(names_of_structs(&report), vec!["S0", "S5"]);
    assert_eq!(names_of_enums(&report), vec!["E6"]);
    assert_eq!(names_of_functions(&report), vec!["F4"]);
}

#[test]
fn other_items_are_passed_over() {
    let items = vec![
        GHeaderFileItem::Comment("// Copyright".to_string()),
        GHeaderFileItem::HeaderInclude(GHeaderInclude("TWBase.h".to_string())),
        GHeaderFileItem::HeaderInclude(GHeaderInclude(String::new())),
        GHeaderFileItem::Unrecognized("#pragma once".to_string()),
    ];
    let report = FileInfo::from_g_items("wallet".to_string(), &items);
    assert_eq!(report.info, FileInfo::new("wallet".to_string()));
    assert!(report.skipped.is_empty());
}

#[test]
fn add_item_grows_one_collection() {
    let mut info = FileInfo::new("wallet".to_string());
    assert_eq!(info.add_item(&forward("Wallet")), Ok(()));
    assert_eq!(info.add_item(&enumeration("TWCurve", vec!["A"])), Ok(()));
    assert_eq!(info.add_item(&func("TWWalletIsValid", vec![GMarker::TwExportMethod])), Ok(()));
    assert_eq!((info.structs.len(), info.enums.len(), info.functions.len()), (1, 1, 1));
    assert_eq!(
        info.enums[0],
        EnumInfo {
            name: "TWCurve".to_string(),
            is_public: true,
            variants: vec![("A".to_string(), None)],
            tags: vec![],
        }
    );
    assert_eq!(info.name, "wallet");
}

#[test]
fn add_item_leaves_the_manifest_as_it_is_on_error() {
    let mut info = FileInfo::new("wallet".to_string());
    assert_eq!(info.add_item(&forward("Wallet")), Ok(()));
    let before = info.clone();
    assert_eq!(info.add_item(&definition("Bad", vec![nameless_type()])), Err(Error::BadObject));
    assert_eq!(info.add_item(&enumeration("Bad", vec![""])), Err(Error::BadObject));
    assert_eq!(
        info.add_item(&func_returning("Bad", vec![GMarker::TwExportMethod], nameless_type())),
        Err(Error::BadProperty)
    );
    assert_eq!(info.add_item(&func("TWWalletDelete", vec![GMarker::TwExportMethod])), Ok(()));
    assert_eq!(info.add_item(&func("TWWalletHelper", vec![])), Ok(()));
    assert_eq!(info, before);
}

#[test]
fn header_is_named_by_its_file_name() {
    assert_eq!(process_header("wallet.h", &vec![]).unwrap().info.name, "wallet");
    assert_eq!(process_header("../include/TWData.h", &vec![]).unwrap().info.name, "TWData");
    assert_eq!(process_header(".h", &vec![]).unwrap().info.name, "");
}

#[test]
fn header_without_the_extension_is_bad_import() {
    assert_eq!(process_header("wallet.hpp", &wallet_header()), Err(Error::BadImport));
    assert_eq!(process_header("../include/", &wallet_header()), Err(Error::BadImport));
    assert_eq!(process_header("", &wallet_header()), Err(Error::BadImport));
}

#[test]
fn test_manifest() {
    let dir = CHeaderDirectory {
        map: vec![
            ("../include/wallet.h".to_string(), wallet_header()),
            ("../include/README".to_string(), wallet_header()),
            ("../include/curve.h".to_string(), vec![enumeration("TWCurve", vec!["A", ""])]),
            ("../include/empty.h".to_string(), vec![]),
        ],
    };
    let out = process_c_header_dir(&dir);
    assert_eq!(out.len(), 4);
    assert_eq!(out[0], process_header("../include/wallet.h", &wallet_header()));
    assert_eq!(out[0].as_ref().unwrap().info.name, "wallet");
    assert_eq!(out[1], Err(Error::BadImport));
    let curve = out[2].as_ref().unwrap();
    assert_eq!(curve.info, FileInfo::new("curve".to_string()));
    assert_eq!(curve.skipped, vec![(0, Error::BadObject)]);
    assert_eq!(
        out[3],
        Ok(FileReport { info: FileInfo::new("empty".to_string()), skipped: vec![] })
    );
}

#[test]
fn empty_directory_gives_no_report() {
    assert!(process_c_header_dir(&CHeaderDirectory { map: vec![] }).is_empty());
}

#[test]
fn artifact_is_named_by_the_header() {
    assert_eq!(FileInfo::new("wallet".to_string()).artifact_name(), "wallet.json");
    assert_eq!(FileInfo::new(String::new()).artifact_name(), ".json");
    let report = process_header("../include/TWData.h", &vec![]).unwrap();
    assert_eq!(report.info.artifact_name(), "TWData.json");
}

#[test]
fn directory_holds_each_path_once() {
    let mut dir = CHeaderDirectory::new();
    assert!(dir.map.is_empty());
    assert_eq!(dir.insert("a.h".to_string(), vec![forward("A")]), None);
    assert_eq!(dir.insert("b.h".to_string(), vec![forward("B")]), None);
    assert_eq!(dir.insert("c.h".to_string(), vec![]), None);
    assert_eq!(dir.insert("b.h".to_string(), vec![forward("B2")]), Some(vec![forward("B")]));
    assert_eq!(
        dir.map,
        vec![
            ("a.h".to_string(), vec![forward("A")]),
            ("b.h".to_string(), vec![forward("B2")]),
            ("c.h".to_string(), vec![]),
        ]
    );
    let out = process_c_header_dir(&dir);
    let names: Vec<Vec<String>> = out
        .iter()
        .map(|r| r.as_ref().unwrap().info.structs.iter().map(|s| s.name.clone()).collect())
        .collect();
    assert_eq!(names, vec![vec!["A"], vec!["B2"], vec![]]);
}

#[test]
fn directory_insert_replaces_the_first_of_equal_paths() {
    let mut dir = CHeaderDirectory {
        map: vec![
            ("a.h".to_string(), vec![forward("A1")]),
            ("a.h".to_string(), vec![forward("A2")]),
        ],
    };
    assert_eq!(dir.insert("a.h".to_string(), vec![]), Some(vec![forward("A1")]));
    assert_eq!(
        dir.map,
        vec![("a.h".to_string(), vec![]), ("a.h".to_string(), vec![forward("A2")])]
    );
}
