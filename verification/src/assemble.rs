//! From the declarations of one header to its manifest.

use vstd::prelude::*;
use vstd::string::StringExecFns;
use crate::convert::{enum_info_of, forward_struct, method_info_of, struct_info_of};
use crate::grammar::{GHeaderFileItem, GHeaderFileItemView};
use crate::model::views;
use crate::manifest::{
    EnumInfo, EnumInfoView, Error, FileInfo, FileInfoView, MethodInfo, MethodInfoView, StructInfo,
    StructInfoView,
};
use crate::policy::{is_selected, selects};
use crate::text::{header_stem, stem_of_header};
use crate::CHeaderDirectory;

verus! {

/// The struct that `item` adds to a manifest, if it adds one.
pub open spec fn struct_record(item: GHeaderFileItemView) -> Option<StructInfoView> {
    match item {
        GHeaderFileItemView::StructIndicator(decl) => Some(forward_struct(decl)),
        GHeaderFileItemView::StructDecl(decl) => struct_info_of(decl),
        _ => None,
    }
}

/// The enum that `item` adds to a manifest, if it adds one.
pub open spec fn enum_record(item: GHeaderFileItemView) -> Option<EnumInfoView> {
    match item {
        GHeaderFileItemView::EnumDecl(decl) => enum_info_of(decl),
        _ => None,
    }
}

/// The function that `item` adds to a manifest, if it adds one.
pub open spec fn function_record(item: GHeaderFileItemView) -> Option<MethodInfoView> {
    match item {
        GHeaderFileItemView::FunctionDecl(decl) => if is_selected(decl) {
            method_info_of(decl)
        } else {
            None
        },
        _ => None,
    }
}

/// The error that scanning `item` reports, if it reports one: the manifest
/// takes the declaration up, and it has no record.
pub open spec fn rejection(item: GHeaderFileItemView) -> Option<Error> {
    match item {
        GHeaderFileItemView::StructDecl(decl) => if struct_info_of(decl) is None {
            Some(Error::BadObject)
        } else {
            None
        },
        GHeaderFileItemView::EnumDecl(decl) => if enum_info_of(decl) is None {
            Some(Error::BadObject)
        } else {
            None
        },
        GHeaderFileItemView::FunctionDecl(decl) => if is_selected(decl) && method_info_of(decl)
            is None {
            Some(Error::BadProperty)
        } else {
            None
        },
        _ => None,
    }
}

/// `records` with `next` behind it, where there is one.
pub open spec fn with<A>(records: Seq<A>, next: Option<A>) -> Seq<A> {
    match next {
        Some(a) => records.push(a),
        None => records,
    }
}

/// The entries of `options` that are present, in their order.
pub open spec fn present<A>(options: Seq<Option<A>>) -> Seq<A>
    decreases options.len(),
{
    if options.len() == 0 {
        Seq::empty()
    } else {
        with(present(options.drop_last()), options.last())
    }
}

/// The manifest of a header before any declaration is scanned.
pub open spec fn empty_manifest(name: Seq<char>) -> FileInfoView {
    FileInfoView {
        name,
        imports: Seq::empty(),
        structs: Seq::empty(),
        enums: Seq::empty(),
        functions: Seq::empty(),
        properties: Seq::empty(),
    }
}

/// The manifest `m` after `item` is scanned: each of the three collections
/// grows by the record that the item has for it, and by nothing else.
pub open spec fn absorb(m: FileInfoView, item: GHeaderFileItemView) -> FileInfoView {
    FileInfoView {
        structs: with(m.structs, struct_record(item)),
        enums: with(m.enums, enum_record(item)),
        functions: with(m.functions, function_record(item)),
        ..m
    }
}

/// For each declaration, the struct that it adds to a manifest, if any.
pub open spec fn struct_records(items: Seq<GHeaderFileItemView>) -> Seq<Option<StructInfoView>> {
    Seq::new(items.len(), |i: int| struct_record(items[i]))
}

/// For each declaration, the enum that it adds to a manifest, if any.
pub open spec fn enum_records(items: Seq<GHeaderFileItemView>) -> Seq<Option<EnumInfoView>> {
    Seq::new(items.len(), |i: int| enum_record(items[i]))
}

/// For each declaration, the function that it adds to a manifest, if any.
pub open spec fn function_records(items: Seq<GHeaderFileItemView>) -> Seq<Option<MethodInfoView>> {
    Seq::new(items.len(), |i: int| function_record(items[i]))
}

/// The manifest of the header `name` with the declarations `items`: the
/// structs, the enums and the functions are the records that the
/// declarations have, in the order of the declarations. It has no imports
/// and no properties.
pub open spec fn manifest_of(name: Seq<char>, items: Seq<GHeaderFileItemView>) -> FileInfoView {
    FileInfoView {
        name,
        imports: Seq::empty(),
        structs: present(struct_records(items)),
        enums: present(enum_records(items)),
        functions: present(function_records(items)),
        properties: Seq::empty(),
    }
}

/// The declarations that were passed over with an error, each by its
/// position in `items`, in rising order.
pub open spec fn rejections(items: Seq<GHeaderFileItemView>) -> Seq<(usize, Error)>
    decreases items.len(),
{
    if items.len() == 0 {
        Seq::empty()
    } else {
        with(
            rejections(items.drop_last()),
            match rejection(items.last()) {
                Some(e) => Some(((items.len() - 1) as usize, e)),
                None => None,
            },
        )
    }
}

/// Scanning one more declaration is one step of [`absorb`].
pub proof fn lemma_manifest_step(
    name: Seq<char>,
    items: Seq<GHeaderFileItemView>,
    item: GHeaderFileItemView,
)
    ensures
        manifest_of(name, items.push(item)) == absorb(manifest_of(name, items), item),
        manifest_of(name, Seq::empty()) == empty_manifest(name),
{
    let more = items.push(item);
    assert(struct_records(more).drop_last() =~= struct_records(items));
    assert(enum_records(more).drop_last() =~= enum_records(items));
    assert(function_records(more).drop_last() =~= function_records(items));
}

/// What scanning one header gave.
#[derive(Debug, Clone, Eq, PartialEq)]
pub struct FileReport {
    /// The manifest of the header.
    pub info: FileInfo,
    /// The declarations that were passed over with an error, each by its
    /// position among the declarations of the header, in rising order.
    pub skipped: Vec<(usize, Error)>,
}

/// The model of a [`FileReport`].
pub struct FileReportView {
    pub info: FileInfoView,
    pub skipped: Seq<(usize, Error)>,
}

impl View for FileReport {
    type V = FileReportView;

    open spec fn view(&self) -> FileReportView {
        FileReportView { info: self.info@, skipped: self.skipped@ }
    }
}

/// What scanning the declarations `items` of the header `name` gives.
pub open spec fn report_of(name: Seq<char>, items: Seq<GHeaderFileItemView>) -> FileReportView {
    FileReportView { info: manifest_of(name, items), skipped: rejections(items) }
}

/// What processing the header at `path` gives: the report under the name
/// that the path gives the header, or [`Error::BadImport`] where its file
/// name does not end in `.h`.
pub open spec fn header_report(path: Seq<char>, items: Seq<GHeaderFileItemView>) -> Result<
    FileReportView,
    Error,
> {
    match header_stem(path) {
        Some(name) => Ok(report_of(name, items)),
        None => Err(Error::BadImport),
    }
}

/// Whether `out` is what processing the header at `path` gives.
pub open spec fn is_header_report(
    path: Seq<char>,
    items: Seq<GHeaderFileItemView>,
    out: Result<FileReport, Error>,
) -> bool {
    match out {
        Ok(report) => header_report(path, items) == Ok::<FileReportView, Error>(report@),
        Err(e) => header_report(path, items) == Err::<FileReportView, Error>(e),
    }
}

impl FileInfo {
    /// The manifest of the header `name` before any declaration is scanned.
    pub fn new(name: String) -> (info: FileInfo)
        ensures
            info@ == empty_manifest(name@),
    {
        let info = FileInfo {
            name,
            imports: Vec::new(),
            structs: Vec::new(),
            enums: Vec::new(),
            functions: Vec::new(),
            properties: Vec::new(),
        };
        assert(info@.imports =~= Seq::empty());
        assert(info@.structs =~= Seq::empty());
        assert(info@.enums =~= Seq::empty());
        assert(info@.functions =~= Seq::empty());
        assert(info@.properties =~= Seq::empty());
        info
    }

    /// The name of the file that holds the manifest: the name of the header
    /// followed by `.json`.
    pub fn artifact_name(&self) -> (out: String)
        ensures
            out@ == self.name@ + ".json"@,
    {
        self.name.clone().concat(".json")
    }

    /// Scans one declaration.
    ///
    /// The manifest grows by the record of the declaration, if the policy
    /// takes the declaration up and it has a record. Where the policy takes
    /// it up and it has none, the manifest stays as it is and the error is
    /// returned.
    pub fn add_item(&mut self, item: &GHeaderFileItem) -> (res: Result<(), Error>)
        ensures
            final(self)@ == absorb(old(self)@, item@),
            match res {
                Ok(_) => rejection(item@) is None,
                Err(e) => rejection(item@) == Some(e),
            },
    {
        match item {
            GHeaderFileItem::StructIndicator(decl) => {
                let record = StructInfo::from_indicator(decl);
                self.structs.push(record);
                assert(self@.structs =~= old(self)@.structs.push(record@));
                Ok(())
            },
            GHeaderFileItem::StructDecl(decl) => match StructInfo::from_g_type(decl) {
                Ok(record) => {
                    self.structs.push(record);
                    assert(self@.structs =~= old(self)@.structs.push(record@));
                    Ok(())
                },
                Err(e) => Err(e),
            },
            GHeaderFileItem::EnumDecl(decl) => match EnumInfo::from_g_type(decl) {
                Ok(record) => {
                    self.enums.push(record);
                    assert(self@.enums =~= old(self)@.enums.push(record@));
                    Ok(())
                },
                Err(e) => Err(e),
            },
            GHeaderFileItem::FunctionDecl(decl) => {
                if !selects(decl) {
                    return Ok(());
                }
                let owner = Some(self.name.clone());
                match MethodInfo::from_g_type(&owner, decl) {
                    Ok(record) => {
                        self.functions.push(record);
                        assert(self@.functions =~= old(self)@.functions.push(record@));
                        Ok(())
                    },
                    Err(e) => Err(e),
                }
            },
            _ => Ok(()),
        }
    }

    /// Scans the declarations `items` of the header `name`.
    ///
    /// A declaration that cannot be converted does not stop the scan: it is
    /// left out of the manifest and reported by its position in `items`.
    pub fn from_g_items(name: String, items: &Vec<GHeaderFileItem>) -> (out: FileReport)
        ensures
            out@ == report_of(name@, views(items@)),
    {
        let mut info = FileInfo::new(name);
        let mut skipped: Vec<(usize, Error)> = Vec::new();
        let mut i: usize = 0;
        proof {
            lemma_manifest_step(name@, Seq::empty(), items@[0]@);
            assert(views(items@).take(0) =~= Seq::empty());
        }
        while i < items.len()
            invariant
                i <= items.len(),
                info@ == manifest_of(name@, views(items@).take(i as int)),
                skipped@ == rejections(views(items@).take(i as int)),
            decreases items.len() - i,
        {
            proof {
                let seen = views(items@).take(i as int);
                assert(views(items@).take(i + 1) =~= seen.push(items@[i as int]@));
                assert(seen.push(items@[i as int]@).drop_last() =~= seen);
                lemma_manifest_step(name@, seen, items@[i as int]@);
            }
            match info.add_item(&items[i]) {
                Ok(_) => {},
                Err(e) => {
                    skipped.push((i, e));
                },
            }
            i += 1;
        }
        assert(views(items@).take(items.len() as int) =~= views(items@));
        FileReport { info, skipped }
    }
}

/// Processes the header at `path` with the declarations `items`.
///
/// The header is named by the file name of `path` without its `.h`. Fails
/// with [`Error::BadImport`] exactly when the file name does not end in `.h`.
pub fn process_header(path: &str, items: &Vec<GHeaderFileItem>) -> (out: Result<FileReport, Error>)
    ensures
        is_header_report(path@, views(items@), out),
{
    match stem_of_header(path) {
        Some(name) => Ok(FileInfo::from_g_items(name, items)),
        None => Err(Error::BadImport),
    }
}

/// Processes every header of `dir`, each on its own and in the order of
/// `dir.map`.
///
/// A header that cannot be named has its error in its place and leaves the
/// others as they are.
pub fn process_c_header_dir(dir: &CHeaderDirectory) -> (out: Vec<Result<FileReport, Error>>)
    ensures
        out@.len() == dir.map@.len(),
        forall|i: int|
            #![trigger out@[i]]
            0 <= i < out@.len() ==> is_header_report(
                dir.map@[i].0@,
                views(dir.map@[i].1@),
                out@[i],
            ),
{
    let mut out: Vec<Result<FileReport, Error>> = Vec::new();
    let mut i: usize = 0;
    while i < dir.map.len()
        invariant
            i <= dir.map.len(),
            out@.len() == i,
            forall|j: int|
                #![trigger out@[j]]
                0 <= j < i ==> is_header_report(dir.map@[j].0@, views(dir.map@[j].1@), out@[j]),
        decreases dir.map.len() - i,
    {
        out.push(process_header(dir.map[i].0.as_str(), &dir.map[i].1));
        i += 1;
    }
    out
}

} // verus!
