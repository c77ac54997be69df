//! Which declarations a manifest takes up, and with which flags.
//!
//! The decision is made for each declaration on its own. A struct, forward
//! or defined, and an enum are always taken. A function is taken when its
//! name is none of the lifecycle names and it carries an export marker.
//! Whatever else stands in a header is passed over.

use vstd::prelude::*;
use crate::grammar::{GFunctionDecl, GFunctionDeclView, GMarker, GMarkers};
use crate::text::{contains, contains_seq};

verus! {

/// Whether `name` is that of a constructor or a destructor: it holds
/// `CreateWith` or `Delete`.
pub open spec fn is_lifecycle_name(name: Seq<char>) -> bool {
    contains_seq(name, "CreateWith"@) || contains_seq(name, "Delete"@)
}

/// Whether one of the two export markers is among `markers`.
pub open spec fn is_exported(markers: Seq<GMarker>) -> bool {
    markers.contains(GMarker::TwExportMethod) || markers.contains(GMarker::TwExportStaticMethod)
}

/// Whether the marker for a static method is among `markers`.
pub open spec fn is_static_export(markers: Seq<GMarker>) -> bool {
    markers.contains(GMarker::TwExportStaticMethod)
}

/// Whether the manifest takes the function up: its name is no lifecycle name
/// and it carries an export marker.
pub open spec fn is_selected(decl: GFunctionDeclView) -> bool {
    !is_lifecycle_name(decl.name) && is_exported(decl.markers)
}

/// How a function is exposed.
#[derive(Debug, Clone, Copy, PartialEq, Eq, Structural)]
pub struct Visibility {
    pub is_public: bool,
    pub is_static: bool,
}

/// How the markers expose a function: public where one of the two export
/// markers is among them, and static where the one for a static method is.
/// With neither, the function is not exposed at all.
pub open spec fn visibility_of(markers: Seq<GMarker>) -> Option<Visibility> {
    if is_exported(markers) {
        Some(Visibility { is_public: true, is_static: is_static_export(markers) })
    } else {
        None
    }
}

/// Whether `name` is that of a constructor or a destructor.
pub fn is_lifecycle(name: &str) -> (res: bool)
    ensures
        res == is_lifecycle_name(name@),
{
    contains(name, "CreateWith") || contains(name, "Delete")
}

/// How the markers expose a function; `None` where they do not.
pub fn visibility(markers: &GMarkers) -> (res: Option<Visibility>)
    ensures
        res == visibility_of(markers@),
{
    if markers.contains(GMarker::TwExportStaticMethod) {
        Some(Visibility { is_public: true, is_static: true })
    } else if markers.contains(GMarker::TwExportMethod) {
        Some(Visibility { is_public: true, is_static: false })
    } else {
        None
    }
}

/// Whether the manifest takes the function up.
pub fn selects(decl: &GFunctionDecl) -> (res: bool)
    ensures
        res == is_selected(decl@),
{
    !is_lifecycle(decl.name.0.as_str()) && visibility(&decl.markers).is_some()
}

} // verus!
