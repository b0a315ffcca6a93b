//! File-system paths, held as text. What a path's text means (where its
//! components begin and end, which of them is the file name) is decided by
//! `std::path`; the functions here hand those decisions to verified code.

use vstd::prelude::*;

verus! {

/// Whether `std::path` takes the two texts for the same path: it compares
/// them component by component, not letter by letter.
pub uninterp spec fn same_path(a: Seq<char>, b: Seq<char>) -> bool;

/// Whether `std::path` finds `base` to be a prefix of `path`, counting whole
/// components only.
pub uninterp spec fn path_has_prefix(path: Seq<char>, base: Seq<char>) -> bool;

/// The last component of `path` as `std::path` sees it, or `None` where the
/// path ends in `..` or has no component that names a file.
pub uninterp spec fn path_file_name(path: Seq<char>) -> Option<Seq<char>>;

/// The `file` URI that the `url` crate writes for `path`, or `None` for a
/// path that it gives none, such as one that is not absolute.
pub uninterp spec fn path_file_uri(path: Seq<char>) -> Option<Seq<char>>;

/// The view of an optional string.
pub open spec fn opt_text(s: Option<String>) -> Option<Seq<char>> {
    match s {
        Some(t) => Some(t@),
        None => None,
    }
}

/// `Path::eq` of `std::path`, on two paths given as text. Trusted: the
/// result is taken to be `same_path` of the two texts.
#[verifier::external_body]
pub(crate) fn paths_equal(a: &str, b: &str) -> (same: bool)
    ensures
        same == same_path(a@, b@),
{
    std::path::Path::new(a) == std::path::Path::new(b)
}

/// `Path::starts_with` of `std::path`, on two paths given as text. Trusted:
/// the result is taken to be `path_has_prefix` of the two texts.
#[verifier::external_body]
pub(crate) fn path_starts_with(path: &str, base: &str) -> (prefixed: bool)
    ensures
        prefixed == path_has_prefix(path@, base@),
{
    std::path::Path::new(path).starts_with(base)
}

/// `Path::file_name` of `std::path`, on a path given as text. Trusted: the
/// result is taken to be `path_file_name` of the text.
#[verifier::external_body]
pub(crate) fn file_name_of(path: &str) -> (name: Option<String>)
    ensures
        opt_text(name) == path_file_name(path@),
{
    match std::path::Path::new(path).file_name() {
        Some(name) => Some(name.to_string_lossy().into_owned()),
        None => None,
    }
}

/// `Url::from_file_path` of `lsp_types`, which is that of the `url` crate,
/// on a path given as text, the URI handed out as text. Trusted: the result
/// is taken to be `path_file_uri` of the path, `None` standing for the
/// function's error.
#[verifier::external_body]
pub(crate) fn file_uri_of(path: &str) -> (uri: Option<String>)
    ensures
        opt_text(uri) == path_file_uri(path@),
{
    match lsp_types::Url::from_file_path(path) {
        Ok(url) => Some(String::from(url)),
        Err(()) => None,
    }
}

} // verus!
