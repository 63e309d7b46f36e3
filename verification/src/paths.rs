//! Path components, delegated to `std::path`.
use vstd::prelude::*;

verus! {

/// The extension that `std::path::Path::extension` finds in `path`.
pub uninterp spec fn path_extension(path: Seq<char>) -> Option<Seq<char>>;

/// Calls `std::path::Path::extension` on `path`; trusted to give
/// `path_extension(path)`. For a path given as a string slice the extension is a
/// substring of it, so reading it back as a string loses nothing.
#[verifier::external_body]
pub(crate) fn extension_of(path: &str) -> (r: Option<String>)
    ensures
        match r {
            Some(e) => path_extension(path@) == Some(e@),
            None => path_extension(path@) is None,
        },
{
    std::path::Path::new(path).extension().map(|e| e.to_string_lossy().into_owned())
}

/// The parent that `std::path::Path::parent` finds for `path`.
pub uninterp spec fn path_parent(path: Seq<char>) -> Option<Seq<char>>;

/// Calls `std::path::Path::parent` on `path`; trusted to give `path_parent(path)`.
/// The parent of a path given as a string slice is a prefix of it, so reading it
/// back as a string loses nothing.
#[verifier::external_body]
pub(crate) fn parent_of(path: &str) -> (r: Option<String>)
    ensures
        match r {
            Some(p) => path_parent(path@) == Some(p@),
            None => path_parent(path@) is None,
        },
{
    std::path::Path::new(path).parent().map(|p| p.to_string_lossy().into_owned())
}

/// The stem that `std::path::Path::file_stem` finds in `path`.
pub uninterp spec fn path_file_stem(path: Seq<char>) -> Option<Seq<char>>;

/// Calls `std::path::Path::file_stem` on `path`; trusted to give `path_file_stem(path)`.
#[verifier::external_body]
pub(crate) fn file_stem_of(path: &str) -> (r: Option<String>)
    ensures
        match r {
            Some(p) => path_file_stem(path@) == Some(p@),
            None => path_file_stem(path@) is None,
        },
{
    std::path::Path::new(path).file_stem().map(|p| p.to_string_lossy().into_owned())
}

/// The final component that `std::path::Path::file_name` finds in `path`.
pub uninterp spec fn path_file_name(path: Seq<char>) -> Option<Seq<char>>;

/// Calls `std::path::Path::file_name` on `path`; trusted to give `path_file_name(path)`.
#[verifier::external_body]
pub(crate) fn file_name_of(path: &str) -> (r: Option<String>)
    ensures
        match r {
            Some(p) => path_file_name(path@) == Some(p@),
            None => path_file_name(path@) is None,
        },
{
    std::path::Path::new(path).file_name().map(|p| p.to_string_lossy().into_owned())
}

/// Whether `std::path::Path::starts_with` finds `base` to be a prefix of `path`,
/// whole component by whole component.
pub uninterp spec fn path_starts_with(path: Seq<char>, base: Seq<char>) -> bool;

/// Calls `std::path::Path::starts_with`; trusted to give `path_starts_with(path, base)`.
#[verifier::external_body]
pub(crate) fn starts_with_path(path: &str, base: &str) -> (r: bool)
    ensures
        r == path_starts_with(path@, base@),
{
    std::path::Path::new(path).starts_with(base)
}

/// What `std::path::Path::strip_prefix` leaves of `path` once the components of `base` are taken off.
pub uninterp spec fn path_strip_prefix(path: Seq<char>, base: Seq<char>) -> Option<Seq<char>>;

/// Calls `std::path::Path::strip_prefix`; trusted to give `path_strip_prefix(path, base)`,
/// and to fail exactly where `base` is no prefix of `path`, as its documentation says.
#[verifier::external_body]
pub(crate) fn strip_prefix_of(path: &str, base: &str) -> (r: Option<String>)
    ensures
        match r {
            Some(p) => path_strip_prefix(path@, base@) == Some(p@),
            None => path_strip_prefix(path@, base@) is None,
        },
        r is Some <==> path_starts_with(path@, base@),
{
    std::path::Path::new(path).strip_prefix(base).ok().map(|p| p.to_string_lossy().into_owned())
}

/// The path that `std::path::Path::join` makes of `base` and `rest`.
pub uninterp spec fn path_join(base: Seq<char>, rest: Seq<char>) -> Seq<char>;

/// Calls `std::path::Path::join`; trusted to give `path_join(base, rest)`.
#[verifier::external_body]
pub(crate) fn join_path(base: &str, rest: &str) -> (r: String)
    ensures
        r@ == path_join(base@, rest@),
{
    std::path::Path::new(base).join(rest).to_string_lossy().into_owned()
}

/// Whether `std::path::Path`'s `==` finds `a` and `b` to be the same path, component by component.
pub uninterp spec fn path_eq(a: Seq<char>, b: Seq<char>) -> bool;

/// Compares two paths with `std::path::Path`'s `==`; trusted to give `path_eq(a, b)`.
#[verifier::external_body]
pub(crate) fn paths_equal(a: &str, b: &str) -> (r: bool)
    ensures
        r == path_eq(a@, b@),
{
    std::path::Path::new(a) == std::path::Path::new(b)
}

} // verus!
