//! File paths, made and joined by the standard library.

use std::path::PathBuf;

use vstd::prelude::*;

verus! {

/// `std::path::PathBuf`, carried through as it is.
#[verifier::external_type_specification]
#[verifier::external_body]
pub struct ExPathBuf(std::path::PathBuf);

/// `PathBuf::clone` gives an equal path.
pub assume_specification[ <std::path::PathBuf as Clone>::clone ](p: &std::path::PathBuf) -> (r: std::path::PathBuf)
    ensures
        r == *p,
;

/// The path that `PathBuf::from` makes of a text.
pub uninterp spec fn path_of(s: Seq<char>) -> PathBuf;

/// The path that `Path::join` makes of a directory and a text.
pub uninterp spec fn path_joined(dir: PathBuf, s: Seq<char>) -> PathBuf;

/// Calls `PathBuf::from`: the same text always makes the same path.
#[verifier::external_body]
pub(crate) fn to_path(s: &str) -> (r: PathBuf)
    ensures
        r == path_of(s@),
{
    PathBuf::from(s)
}

/// Whether a text is a plain file name with the stem `stem` and the extension `extension`: it has
/// no slash, and both parts are there.
pub open spec fn file_named(s: Seq<char>, stem: Seq<char>, extension: Seq<char>) -> bool {
    &&& s == stem + "."@ + extension
    &&& stem.len() > 0
    &&& extension.len() > 0
    &&& !s.contains('/')
    &&& !extension.contains('.')
}

/// Calls `Path::join`: the same directory and text always make the same path. A plain file name
/// that is joined to a directory is the path's file name: its part before the last dot is the
/// stem, and the part behind it is the extension.
#[verifier::external_body]
pub(crate) fn join_path(dir: &PathBuf, s: &str) -> (r: PathBuf)
    ensures
        r == path_joined(*dir, s@),
        forall|stem: Seq<char>, extension: Seq<char>| #[trigger]
            file_named(s@, stem, extension) ==> path_stem(r) == Some(stem) && path_extension(r)
                == Some(extension),
{
    dir.join(s)
}

/// The path that `Path::with_extension` makes of a path and an extension.
pub uninterp spec fn path_with_extension(p: PathBuf, extension: Seq<char>) -> PathBuf;

/// Calls `Path::with_extension`: the same path and extension always make the same path. Where the
/// path has an extension, that of the new path is the part of the given one behind its last dot. An
/// extension with a slash, which `std` refuses with a panic, is kept out.
#[verifier::external_body]
pub(crate) fn extended_path(p: &PathBuf, extension: &str) -> (r: PathBuf)
    requires
        !extension@.contains('/'),
    ensures
        r == path_with_extension(*p, extension@),
        forall|head: Seq<char>, tail: Seq<char>| #[trigger]
            file_named(extension@, head, tail) && path_extension(*p) is Some ==> path_extension(r)
                == Some(tail),
{
    p.with_extension(extension)
}

/// The file name of a path without its extension, where it is valid Unicode.
pub uninterp spec fn path_stem(p: PathBuf) -> Option<Seq<char>>;

/// The extension of a path, where it is valid Unicode.
pub uninterp spec fn path_extension(p: PathBuf) -> Option<Seq<char>>;

/// The text that a path is shown with in quotes.
pub uninterp spec fn path_quoted(p: PathBuf) -> Seq<char>;

/// The text that a path is shown with to the user.
pub uninterp spec fn path_shown(p: PathBuf) -> Seq<char>;

/// The directory that a path stands in.
pub uninterp spec fn path_parent(p: PathBuf) -> Option<PathBuf>;

/// Calls `Path::display`: the text is a function of the path alone.
#[verifier::external_body]
pub(crate) fn shown_path(p: &PathBuf) -> (r: String)
    ensures
        r@ == path_shown(*p),
{
    p.display().to_string()
}

/// Calls `Path::parent`: a function of the path alone.
#[verifier::external_body]
pub(crate) fn parent_of(p: &PathBuf) -> (r: Option<PathBuf>)
    ensures
        r == path_parent(*p),
{
    p.parent().map(|d| d.to_path_buf())
}

/// Calls `Path::file_stem`: a function of the path alone.
#[verifier::external_body]
pub(crate) fn stem_of(p: &PathBuf) -> (r: Option<String>)
    ensures
        crate::config::profile::opt_view(r) == path_stem(*p),
{
    p.file_stem().and_then(|s| s.to_str()).map(|s| s.to_owned())
}

/// Calls `Path::extension`: a function of the path alone.
#[verifier::external_body]
pub(crate) fn extension_of(p: &PathBuf) -> (r: Option<String>)
    ensures
        crate::config::profile::opt_view(r) == path_extension(*p),
{
    p.extension().and_then(|s| s.to_str()).map(|s| s.to_owned())
}

/// Formats a path with `Debug`: a function of the path alone.
#[verifier::external_body]
pub(crate) fn quoted_path(p: &PathBuf) -> (r: String)
    ensures
        r@ == path_quoted(*p),
{
    format!("{p:?}")
}

} // verus!
