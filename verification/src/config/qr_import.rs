//! Importing a profile from a picture of a QR code.

use crate::error::{AppError, AppResult};
use crate::paths::{extension_of, quoted_path, to_path};
use crate::qr::{decode_picture, text_from_decoded, Picture};
use std::path::PathBuf;
use vstd::prelude::*;

verus! {

/// Whether `r` is what comes of importing the picture file at `path`, by what decoding it gave.
pub open spec fn imports(
    r: AppResult<String>,
    path: PathBuf,
    decoded: Result<Picture, Seq<char>>,
) -> bool {
    match r {
        Ok(t) => crate::qr::import_outcome(path, decoded) == Ok::<_, Seq<char>>(t@),
        Err(AppError::ImportFailed(t)) => crate::qr::import_outcome(path, decoded) == Err::<
            Seq<char>,
            _,
        >(t@),
        Err(_) => false,
    }
}

/// The path whose extension tells the format of a picture file that its content does not tell: an
/// extension without characters is none.
pub open spec fn format_path(path: PathBuf) -> PathBuf {
    if path_extension_is_blank(path) {
        crate::paths::path_of(""@)
    } else {
        path
    }
}

/// Whether a path ends in the dot of an extension without characters.
pub open spec fn path_extension_is_blank(path: PathBuf) -> bool {
    crate::paths::path_extension(path) == Some(Seq::<char>::empty())
}

/// Whether `r` is what comes of importing the picture file at `path` with the content `b`: the
/// decoder's error where it refuses the file, else what the picture says, which for a grey PNG file
/// is the one that the decoder always gives. A file that was made of a picture says what that
/// picture says.
pub open spec fn imported(r: AppResult<String>, path: PathBuf, b: Seq<u8>) -> bool {
    &&& match crate::qr::picture_of(format_path(path), b) {
        Err(e) => imports(r, path, Err(e)),
        Ok(p) => if crate::qr::grey_png(b) {
            imports(r, path, Ok(p))
        } else {
            exists|q: Picture| crate::qr::complete(q) && #[trigger] imports(r, path, Ok(q))
        },
    }
    &&& forall|p: Picture| #[trigger] crate::qr::shows(b, p) ==> imports(r, path, Ok(p))
}

/// The text in the QR code of the picture file at `path`, whose content is `bytes`: the text of
/// the first code in the picture, or an import error that says what went wrong.
pub fn decode_qr_image(path: &PathBuf, bytes: &Vec<u8>) -> (r: AppResult<String>)
    ensures
        imported(r, *path, bytes@),
{
    let blank = match extension_of(path) {
        Some(e) => {
            assert(e@.len() == 0 ==> e@ =~= Seq::<char>::empty());
            e.as_str().is_empty()
        },
        None => false,
    };
    assert(blank == path_extension_is_blank(*path));
    let named = if blank {
        to_path("")
    } else {
        path.clone()
    };
    let decoded = decode_picture(&named, bytes);
    let ghost seen = crate::qr::picture_or_error(decoded);
    let r = text_from_decoded(path, decoded);
    assert(imports(r, *path, seen));
    r
}

/// What is imported from the PNG file that was made of a picture is the text in that picture.
pub proof fn law_png_reads_as_its_picture(
    r: AppResult<String>,
    path: PathBuf,
    b: Seq<u8>,
    p: Picture,
)
    requires
        crate::qr::shows(b, p),
        imported(r, path, b),
    ensures
        match crate::qr::picture_text(p) {
            Ok(t) => r matches Ok(s) && s@ == t,
            Err(e) => r matches Err(AppError::ImportFailed(s)) && s@ == e,
        },
{
    assert(imports(r, path, Ok(p)));
}

/// The error of reading the picture file at `path`.
pub fn read_failure(path: &PathBuf, e: &str) -> (r: AppError)
    ensures
        r matches AppError::ImportFailed(t) && t@ == "read image "@ + crate::paths::path_quoted(
            *path,
        ) + ": "@ + e@,
{
    let mut t = "read image ".to_owned();
    t.push_str(quoted_path(path).as_str());
    t.push_str(": ");
    t.push_str(e);
    AppError::ImportFailed(t)
}

} // verus!
