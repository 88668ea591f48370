//! Greyscale pictures and the QR codes in them.

use crate::error::{AppError, AppResult};
use crate::paths::quoted_path;
use image::{guess_format, load_from_memory_with_format, DynamicImage, ImageFormat};
use std::path::PathBuf;
use std::sync::mpsc::channel;
use tokio::runtime::Builder;
use vstd::prelude::*;

verus! {

/// A greyscale picture, row by row, one byte for each pixel.
#[derive(Debug, Clone, PartialEq, Eq)]
pub struct LumaImage {
    pub width: u32,
    pub height: u32,
    pub pixels: Vec<u8>,
}

/// What a picture shows: its width, its height and its pixels.
pub type Picture = (u32, u32, Seq<u8>);

/// Whether a picture has as many pixels as its sides say.
pub open spec fn complete(p: Picture) -> bool {
    p.2.len() == p.0 * p.1
}

impl View for LumaImage {
    type V = Picture;

    open spec fn view(&self) -> Picture {
        (self.width, self.height, self.pixels@)
    }
}

/// The picture of a QR code that the `qrcode` crate renders for a text, at least `min` pixels wide
/// and high, with or without a quiet zone; or the text of its error.
pub uninterp spec fn qr_picture(text: Seq<char>, min: u32, quiet: bool) -> Result<
    Picture,
    Seq<char>,
>;

/// The PNG file that the `image` crate makes of a picture, or the text of its error.
pub uninterp spec fn png_file(p: Picture) -> Result<Seq<u8>, Seq<char>>;

/// What the `rqrr` crate reads from the first QR code it finds in a picture: nothing where it finds
/// none, else the text of the code or the text of its error. A reading that panics is an error too.
pub uninterp spec fn qr_reading(p: Picture) -> Option<Result<Seq<char>, Seq<char>>>;

/// Whether a picture that came back is complete.
pub open spec fn complete_if_any(r: Result<LumaImage, String>) -> bool {
    match r {
        Ok(i) => complete(i@),
        Err(_) => true,
    }
}

/// Whether the picture `p` came back.
pub open spec fn picture_is(r: Result<LumaImage, String>, p: Picture) -> bool {
    r matches Ok(i) && i@ == p
}

/// Calls `qrcode::QrCode::new` and renders the code with `min_dimensions`, `quiet_zone` and
/// `build`. The picture is a function of the arguments and has as many pixels as its sides say;
/// an error is handed on as the text it is displayed with.
#[verifier::external_body]
pub(crate) fn render_qr(text: &str, min: u32, quiet: bool) -> (r: Result<LumaImage, String>)
    requires
        min <= 4096,
    ensures
        complete_if_any(r),
        match r {
            Ok(i) => qr_picture(text@, min, quiet) == Ok::<Picture, Seq<char>>(i@),
            Err(e) => qr_picture(text@, min, quiet) == Err::<Picture, Seq<char>>(e@),
        },
{
    match qrcode::QrCode::new(text.as_bytes()) {
        Ok(code) => {
            let img = code.render::<image::Luma<u8>>().min_dimensions(min, min).quiet_zone(
                quiet,
            ).build();
            Ok(LumaImage { width: img.width(), height: img.height(), pixels: img.into_raw() })
        },
        Err(e) => Err(e.to_string()),
    }
}

/// Calls `image::ImageBuffer::write_to` for the PNG format. The file is a function of the picture;
/// an error is handed on as the text it is displayed with.
#[verifier::external_body]
pub(crate) fn encode_png(img: &LumaImage) -> (r: Result<Vec<u8>, String>)
    requires
        complete(img@),
    ensures
        match r {
            Ok(b) => png_file(img@) == Ok::<Seq<u8>, Seq<char>>(b@),
            Err(e) => png_file(img@) == Err::<Seq<u8>, Seq<char>>(e@),
        },
{
    let mut bytes: Vec<u8> = Vec::new();
    match image::GrayImage::from_raw(img.width, img.height, img.pixels.clone()) {
        Some(buf) => match buf.write_to(
            &mut std::io::Cursor::new(&mut bytes),
            ImageFormat::Png,
        ) {
            Ok(()) => Ok(bytes),
            Err(e) => Err(e.to_string()),
        },
        None => Err("incomplete picture".to_owned()),
    }
}

/// Calls `rqrr::PreparedImage::prepare` and `detect_grids`, and `decode` on the first grid. The
/// reading is a function of the picture; an error is handed on as the text it is displayed with.
/// The search for the corners and the grid of a code can panic: on very large pictures, where
/// arithmetic that overflows is built to panic, and on those drawn to mislead it. So the calls are
/// made in a task of a `tokio` runtime, which without drivers is always built: a panic ends the task
/// and not the caller, and is handed on as the text of the channel's error. This takes a build in
/// which panics unwind and a system that can start a thread. Of very large pictures the reading
/// also rests on whether overflow is checked, which is the same throughout a build. A picture
/// without pixels is kept out.
#[verifier::external_body]
pub(crate) fn scan_qr(img: &LumaImage) -> (r: Option<Result<String, String>>)
    requires
        complete(img@),
        img@.0 > 0,
        img@.1 > 0,
    ensures
        match r {
            None => qr_reading(img@) is None,
            Some(Ok(t)) => qr_reading(img@) == Some(Ok::<Seq<char>, Seq<char>>(t@)),
            Some(Err(e)) => qr_reading(img@) == Some(Err::<Seq<char>, Seq<char>>(e@)),
        },
{
    let buf = image::GrayImage::from_raw(img.width, img.height, img.pixels.clone())?;
    let (send, receive) = channel();
    let runtime = Builder::new_current_thread().build().ok()?;
    runtime.spawn_blocking(move || {
        let mut prepared = rqrr::PreparedImage::prepare(buf);
        let grids = prepared.detect_grids();
        let read = grids.first().map(|g| g.decode().map_err(|e| e.to_string()));
        send.send(read.map(|r| r.map(|(_, text)| text)))
    });
    let read = receive.recv();
    runtime.shutdown_background();
    read.unwrap_or_else(|e| Some(Err(e.to_string())))
}

/// The greatest number of pixels of which it is stated that their file decodes to them again; far
/// larger pictures exceed what the decoder is allowed to use.
pub const PNG_PIXELS: usize = 0x1000000;

/// Whether a file is the PNG file that is made of a picture, which is not too large.
pub open spec fn shows(b: Seq<u8>, p: Picture) -> bool {
    complete(p) && p.2.len() <= PNG_PIXELS && png_file(p) == Ok::<Seq<u8>, Seq<char>>(b)
}

/// Whether a file begins as a PNG file does whose pixels are grey values of at most eight bits,
/// with or without an alpha channel.
pub open spec fn grey_png(b: Seq<u8>) -> bool {
    &&& seq![0x89u8, 0x50u8, 0x4eu8, 0x47u8, 0x0du8, 0x0au8, 0x1au8, 0x0au8].is_prefix_of(b)
    &&& b.len() > 25
    &&& b[24] <= 8
    &&& b[25] == 0 || b[25] == 4
}

/// What the `image` crate decodes a picture file with the content `b` to, where the extension of
/// `named` tells the format that the content does not tell: a greyscale picture, or the text of
/// its error. A decoding that panics is an error too.
pub uninterp spec fn picture_of(named: PathBuf, b: Seq<u8>) -> Result<Picture, Seq<char>>;

/// Calls `image::guess_format` or, where the content tells no format, `ImageFormat::from_path`;
/// then `image::load_from_memory_with_format` and `into_luma8`. These are the steps of
/// `image::ImageReader`, taken on bytes, with its errors: an extension that is no format's is named
/// in the error, and a bitmap without rows or columns is refused like any other broken file. The
/// calls are made in a task of a `tokio` runtime, which without drivers is always built: a panic of
/// a decoder ends the task and not the caller, and is handed on as the text of the channel's error.
///
/// Whether a file is refused, and with what text, is a function of the arguments. So is the picture
/// of a grey PNG file, whose pixels are copied. A picture has as many pixels as its sides say, and
/// PNG being lossless, the file that is made of a greyscale picture decodes to it again. Which
/// pixels other files decode to is not stated: the decoder of JPEG files picks its code by what the
/// processor offers, and the grey of a colour is computed in floating point.
#[verifier::external_body]
pub(crate) fn decode_picture(named: &PathBuf, bytes: &Vec<u8>) -> (r: Result<LumaImage, String>)
    ensures
        complete_if_any(r),
        match r {
            Ok(_) => picture_of(*named, bytes@) is Ok,
            Err(e) => picture_of(*named, bytes@) == Err::<Picture, Seq<char>>(e@),
        },
        grey_png(bytes@) ==> picture_or_error(r) == picture_of(*named, bytes@),
        forall|p: Picture| #[trigger] shows(bytes@, p) ==> picture_is(r, p),
{
    let named = named.clone();
    let bytes = bytes.clone();
    let (send, receive) = channel();
    let runtime = Builder::new_current_thread().build().map_err(|e| e.to_string())?;
    runtime.spawn_blocking(move || {
        let format = guess_format(&bytes).or_else(|_| ImageFormat::from_path(named));
        let decoded = format.and_then(|f| load_from_memory_with_format(&bytes, f));
        send.send(decoded.map(DynamicImage::into_luma8))
    });
    let decoded = receive.recv();
    runtime.shutdown_background();
    let img = decoded.map_err(|e| e.to_string())?.map_err(|e| e.to_string())?;
    Ok(LumaImage { width: img.width(), height: img.height(), pixels: img.into_raw() })
}

// ── QR code files ───────────────────────────────────────────────────────────

/// What comes of rendering a text as a PNG file, by what rendering the code gave.
pub open spec fn png_outcome(rendered: Result<Picture, Seq<char>>) -> Result<Seq<u8>, Seq<char>> {
    match rendered {
        Err(e) => Err("QR encode failed: "@ + e),
        Ok(p) => match png_file(p) {
            Ok(b) => Ok(b),
            Err(e) => Err("QR PNG encode failed: "@ + e),
        },
    }
}

/// What a picture, or the error of getting it, says.
pub open spec fn picture_or_error(r: Result<LumaImage, String>) -> Result<Picture, Seq<char>> {
    match r {
        Ok(i) => Ok(i@),
        Err(e) => Err(e@),
    }
}

/// The result of writing a PNG file, as it is reported.
pub fn png_result(written: Result<Vec<u8>, String>) -> (r: AppResult<Vec<u8>>)
    ensures
        match written {
            Ok(b) => r matches Ok(c) && c == b,
            Err(e) => r matches Err(AppError::ExportFailed(t)) && t@ == "QR PNG encode failed: "@
                + e@,
        },
{
    match written {
        Ok(b) => Ok(b),
        Err(e) => {
            let mut t = "QR PNG encode failed: ".to_owned();
            t.push_str(e.as_str());
            Err(AppError::ExportFailed(t))
        },
    }
}

/// Whether a file decodes to the picture it was made from, where that is not too large.
pub open spec fn shows_rendered(b: Seq<u8>, rendered: Result<Picture, Seq<char>>) -> bool {
    match rendered {
        Ok(p) => p.2.len() <= PNG_PIXELS ==> shows(b, p),
        Err(_) => false,
    }
}

/// Writes the picture of a QR code, or reports the error of rendering it. The file decodes to the
/// picture again.
pub fn png_from_rendered(rendered: Result<LumaImage, String>) -> (r: AppResult<Vec<u8>>)
    requires
        complete_if_any(rendered),
    ensures
        match r {
            Ok(b) => png_outcome(picture_or_error(rendered)) == Ok::<_, Seq<char>>(b@)
                && shows_rendered(b@, picture_or_error(rendered)),
            Err(AppError::ExportFailed(t)) => png_outcome(picture_or_error(rendered)) == Err::<
                Seq<u8>,
                _,
            >(t@),
            Err(_) => false,
        },
{
    match rendered {
        Err(e) => {
            let mut t = "QR encode failed: ".to_owned();
            t.push_str(e.as_str());
            Err(AppError::ExportFailed(t))
        },
        Ok(img) => png_result(encode_png(&img)),
    }
}

/// The text in a picture, by what reading the first code in it gave.
pub open spec fn reading_outcome(found: Option<Result<Seq<char>, Seq<char>>>) -> Result<
    Seq<char>,
    Seq<char>,
> {
    match found {
        None => Err("no QR code found in image"@),
        Some(Ok(t)) => Ok(t),
        Some(Err(e)) => Err("QR decode failed: "@ + e),
    }
}

/// What a reading says.
pub open spec fn reading_view(found: Option<Result<String, String>>) -> Option<
    Result<Seq<char>, Seq<char>>,
> {
    match found {
        None => None,
        Some(Ok(t)) => Some(Ok(t@)),
        Some(Err(e)) => Some(Err(e@)),
    }
}

/// The result of reading the first code in a picture, as it is reported.
pub fn reading_result(found: Option<Result<String, String>>) -> (r: AppResult<String>)
    ensures
        match r {
            Ok(t) => reading_outcome(reading_view(found)) == Ok::<_, Seq<char>>(t@),
            Err(AppError::ImportFailed(t)) => reading_outcome(reading_view(found)) == Err::<
                Seq<char>,
                _,
            >(t@),
            Err(_) => false,
        },
{
    match found {
        None => Err(AppError::ImportFailed("no QR code found in image".to_owned())),
        Some(Ok(t)) => Ok(t),
        Some(Err(e)) => {
            let mut t = "QR decode failed: ".to_owned();
            t.push_str(e.as_str());
            Err(AppError::ImportFailed(t))
        },
    }
}

/// The text in a picture: that of the first code in it, and none in a picture without pixels.
pub open spec fn picture_text(p: Picture) -> Result<Seq<char>, Seq<char>> {
    if p.0 == 0 || p.1 == 0 {
        Err("no QR code found in image"@)
    } else {
        reading_outcome(qr_reading(p))
    }
}

/// The text in a picture file, by what decoding the file gave.
pub open spec fn import_outcome(path: PathBuf, decoded: Result<Picture, Seq<char>>) -> Result<
    Seq<char>,
    Seq<char>,
> {
    match decoded {
        Err(e) => Err("decode image "@ + crate::paths::path_quoted(path) + ": "@ + e),
        Ok(p) => picture_text(p),
    }
}

/// Reads the QR code in a decoded picture, or reports the error of decoding it.
pub fn text_from_decoded(path: &PathBuf, decoded: Result<LumaImage, String>) -> (r: AppResult<
    String,
>)
    requires
        complete_if_any(decoded),
    ensures
        match r {
            Ok(t) => import_outcome(*path, picture_or_error(decoded)) == Ok::<_, Seq<char>>(t@),
            Err(AppError::ImportFailed(t)) => import_outcome(*path, picture_or_error(decoded))
                == Err::<Seq<char>, _>(t@),
            Err(_) => false,
        },
{
    match decoded {
        Err(e) => {
            let mut t = "decode image ".to_owned();
            t.push_str(quoted_path(path).as_str());
            t.push_str(": ");
            t.push_str(e.as_str());
            Err(AppError::ImportFailed(t))
        },
        Ok(img) => if img.width == 0 || img.height == 0 {
            reading_result(None)
        } else {
            reading_result(scan_qr(&img))
        },
    }
}

// ── laws ────────────────────────────────────────────────────────────────────

/// Reading a picture gives the text of the code in it; that there is no code is told from a code
/// that cannot be read.
pub proof fn law_readings_are_reported(found: Option<Result<String, String>>, r: AppResult<String>)
    requires
        call_ensures(reading_result, (found,), r),
    ensures
        r is Ok <==> found is Some && found->0 is Ok,
        r is Ok ==> r->Ok_0@ == found->0->Ok_0@,
        r is Err ==> r->Err_0 is ImportFailed,
        found is None ==> r->Err_0->ImportFailed_0@ == "no QR code found in image"@,
        found is Some && found->0 is Err ==> r->Err_0->ImportFailed_0@ == "QR decode failed: "@
            + found->0->Err_0@,
{
}

/// A picture file that cannot be decoded is reported with its path; a picture without pixels has no
/// code in it.
pub proof fn law_pictures_are_decoded_first(
    path: PathBuf,
    e: String,
    empty: LumaImage,
    bad: AppResult<String>,
    none: AppResult<String>,
)
    requires
        call_ensures(text_from_decoded, (&path, Err::<LumaImage, String>(e)), bad),
        call_ensures(text_from_decoded, (&path, Ok::<LumaImage, String>(empty)), none),
        empty.width == 0 || empty.height == 0,
    ensures
        bad is Err && bad->Err_0 is ImportFailed,
        bad->Err_0->ImportFailed_0@ == "decode image "@ + crate::paths::path_quoted(path) + ": "@
            + e@,
        none is Err && none->Err_0 is ImportFailed,
        none->Err_0->ImportFailed_0@ == "no QR code found in image"@,
{
}

/// The file of a code is the one that was written, and either step that fails is said.
pub proof fn law_codes_are_written(
    written: Result<Vec<u8>, String>,
    r: AppResult<Vec<u8>>,
    e: String,
    f: AppResult<Vec<u8>>,
)
    requires
        call_ensures(png_result, (written,), r),
        call_ensures(png_from_rendered, (Err::<LumaImage, String>(e),), f),
    ensures
        r is Ok <==> written is Ok,
        r is Ok ==> r->Ok_0 == written->Ok_0,
        r is Err ==> r->Err_0 is ExportFailed && r->Err_0->ExportFailed_0@
            == "QR PNG encode failed: "@ + written->Err_0@,
        f is Err && f->Err_0 is ExportFailed && f->Err_0->ExportFailed_0@ == "QR encode failed: "@
            + e@,
{
}

} // verus!
