//! Checks of uploaded file data: presence, content type, declared length and size limit.

use crate::provider::ChatRsFileType;
use crate::text::{eq_ignore_ascii_case, eq_ignoring_ascii_case, parse_usize, parsed_usize};
use vstd::prelude::*;

verus! {

/// Maximum size of an uploaded file, in bytes (4 MB).
pub const MAX_FILE_SIZE: usize = 4194304;

/// Reasons to refuse an upload.
#[derive(Debug, Clone, Copy, PartialEq, Eq, Structural)]
pub enum UploadError {
    NoData,
    NoContentType,
    NoContentLength,
    TooLarge,
}

impl UploadError {
    /// The HTTP status of the refusal.
    pub fn status(&self) -> (r: u16)
        ensures
            r == match *self {
                UploadError::NoData => 400u16,
                UploadError::NoContentType => 400u16,
                UploadError::NoContentLength => 411u16,
                UploadError::TooLarge => 413u16,
            },
    {
        match self {
            UploadError::NoData => 400,
            UploadError::NoContentType => 400,
            UploadError::NoContentLength => 411,
            UploadError::TooLarge => 413,
        }
    }

    /// The message of the refusal.
    pub fn message(&self) -> (r: &'static str)
        ensures
            r@ == match *self {
                UploadError::NoData => "No data found"@,
                UploadError::NoContentType => "No content type found"@,
                UploadError::NoContentLength => "No content length found"@,
                UploadError::TooLarge => "File size exceeds maximum"@,
            },
    {
        match self {
            UploadError::NoData => "No data found",
            UploadError::NoContentType => "No content type found",
            UploadError::NoContentLength => "No content length found",
            UploadError::TooLarge => "File size exceeds maximum",
        }
    }
}

/// A media type, by its top-level and sub-level names (`image` and `png` in `image/png`).
pub struct MediaType<'a> {
    pub top: &'a str,
    pub sub: &'a str,
}

/// Whether a media type is the given one; names are compared without regard to ASCII case.
pub open spec fn is_media(m: MediaType, top: Seq<char>, sub: Seq<char>) -> bool {
    eq_ignoring_ascii_case(m.top@, top) && eq_ignoring_ascii_case(m.sub@, sub)
}

/// The type of an uploaded file by its media type: JPEG, PNG, WebP and BMP files are images, PDF
/// files are PDF, all others are text.
pub open spec fn media_file_type(m: MediaType) -> ChatRsFileType {
    if is_media(m, "image"@, "jpeg"@) || is_media(m, "image"@, "png"@) || is_media(m, "image"@, "webp"@)
        || is_media(m, "image"@, "bmp"@) {
        ChatRsFileType::Image
    } else if is_media(m, "application"@, "pdf"@) {
        ChatRsFileType::Pdf
    } else {
        ChatRsFileType::Text
    }
}

fn is_media_type(m: &MediaType, top: &str, sub: &str) -> (r: bool)
    ensures
        r == is_media(*m, top@, sub@),
{
    eq_ignore_ascii_case(m.top, top) && eq_ignore_ascii_case(m.sub, sub)
}

/// The type of an uploaded file by its media type.
pub fn file_type_of(m: &MediaType) -> (r: ChatRsFileType)
    ensures
        r == media_file_type(*m),
{
    proof {
        reveal_strlit("image");
        reveal_strlit("jpeg");
        reveal_strlit("png");
        reveal_strlit("webp");
        reveal_strlit("bmp");
        reveal_strlit("application");
        reveal_strlit("pdf");
    }
    if is_media_type(m, "image", "jpeg") || is_media_type(m, "image", "png") || is_media_type(
        m,
        "image",
        "webp",
    ) || is_media_type(m, "image", "bmp") {
        ChatRsFileType::Image
    } else if is_media_type(m, "application", "pdf") {
        ChatRsFileType::Pdf
    } else {
        ChatRsFileType::Text
    }
}

/// An accepted upload: the type of the file and its declared length.
#[derive(Debug, Clone, Copy, PartialEq, Eq, Structural)]
pub struct UploadInfo {
    pub file_type: ChatRsFileType,
    pub content_length: usize,
}

/// The declared length of an upload: the `Content-Length` header read as a number, or 0 where it
/// does not hold one.
pub open spec fn declared_length(header: Seq<char>) -> nat {
    match parsed_usize(header) {
        Some(v) => v,
        None => 0,
    }
}

/// Check an upload: it must hold data, have a content type and a `Content-Length` header, and
/// declare at most `MAX_FILE_SIZE` bytes. The checks are made in this order.
pub fn check_upload(has_data: bool, content_type: Option<MediaType>, content_length: Option<&str>) -> (r:
    Result<UploadInfo, UploadError>)
    ensures
        !has_data ==> r == Err::<UploadInfo, UploadError>(UploadError::NoData),
        has_data && content_type is None ==> r == Err::<UploadInfo, UploadError>(UploadError::NoContentType),
        has_data && content_type is Some && content_length is None ==> r == Err::<UploadInfo, UploadError>(
            UploadError::NoContentLength,
        ),
        has_data && content_type is Some && content_length is Some ==> match r {
            Ok(info) => declared_length(content_length.unwrap()@) <= MAX_FILE_SIZE
                && info.content_length == declared_length(content_length.unwrap()@)
                && info.file_type == media_file_type(content_type.unwrap()),
            Err(e) => declared_length(content_length.unwrap()@) > MAX_FILE_SIZE && e == UploadError::TooLarge,
        },
{
    if !has_data {
        return Err(UploadError::NoData);
    }
    let media = match content_type {
        Some(m) => m,
        None => return Err(UploadError::NoContentType),
    };
    let header = match content_length {
        Some(h) => h,
        None => return Err(UploadError::NoContentLength),
    };
    let length: usize = match parse_usize(header) {
        Some(v) => v,
        None => 0,
    };
    if length > MAX_FILE_SIZE {
        return Err(UploadError::TooLarge);
    }
    Ok(UploadInfo { file_type: file_type_of(&media), content_length: length })
}

} // verus!
