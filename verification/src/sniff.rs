use crate::text::str_eq;
use vstd::prelude::*;

verus! {

/// What a byte buffer was recognised as.
#[derive(Clone, Copy, Debug, PartialEq, Eq, Structural)]
pub enum ContentKind {
    Pdf,
    Docx,
    Png,
    Jpeg,
    Tiff,
    Gif,
    Webp,
    /// A known format that this crate reads neither as a document nor as an image.
    Other,
}

/// The kind that a MIME type stands for.
pub open spec fn kind_of_mime(mime: Seq<char>) -> ContentKind {
    if mime == "application/pdf"@ {
        ContentKind::Pdf
    } else if mime == "application/vnd.openxmlformats-officedocument.wordprocessingml.document"@ {
        ContentKind::Docx
    } else if mime == "image/png"@ {
        ContentKind::Png
    } else if mime == "image/jpeg"@ {
        ContentKind::Jpeg
    } else if mime == "image/tiff"@ {
        ContentKind::Tiff
    } else if mime == "image/gif"@ {
        ContentKind::Gif
    } else if mime == "image/webp"@ {
        ContentKind::Webp
    } else {
        ContentKind::Other
    }
}

/// Whether images of this kind are handed to character recognition.
pub open spec fn kind_is_ocr_image(kind: ContentKind) -> bool {
    kind is Png || kind is Jpeg || kind is Tiff || kind is Gif || kind is Webp
}

/// The MIME type that `infer::get` reports for `bytes`, if it knows the format.
pub uninterp spec fn sniffed_mime(bytes: Seq<u8>) -> Option<Seq<char>>;

/// The kind of `bytes`: `None` where the format is not recognised.
pub open spec fn sniffed_kind(bytes: Seq<u8>) -> Option<ContentKind> {
    match sniffed_mime(bytes) {
        Some(mime) => Some(kind_of_mime(mime)),
        None => None,
    }
}

/// Calls `infer::get` and takes the MIME type of the match. Trusted: the
/// outcome depends on the bytes alone, and is named `sniffed_mime`; no
/// format is recognised in an empty buffer.
#[verifier::external_body]
pub(crate) fn sniff_mime(bytes: &[u8]) -> (mime: Option<&'static str>)
    ensures
        match mime {
            Some(m) => sniffed_mime(bytes@) == Some(m@),
            None => sniffed_mime(bytes@) is None,
        },
        bytes@.len() == 0 ==> mime is None,
{
    match infer::get(bytes) {
        Some(kind) => Some(kind.mime_type()),
        None => None,
    }
}

/// Maps a MIME type to the kind it stands for.
pub fn classify(mime: &str) -> (kind: ContentKind)
    ensures
        kind == kind_of_mime(mime@),
{
    if str_eq(mime, "application/pdf") {
        ContentKind::Pdf
    } else if str_eq(
        mime,
        "application/vnd.openxmlformats-officedocument.wordprocessingml.document",
    ) {
        ContentKind::Docx
    } else if str_eq(mime, "image/png") {
        ContentKind::Png
    } else if str_eq(mime, "image/jpeg") {
        ContentKind::Jpeg
    } else if str_eq(mime, "image/tiff") {
        ContentKind::Tiff
    } else if str_eq(mime, "image/gif") {
        ContentKind::Gif
    } else if str_eq(mime, "image/webp") {
        ContentKind::Webp
    } else {
        ContentKind::Other
    }
}

/// Classifies a byte buffer by its content alone.
pub fn sniff(bytes: &[u8]) -> (kind: Option<ContentKind>)
    ensures
        kind == sniffed_kind(bytes@),
        bytes@.len() == 0 ==> kind is None,
{
    match sniff_mime(bytes) {
        Some(mime) => Some(classify(mime)),
        None => None,
    }
}

/// Whether images of this kind are handed to character recognition.
pub fn is_ocr_image(kind: ContentKind) -> (yes: bool)
    ensures
        yes == kind_is_ocr_image(kind),
{
    match kind {
        ContentKind::Png
        | ContentKind::Jpeg
        | ContentKind::Tiff
        | ContentKind::Gif
        | ContentKind::Webp => true,
        _ => false,
    }
}

} // verus!
