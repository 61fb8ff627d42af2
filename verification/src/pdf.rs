use crate::buffer::{append_outcome, TextBuffer};
use crate::error::{outcome_view, ExtractError, ExtractErrorView};
use crate::limits::MIN_TEXT_LEN;
use crate::ocr::{begin_ocr, ocr_start, Extraction, ExtractionView};
use crate::sniff::{is_ocr_image, kind_is_ocr_image, sniff, sniffed_kind};
use crate::text::{bytes_eq, trimmed_byte_len};
use vstd::prelude::*;
use vstd::slice::slice_to_vec;
use vstd::string::StringSliceAdditionalSpecFns;

verus! {

/// What the extraction reads of one object of a PDF object graph.
#[derive(Debug)]
pub enum PdfObject {
    /// A stream: the name under `/Subtype` in its dictionary, if there is
    /// one, and its raw content.
    Stream { subtype: Option<Vec<u8>>, content: Vec<u8> },
    /// An object that is no stream, or an identifier that does not resolve.
    Other,
}

/// Mathematical value of a [`PdfObject`].
pub enum PdfObjectView {
    Stream { subtype: Option<Seq<u8>>, content: Seq<u8> },
    Other,
}

impl DeepView for PdfObject {
    type V = PdfObjectView;

    open spec fn deep_view(&self) -> PdfObjectView {
        match self {
            PdfObject::Stream { subtype, content } => PdfObjectView::Stream {
                subtype: match subtype {
                    Some(name) => Some(name@),
                    None => None,
                },
                content: content@,
            },
            PdfObject::Other => PdfObjectView::Other,
        }
    }
}

/// The dictionary key under which a stream names its subtype.
pub open spec fn subtype_key() -> Seq<u8> {
    "Subtype".spec_bytes()
}

/// The subtype name of an image stream.
pub open spec fn image_name() -> Seq<u8> {
    "Image".spec_bytes()
}

/// Whether a stream's content is handed to character recognition: it is not
/// empty and is recognised as a PNG, JPEG, TIFF, GIF or WEBP image.
pub open spec fn content_is_ocr_image(content: Seq<u8>) -> bool {
    &&& content.len() > 0
    &&& sniffed_kind(content) matches Some(kind)
    &&& kind_is_ocr_image(kind)
}

/// Whether an object is handed to character recognition: it is a stream of
/// subtype `/Image` whose content qualifies.
pub open spec fn is_ocr_candidate(object: PdfObjectView) -> bool {
    match object {
        PdfObjectView::Stream { subtype, content } => subtype == Some(image_name())
            && content_is_ocr_image(content),
        PdfObjectView::Other => false,
    }
}

/// The images that are handed to character recognition, in the order of
/// the objects.
pub open spec fn ocr_images(objects: Seq<PdfObjectView>) -> Seq<Seq<u8>>
    decreases objects.len(),
{
    if objects.len() == 0 {
        Seq::empty()
    } else if is_ocr_candidate(objects.last()) {
        ocr_images(objects.drop_last()).push(objects.last()->content)
    } else {
        ocr_images(objects.drop_last())
    }
}

/// The verdict on the text that the pages of a PDF carry themselves: text
/// over the size limit is an error, text long enough is the result, and
/// `None` says that the text is too short and recognition has to step in.
pub open spec fn native_outcome(native: Seq<char>) -> Option<Result<Seq<char>, ExtractErrorView>> {
    match append_outcome(Seq::empty(), native) {
        Err(e) => Some(Err(e)),
        Ok(text) => if trimmed_byte_len(text) >= MIN_TEXT_LEN {
            Some(Ok(text))
        } else {
            None
        },
    }
}

/// What is done with a PDF whose pages carry the text `native` and whose
/// object graph holds `objects`: the text is taken if it suffices, and only
/// otherwise is it dropped for a recognition pass over the images.
pub open spec fn pdf_decision(native: Seq<char>, objects: Seq<PdfObjectView>) -> ExtractionView {
    match native_outcome(native) {
        Some(r) => ExtractionView::Finished(r),
        None => ocr_start(ocr_images(objects)),
    }
}

/// Tests whether a name is the subtype name of image streams.
pub fn is_image_name(name: &[u8]) -> (yes: bool)
    ensures
        yes == (name@ == image_name()),
{
    bytes_eq(name, "Image".as_bytes())
}

/// Tests whether the content of an image stream is handed to character
/// recognition.
pub fn is_ocr_content(content: &[u8]) -> (yes: bool)
    ensures
        yes == content_is_ocr_image(content@),
{
    if content.len() == 0 {
        return false;
    }
    match sniff(content) {
        Some(kind) => is_ocr_image(kind),
        None => false,
    }
}

/// Tests whether an object is handed to character recognition.
pub fn is_ocr_object(object: &PdfObject) -> (yes: bool)
    ensures
        yes == is_ocr_candidate(object.deep_view()),
{
    match object {
        PdfObject::Stream { subtype: Some(name), content } => is_image_name(name.as_slice())
            && is_ocr_content(content.as_slice()),
        _ => false,
    }
}

/// Judges the text that the pages of a PDF carry themselves.
pub fn judge_native(native: &str) -> (verdict: Option<Result<String, ExtractError>>)
    ensures
        match native_outcome(native@) {
            Some(r) => verdict matches Some(x) && outcome_view(x) == r,
            None => verdict is None,
        },
{
    let mut buf = TextBuffer::new();
    assert(Seq::<char>::empty() + native@ =~= native@);
    match buf.append(native) {
        Err(e) => Some(Err(e)),
        Ok(()) => if buf.trimmed_len() >= MIN_TEXT_LEN {
            Some(Ok(buf.into_string()))
        } else {
            None
        },
    }
}

/// Starts the recognition pass over the images among `objects`.
pub fn plan_ocr(objects: &Vec<PdfObject>) -> (state: Extraction)
    ensures
        state@ == ocr_start(ocr_images(objects.deep_view())),
{
    let ghost all = objects.deep_view();
    let mut images: Vec<Vec<u8>> = Vec::new();
    let mut i: usize = 0;
    assert(all.take(0) =~= Seq::<PdfObjectView>::empty());
    while i < objects.len()
        invariant
            i <= objects.len(),
            all == objects.deep_view(),
            images.deep_view() == ocr_images(all.take(i as int)),
        decreases objects.len() - i,
    {
        proof {
            assert(all.take(i + 1).drop_last() =~= all.take(i as int));
            assert(all.take(i + 1).last() == objects[i as int].deep_view());
        }
        if is_ocr_object(&objects[i]) {
            match &objects[i] {
                PdfObject::Stream { content, .. } => {
                    let ghost before = images.deep_view();
                    let copy = slice_to_vec(content.as_slice());
                    assert(copy.deep_view() =~= content@);
                    images.push(copy);
                    assert(images.deep_view() =~= before.push(copy.deep_view()));
                },
                PdfObject::Other => {},
            }
        }
        i += 1;
    }
    assert(all.take(objects.len() as int) =~= all);
    begin_ocr(images)
}

} // verus!
