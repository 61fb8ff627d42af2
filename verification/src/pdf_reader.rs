use crate::error::{ExtractError, ExtractErrorView, ParseStage};
use crate::ocr::{Extraction, ExtractionView};
use crate::pdf::{judge_native, pdf_decision, plan_ocr, subtype_key, PdfObject, PdfObjectView};
use vstd::prelude::*;

verus! {

/// A PDF object graph as `lopdf` holds it once loaded.
#[verifier::external_type_specification]
#[verifier::external_body]
pub struct ExPdfDocument(lopdf::Document);

/// A stream object of `lopdf`.
#[verifier::external_type_specification]
#[verifier::external_body]
pub struct ExPdfStream(lopdf::Stream);

/// What the extraction reads of a stream: the entries of its dictionary that
/// hold a name, and its raw content.
pub struct StreamView {
    pub names: Map<Seq<u8>, Seq<u8>>,
    pub content: Seq<u8>,
}

/// The identifiers of the objects of a document, in the order in which the
/// graph holds them.
pub uninterp spec fn pdf_object_ids(document: lopdf::Document) -> Seq<(u32, u16)>;

/// The streams of a document, each under the identifiers that resolve to it.
pub uninterp spec fn pdf_streams(document: lopdf::Document) -> Map<(u32, u16), StreamView>;

/// The entries of the dictionary of a stream that hold a name, by key.
pub uninterp spec fn stream_names(stream: lopdf::Stream) -> Map<Seq<u8>, Seq<u8>>;

/// The raw content of a stream.
pub uninterp spec fn stream_bytes(stream: lopdf::Stream) -> Seq<u8>;

/// Lists the keys of `objects` of a document. Trusted: they depend on the
/// document alone.
#[verifier::external_body]
fn object_ids(document: &lopdf::Document) -> (ids: Vec<(u32, u16)>)
    ensures
        ids@ == pdf_object_ids(*document),
{
    document.objects.keys().copied().collect()
}

/// Calls `lopdf::Document::get_object`. Trusted: the stream that `id`
/// resolves to is handed out, and `None` where `id` does not resolve or
/// resolves to something else.
#[verifier::external_body]
fn stream_object<'a>(document: &'a lopdf::Document, id: (u32, u16)) -> (r: Option<
    &'a lopdf::Stream,
>)
    ensures
        match r {
            Some(stream) => pdf_streams(*document).contains_key(id) && pdf_streams(*document)[id]
                == (StreamView { names: stream_names(*stream), content: stream_bytes(*stream) }),
            None => !pdf_streams(*document).contains_key(id),
        },
{
    match document.get_object(id) {
        Ok(lopdf::Object::Stream(stream)) => Some(stream),
        _ => None,
    }
}

/// Calls `lopdf::Dictionary::get` on the dictionary of a stream. Trusted:
/// the name under `key` is handed out, and `None` where the key is absent or
/// holds something else.
#[verifier::external_body]
fn stream_name_entry(stream: &lopdf::Stream, key: &[u8]) -> (r: Option<Vec<u8>>)
    ensures
        match r {
            Some(name) => stream_names(*stream).contains_key(key@) && stream_names(*stream)[key@]
                == name@,
            None => !stream_names(*stream).contains_key(key@),
        },
{
    match stream.dict.get(key) {
        Ok(lopdf::Object::Name(name)) => Some(name.clone()),
        _ => None,
    }
}

/// Copies `content` of a stream.
#[verifier::external_body]
fn stream_content(stream: &lopdf::Stream) -> (content: Vec<u8>)
    ensures
        content@ == stream_bytes(*stream),
{
    stream.content.clone()
}

/// What the extraction reads of the object under `id`.
pub open spec fn document_object(document: lopdf::Document, id: (u32, u16)) -> PdfObjectView {
    if pdf_streams(document).contains_key(id) {
        let stream = pdf_streams(document)[id];
        PdfObjectView::Stream {
            subtype: if stream.names.contains_key(subtype_key()) {
                Some(stream.names[subtype_key()])
            } else {
                None
            },
            content: stream.content,
        }
    } else {
        PdfObjectView::Other
    }
}

/// What the extraction reads of the objects of a document, in the order of
/// the graph.
pub open spec fn document_objects(document: lopdf::Document) -> Seq<PdfObjectView> {
    Seq::new(
        pdf_object_ids(document).len(),
        |i: int| document_object(document, pdf_object_ids(document)[i]),
    )
}

/// What reading a PDF gave: the loaded object graph with the outcome of
/// extracting the text of its pages, or what the loader said where it
/// rejected the bytes.
pub enum PdfReading {
    /// The bytes loaded. `native` is the text of all pages, in page order,
    /// or what the parser said where the text could not be extracted.
    Loaded { document: lopdf::Document, native: Result<String, String> },
    /// The bytes did not load; the text says why.
    Rejected(String),
}

/// Mathematical value of a [`PdfReading`]: of the graph, what the extraction
/// reads of its objects.
pub enum PdfReadingView {
    Loaded { objects: Seq<PdfObjectView>, native: Result<Seq<char>, Seq<char>> },
    Rejected(Seq<char>),
}

/// Mathematical value of the outcome of a text extraction.
pub open spec fn native_view(native: Result<String, String>) -> Result<Seq<char>, Seq<char>> {
    match native {
        Ok(text) => Ok(text@),
        Err(detail) => Err(detail@),
    }
}

impl View for PdfReading {
    type V = PdfReadingView;

    open spec fn view(&self) -> PdfReadingView {
        match self {
            PdfReading::Loaded { document, native } => PdfReadingView::Loaded {
                objects: document_objects(*document),
                native: native_view(*native),
            },
            PdfReading::Rejected(detail) => PdfReadingView::Rejected(detail@),
        }
    }
}

/// What is done with a loaded PDF: a parse error where the text of its pages
/// could not be extracted, else the decision on that text and the objects.
pub open spec fn text_decision(
    native: Result<Seq<char>, Seq<char>>,
    objects: Seq<PdfObjectView>,
) -> ExtractionView {
    match native {
        Ok(text) => pdf_decision(text, objects),
        Err(detail) => ExtractionView::Finished(
            Err(ExtractErrorView::Parse { stage: ParseStage::PdfText, detail }),
        ),
    }
}

/// What is done with what reading a PDF gave: a parse error where the bytes
/// did not load, else the decision on the loaded document.
pub open spec fn pdf_outcome(reading: PdfReadingView) -> ExtractionView {
    match reading {
        PdfReadingView::Loaded { objects, native } => text_decision(native, objects),
        PdfReadingView::Rejected(detail) => ExtractionView::Finished(
            Err(ExtractErrorView::Parse { stage: ParseStage::PdfLoad, detail }),
        ),
    }
}

/// Reads from a loaded document what the extraction needs of each object.
fn read_objects(document: &lopdf::Document) -> (objects: Vec<PdfObject>)
    ensures
        objects.deep_view() == document_objects(*document),
{
    let ids = object_ids(document);
    let mut objects: Vec<PdfObject> = Vec::new();
    let mut i: usize = 0;
    while i < ids.len()
        invariant
            i <= ids.len(),
            ids@ == pdf_object_ids(*document),
            objects.len() == i,
            forall|k: int|
                0 <= k < i ==> #[trigger] objects[k].deep_view() == document_object(
                    *document,
                    ids[k],
                ),
        decreases ids.len() - i,
    {
        let object = match stream_object(document, ids[i]) {
            Some(stream) => PdfObject::Stream {
                subtype: stream_name_entry(stream, "Subtype".as_bytes()),
                content: stream_content(stream),
            },
            None => PdfObject::Other,
        };
        objects.push(object);
        i += 1;
    }
    assert(objects.deep_view() =~= document_objects(*document));
    objects
}

/// Starts the extraction of the text of a loaded PDF, given the outcome of
/// extracting the text of its pages.
///
/// Text that suffices is the result. Otherwise it is dropped, and the images
/// of the graph are handed out for recognition one by one, in the order of
/// the graph: see [`Extraction::pending_image`] and [`Extraction::resume`].
pub fn extract_document(document: &lopdf::Document, native: Result<String, String>) -> (state:
    Extraction)
    ensures
        state@ == text_decision(native_view(native), document_objects(*document)),
{
    let text = match native {
        Ok(text) => text,
        Err(detail) => {
            return Extraction::Finished(
                Err(ExtractError::Parse { stage: ParseStage::PdfText, detail }),
            );
        },
    };
    match judge_native(text.as_str()) {
        Some(r) => Extraction::Finished(r),
        None => plan_ocr(&read_objects(document)),
    }
}

/// Starts the extraction of the text of a PDF from what reading it gave.
///
/// A PDF that did not load, or whose text could not be extracted, ends in a
/// parse error that keeps the parser's words.
pub fn extract_pdf(reading: PdfReading) -> (state: Extraction)
    ensures
        state@ == pdf_outcome(reading@),
{
    match reading {
        PdfReading::Loaded { document, native } => extract_document(&document, native),
        PdfReading::Rejected(detail) => Extraction::Finished(
            Err(ExtractError::Parse { stage: ParseStage::PdfLoad, detail }),
        ),
    }
}

} // verus!
