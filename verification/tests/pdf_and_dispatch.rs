use doctext::dispatch::{dispatch, set_self_batch};
use doctext::error::{ExtractError, ParseStage};
use doctext::ocr::{Extraction, OcrOutcome};
use doctext::pdf_reader::{extract_document, extract_pdf, PdfReading};
use doctext::record::{encode, ExtractionResult};
use lopdf::content::{Content, Operation};
use lopdf::{Dictionary, Document, Object, Stream};

fn name(value: &str) -> Object {
    Object::Name(value.as_bytes().to_vec())
}

fn dict(entries: Vec<(&str, Object)>) -> Dictionary {
    let mut out = Dictionary::new();
    for (key, value) in entries {
        out.set(key, value);
    }
    out
}

fn document(pages: &[&str], streams: Vec<Stream>) -> Document {
    let shown = |text: &&str| Content {
        operations: vec![
            Operation::new("BT", vec![]),
            Operation::new("Tf", vec![name("F1"), Object::Integer(12)]),
            Operation::new("Td", vec![Object::Integer(50), Object::Integer(700)]),
            Operation::new("Tj", vec![Object::string_literal(*text)]),
            Operation::new("ET", vec![]),
        ],
    };
    document_of(pages.iter().map(shown).collect(), streams)
}

fn document_of(pages: Vec<Content>, streams: Vec<Stream>) -> Document {
    let mut doc = Document::with_version("1.5");
    let pages_id = doc.new_object_id();
    let font_id = doc.add_object(dict(vec![
        ("Type", name("Font")),
        ("Subtype", name("Type1")),
        ("BaseFont", name("Courier")),
    ]));
    let fonts = dict(vec![("F1", Object::Reference(font_id))]);
    let resources_id = doc.add_object(dict(vec![("Font", Object::Dictionary(fonts))]));
    let mut kids = Vec::new();
    for content in pages {
        let encoded = content.encode().expect("the content is encoded");
        let content_id = doc.add_object(Stream::new(Dictionary::new(), encoded));
        let page_id = doc.add_object(dict(vec![
            ("Type", name("Page")),
            ("Parent", Object::Reference(pages_id)),
            ("Contents", Object::Reference(content_id)),
        ]));
        kids.push(Object::Reference(page_id));
    }
    for stream in streams {
        doc.add_object(stream);
    }
    let count = kids.len() as i64;
    let media_box = vec![
        Object::Integer(0),
        Object::Integer(0),
        Object::Integer(595),
        Object::Integer(842),
    ];
    let tree = dict(vec![
        ("Type", name("Pages")),
        ("Kids", Object::Array(kids)),
        ("Count", Object::Integer(count)),
        ("Resources", Object::Reference(resources_id)),
        ("MediaBox", Object::Array(media_box)),
    ]);
    doc.objects.insert(pages_id, Object::Dictionary(tree));
    let catalog_id =
        doc.add_object(dict(vec![("Type", name("Catalog")), ("Pages", Object::Reference(pages_id))]));
    doc.trailer.set("Root", Object::Reference(catalog_id));
    doc
}

fn saved(mut doc: Document) -> Vec<u8> {
    let mut out = Vec::new();
    doc.save_to(&mut out).expect("the document is written to memory");
    out
}

fn image(content: &[u8]) -> Stream {
    Stream::new(dict(vec![("Type", name("XObject")), ("Subtype", name("Image"))]), content.to_vec())
}

fn png() -> Vec<u8> {
    let mut bytes = vec![0x89, 0x50, 0x4e, 0x47, 0x0d, 0x0a, 0x1a, 0x0a];
    bytes.extend_from_slice(&[7u8; 64]);
    bytes
}

fn gif() -> Vec<u8> {
    b"GIF89a\x01\x00\x01\x00\x80\x00\x00\x00\x00\x00".to_vec()
}

fn text_of(doc: &Document) -> Result<String, String> {
    let pages: Vec<u32> = doc.get_pages().into_keys().collect();
    doc.extract_text(&pages).map_err(|e| format!("{e:?}"))
}

fn read(bytes: &[u8]) -> PdfReading {
    match Document::load_mem(bytes) {
        Ok(document) => {
            let native = text_of(&document);
            PdfReading::Loaded { document, native }
        }
        Err(e) => PdfReading::Rejected(format!("{e:?}")),
    }
}

fn through_dispatch(bytes: &[u8]) -> Extraction {
    let state = dispatch(bytes);
    assert!(state.awaits_pdf());
    assert!(!state.awaits_docx());
    assert!(state.pending_image().is_none());
    let state = state.resume_pdf(read(bytes));
    assert!(!state.awaits_pdf());
    state
}

fn native_text(bytes: &[u8]) -> String {
    let doc = Document::load_mem(bytes).expect("the document loads");
    let pages: Vec<u32> = doc.get_pages().into_keys().collect();
    doc.extract_text(&pages).expect("the text is extracted")
}

fn finished(state: Extraction) -> Result<String, ExtractError> {
    assert!(state.pending_image().is_none());
    assert!(!state.awaits_docx());
    assert!(!state.awaits_pdf());
    state.into_result().expect("the extraction is over")
}

#[test]
fn pdf_with_enough_text_needs_no_recognition() {
    let first = "a".repeat(200);
    let second = "b".repeat(100);
    let bytes = saved(document(&[&first, &second], vec![image(&png())]));
    let expected = native_text(&bytes);
    assert!(expected.contains(&first) && expected.contains(&second));
    assert!(expected.find(&first) < expected.find(&second));
    let state = extract_pdf(read(&bytes));
    assert!(state.pending_image().is_none());
    assert_eq!(state.into_result(), Some(Ok(expected)));
}

#[test]
fn pdf_with_short_text_and_one_image_takes_the_recognised_text() {
    let bytes = saved(document(&["short native words"], vec![image(&png())]));
    let state = extract_pdf(read(&bytes));
    assert_eq!(state.pending_image(), Some(&png()));
    let found = "recognised ".repeat(30);
    let text = finished(state.resume(OcrOutcome::Recognized(found.clone()))).expect("text");
    assert_eq!(text, format!("{found}\n"));
    assert!(!text.contains("short native words"));
}

#[test]
fn pdf_with_short_text_and_no_image_has_insufficient_text() {
    let bytes = saved(document(&["short native words"], Vec::new()));
    let outcome = finished(extract_pdf(read(&bytes)));
    assert_eq!(outcome, Err(ExtractError::InsufficientText { len: 0 }));
    assert_eq!(
        encode(outcome),
        ExtractionResult::Error { error: "invalid text length: 0".to_string() }
    );
}

#[test]
fn pdf_images_that_are_empty_or_of_another_kind_are_skipped() {
    let form = Stream::new(dict(vec![("Subtype", name("Form"))]), png());
    let streams = vec![image(b""), image(b"raw samples"), form, image(&gif()), image(&png())];
    let doc = document(&["few"], streams);
    let state = extract_document(&doc, text_of(&doc));
    assert_eq!(state.pending_image(), Some(&gif()));
    let state = state.resume(OcrOutcome::Recognized("a".repeat(150)));
    assert_eq!(state.pending_image(), Some(&png()));
    let state = state.resume(OcrOutcome::Recognized("b".repeat(150)));
    assert_eq!(finished(state), Ok(format!("{}\n{}\n", "a".repeat(150), "b".repeat(150))));
}

#[test]
fn pdf_that_does_not_load_is_a_parse_error() {
    let mut bytes = b"%PDF-1.5\n".to_vec();
    bytes.extend_from_slice(&[b'x'; 400]);
    let detail = match Document::load_mem(&bytes) {
        Ok(_) => panic!("the bytes are no document"),
        Err(e) => format!("{e:?}"),
    };
    assert!(!detail.is_empty());
    let outcome = finished(extract_pdf(read(&bytes)));
    assert_eq!(
        outcome,
        Err(ExtractError::Parse { stage: ParseStage::PdfLoad, detail: detail.clone() })
    );
    assert_eq!(
        encode(outcome),
        ExtractionResult::Error { error: format!("failed to read input as pdf: {detail}") }
    );
    assert_eq!(
        encode(finished(through_dispatch(&bytes))),
        encode(finished(extract_pdf(read(&bytes))))
    );
}

#[test]
fn rejected_pdf_keeps_what_the_loader_said() {
    let outcome = finished(extract_pdf(PdfReading::Rejected("Xref(Start)".to_string())));
    assert_eq!(
        outcome,
        Err(ExtractError::Parse { stage: ParseStage::PdfLoad, detail: "Xref(Start)".to_string() })
    );
    assert_eq!(
        encode(outcome),
        ExtractionResult::Error { error: "failed to read input as pdf: Xref(Start)".to_string() }
    );
}

#[test]
fn text_handed_in_decides_and_not_the_pages() {
    let doc = document(&["short"], vec![image(&png())]);
    let enough = "n".repeat(256);
    assert_eq!(finished(extract_document(&doc, Ok(enough.clone()))), Ok(enough));
    let state = extract_document(&doc, Ok("n".repeat(255)));
    assert_eq!(state.pending_image(), Some(&png()));
    let over = extract_document(&doc, Ok("n".repeat(32_769)));
    assert_eq!(finished(over), Err(ExtractError::TextTooLong { len: 32_769 }));
    let failed = extract_document(&doc, Err("Unimplemented".to_string()));
    assert_eq!(
        finished(failed),
        Err(ExtractError::Parse {
            stage: ParseStage::PdfText,
            detail: "Unimplemented".to_string()
        })
    );
}

#[test]
fn pdf_whose_text_cannot_be_extracted_is_a_parse_error() {
    let broken = Content {
        operations: vec![Operation::new("BT", vec![]), Operation::new("Tf", vec![])],
    };
    let doc = document_of(vec![broken], vec![image(&png())]);
    let outcome = finished(extract_document(&doc, text_of(&doc)));
    assert_eq!(
        outcome,
        Err(ExtractError::Parse {
            stage: ParseStage::PdfText,
            detail: "Syntax(\"missing font operand\")".to_string()
        })
    );
    assert_eq!(
        encode(outcome),
        ExtractionResult::Error {
            error: "failed to extract text: Syntax(\"missing font operand\")".to_string()
        }
    );
}

#[test]
fn input_outside_the_size_range_is_refused() {
    let short = vec![b'%'; 255];
    assert_eq!(
        finished(dispatch(&short)),
        Err(ExtractError::InvalidInputLength { len: 255 })
    );
    assert_eq!(finished(dispatch(b"")), Err(ExtractError::InvalidInputLength { len: 0 }));
    let long = vec![0u8; 5 * 1024 * 1024 + 1];
    assert_eq!(
        finished(dispatch(&long)),
        Err(ExtractError::InvalidInputLength { len: 5 * 1024 * 1024 + 1 })
    );
    assert_eq!(
        encode(finished(dispatch(&short))),
        ExtractionResult::Error { error: "invalid input length: 255 bytes".to_string() }
    );
}

#[test]
fn input_of_unknown_or_unsupported_kind_is_refused() {
    let unknown = vec![b'a'; 256];
    assert_eq!(finished(dispatch(&unknown)), Err(ExtractError::UnknownFileKind));
    let mut picture = png();
    picture.resize(300, 0);
    assert_eq!(
        finished(dispatch(&picture)),
        Err(ExtractError::UnsupportedFileType { mime: "image/png".to_string() })
    );
    assert_eq!(
        encode(finished(dispatch(&picture))),
        ExtractionResult::Error { error: "unsupported file type: image/png".to_string() }
    );
}

#[test]
fn largest_accepted_input_reaches_the_sniffer() {
    let largest = vec![b'a'; 5 * 1024 * 1024];
    assert_eq!(finished(dispatch(&largest)), Err(ExtractError::UnknownFileKind));
}

#[test]
fn dispatch_hands_a_pdf_to_the_pdf_extractor() {
    let text = "c".repeat(300);
    let pdf = saved(document(&[&text], Vec::new()));
    assert!(pdf.len() >= 256);
    assert_eq!(finished(through_dispatch(&pdf)), Ok(native_text(&pdf)));
    let scanned = saved(document(&["short"], vec![image(&png())]));
    assert_eq!(through_dispatch(&scanned).pending_image(), Some(&png()));
}

#[test]
fn dispatch_of_a_pdf_waits_until_it_is_read() {
    let pdf = saved(document(&[&"w".repeat(300)], Vec::new()));
    let state = dispatch(&pdf);
    assert!(state.awaits_pdf());
    let state = state.resume(OcrOutcome::Recognized("r".repeat(300)));
    assert!(state.awaits_pdf());
    assert!(state.into_result().is_none());
    let rejected = dispatch(&pdf).resume_pdf(PdfReading::Rejected("Trailer".to_string()));
    assert_eq!(
        rejected.into_result(),
        Some(Err(ExtractError::Parse {
            stage: ParseStage::PdfLoad,
            detail: "Trailer".to_string()
        }))
    );
}

#[test]
fn a_pdf_changes_nothing_where_none_is_awaited() {
    let pdf = saved(document(&[&"w".repeat(300)], Vec::new()));
    let over = dispatch(&[b'a'; 300]).resume_pdf(read(&pdf));
    assert_eq!(over.into_result(), Some(Err(ExtractError::UnknownFileKind)));
    let scanned = saved(document(&["short"], vec![image(&png())]));
    let waiting = through_dispatch(&scanned).resume_pdf(read(&pdf));
    assert_eq!(waiting.pending_image(), Some(&png()));
}

#[test]
fn dispatch_twice_gives_the_same_record() {
    for input in [vec![b'a'; 10], vec![b'a'; 256]] {
        let first = encode(finished(dispatch(&input)));
        let second = encode(finished(dispatch(&input)));
        assert_eq!(first, second);
    }
    let documents = vec![
        saved(document(&[&"e".repeat(256)], Vec::new())),
        saved(document(&["short"], Vec::new())),
    ];
    for input in documents {
        let first = encode(finished(through_dispatch(&input)));
        let second = encode(finished(through_dispatch(&input)));
        assert_eq!(first, second);
    }
    let scanned = saved(document(&["short"], vec![image(&png())]));
    let found = "f".repeat(256);
    let first = through_dispatch(&scanned).resume(OcrOutcome::Recognized(found.clone()));
    let second = through_dispatch(&scanned).resume(OcrOutcome::Recognized(found.clone()));
    assert_eq!(encode(finished(first)), encode(finished(second)));
}

#[test]
fn lowering_the_priority_never_fails() {
    set_self_batch();
    set_self_batch();
}
