use doctext::error::{ExtractError, OcrStage};
use doctext::ocr::{begin_ocr, Extraction, OcrOutcome};
use doctext::record::{encode, ExtractionResult};
use doctext::pdf::{is_image_name, is_ocr_content, is_ocr_object, judge_native, plan_ocr, PdfObject};
use doctext::sniff::{classify, is_ocr_image, sniff, ContentKind};

fn png() -> Vec<u8> {
    vec![0x89, 0x50, 0x4e, 0x47, 0x0d, 0x0a, 0x1a, 0x0a, 0, 0, 0, 13]
}

fn jpeg() -> Vec<u8> {
    vec![0xff, 0xd8, 0xff, 0xe0, 0, 16, b'J', b'F', b'I', b'F']
}

fn image_stream(content: Vec<u8>) -> PdfObject {
    PdfObject::Stream { subtype: Some(b"Image".to_vec()), content }
}

fn finished(state: Extraction) -> Result<String, ExtractError> {
    assert!(state.pending_image().is_none());
    assert!(!state.awaits_docx());
    assert!(!state.awaits_pdf());
    state.into_result().expect("the extraction is over")
}

#[test]
fn mime_types_map_to_kinds() {
    assert_eq!(classify("application/pdf"), ContentKind::Pdf);
    assert_eq!(
        classify("application/vnd.openxmlformats-officedocument.wordprocessingml.document"),
        ContentKind::Docx
    );
    assert_eq!(classify("image/png"), ContentKind::Png);
    assert_eq!(classify("image/jpeg"), ContentKind::Jpeg);
    assert_eq!(classify("image/tiff"), ContentKind::Tiff);
    assert_eq!(classify("image/gif"), ContentKind::Gif);
    assert_eq!(classify("image/webp"), ContentKind::Webp);
    assert_eq!(classify("application/zip"), ContentKind::Other);
    assert_eq!(classify(""), ContentKind::Other);
}

#[test]
fn sniffing_reads_the_bytes() {
    assert_eq!(sniff(b""), None);
    assert_eq!(sniff(b"plain words, no magic"), None);
    assert_eq!(sniff(b"%PDF-1.5\n"), Some(ContentKind::Pdf));
    assert_eq!(sniff(&png()), Some(ContentKind::Png));
    assert_eq!(sniff(&jpeg()), Some(ContentKind::Jpeg));
    assert_eq!(sniff(b"GIF89a\x01\x00\x01\x00"), Some(ContentKind::Gif));
    assert_eq!(sniff(b"II*\x00\x08\x00\x00\x00\x00\x00\x00\x00"), Some(ContentKind::Tiff));
    assert_eq!(sniff(b"RIFF\x00\x00\x00\x00WEBPVP8 "), Some(ContentKind::Webp));
    assert_eq!(sniff(b"PK\x03\x04\x14\x00\x00\x00"), Some(ContentKind::Other));
}

#[test]
fn only_five_image_kinds_go_to_recognition() {
    for kind in [
        ContentKind::Png,
        ContentKind::Jpeg,
        ContentKind::Tiff,
        ContentKind::Gif,
        ContentKind::Webp,
    ] {
        assert!(is_ocr_image(kind));
    }
    for kind in [ContentKind::Pdf, ContentKind::Docx, ContentKind::Other] {
        assert!(!is_ocr_image(kind));
    }
}

#[test]
fn candidates_are_non_empty_image_streams_of_a_listed_kind() {
    assert!(is_image_name(b"Image"));
    assert!(!is_image_name(b"Form"));
    assert!(!is_image_name(b"Imag"));
    assert!(is_ocr_content(&png()));
    assert!(!is_ocr_content(b""));
    assert!(!is_ocr_content(b"%PDF-1.5\n"));
    assert!(!is_ocr_content(b"raw samples"));
    assert!(is_ocr_object(&image_stream(png())));
    assert!(!is_ocr_object(&image_stream(Vec::new())));
    assert!(!is_ocr_object(&PdfObject::Stream { subtype: None, content: png() }));
    assert!(!is_ocr_object(&PdfObject::Stream { subtype: Some(b"Form".to_vec()), content: png() }));
    assert!(!is_ocr_object(&PdfObject::Other));
}

#[test]
fn native_text_is_judged_by_its_trimmed_length() {
    let enough = format!(" {}\n", "a".repeat(256));
    assert_eq!(judge_native(&enough), Some(Ok(enough.clone())));
    assert_eq!(judge_native(&format!(" {}\n", "a".repeat(255))), None);
    assert_eq!(judge_native(""), None);
    assert_eq!(
        judge_native(&"a".repeat(32_769)),
        Some(Err(ExtractError::TextTooLong { len: 32_769 }))
    );
    assert_eq!(
        judge_native(&" ".repeat(40_000)),
        Some(Err(ExtractError::TextTooLong { len: 40_000 }))
    );
    let full = "a".repeat(32_768);
    assert_eq!(judge_native(&full), Some(Ok(full.clone())));
}

#[test]
fn no_image_means_insufficient_text_at_once() {
    let objects = vec![
        PdfObject::Other,
        PdfObject::Stream { subtype: None, content: b"BT ET".to_vec() },
        image_stream(Vec::new()),
        image_stream(b"raw samples".to_vec()),
    ];
    assert_eq!(finished(plan_ocr(&objects)), Err(ExtractError::InsufficientText { len: 0 }));
    assert_eq!(finished(begin_ocr(Vec::new())), Err(ExtractError::InsufficientText { len: 0 }));
}

#[test]
fn images_are_handed_out_in_order_and_their_text_joined() {
    let objects = vec![image_stream(png()), PdfObject::Other, image_stream(jpeg())];
    let state = plan_ocr(&objects);
    assert_eq!(state.pending_image(), Some(&png()));
    let first = "a".repeat(200);
    let state = state.resume(OcrOutcome::Recognized(first.clone()));
    assert_eq!(state.pending_image(), Some(&jpeg()));
    let second = "b".repeat(100);
    let state = state.resume(OcrOutcome::Recognized(second.clone()));
    assert_eq!(finished(state), Ok(format!("{first}\n{second}\n")));
}

#[test]
fn one_recognised_image_gives_its_text_and_a_line_break() {
    let state = begin_ocr(vec![png()]);
    let found = "word ".repeat(60);
    let state = state.resume(OcrOutcome::Recognized(found.clone()));
    assert_eq!(finished(state), Ok(format!("{found}\n")));
}

#[test]
fn recognised_text_that_is_too_short_is_refused() {
    let state = begin_ocr(vec![png()]).resume(OcrOutcome::Recognized("a".repeat(255)));
    assert_eq!(finished(state), Err(ExtractError::InsufficientText { len: 255 }));
}

#[test]
fn failure_of_the_engine_ends_the_pass() {
    let state = begin_ocr(vec![png(), jpeg()]);
    let state = state.resume(OcrOutcome::Recognized("a".repeat(300)));
    let state = state.resume(OcrOutcome::Failed("engine gave up".to_string()));
    let outcome = finished(state);
    assert_eq!(
        outcome,
        Err(ExtractError::OcrFailure {
            stage: OcrStage::Recognize,
            detail: "engine gave up".to_string()
        })
    );
    assert_eq!(
        encode(outcome),
        ExtractionResult::Error { error: "failed to extract text: engine gave up".to_string() }
    );
}

#[test]
fn engine_that_does_not_start_ends_the_pass() {
    let state = begin_ocr(vec![png(), jpeg()]);
    let state = state.resume(OcrOutcome::Unavailable("no model".to_string()));
    let outcome = finished(state);
    assert_eq!(
        outcome,
        Err(ExtractError::OcrFailure {
            stage: OcrStage::Initialize,
            detail: "no model".to_string()
        })
    );
    assert_eq!(
        encode(outcome),
        ExtractionResult::Error { error: "failed to initialize ocr: no model".to_string() }
    );
}

#[test]
fn recognised_text_over_the_limit_ends_the_pass_at_once() {
    let state = begin_ocr(vec![png(), jpeg(), png()]);
    let state = state.resume(OcrOutcome::Recognized("a".repeat(30_000)));
    assert_eq!(state.pending_image(), Some(&jpeg()));
    let state = state.resume(OcrOutcome::Recognized("b".repeat(3_000)));
    assert_eq!(finished(state), Err(ExtractError::TextTooLong { len: 33_001 }));
}

#[test]
fn line_break_after_recognised_text_is_under_the_limit_too() {
    let state = begin_ocr(vec![png()]).resume(OcrOutcome::Recognized("a".repeat(32_768)));
    assert_eq!(finished(state), Err(ExtractError::TextTooLong { len: 32_769 }));
    let state = begin_ocr(vec![png()]).resume(OcrOutcome::Recognized("a".repeat(32_767)));
    assert_eq!(finished(state), Ok(format!("{}\n", "a".repeat(32_767))));
}

#[test]
fn finished_extraction_ignores_further_outcomes() {
    let state = begin_ocr(Vec::new()).resume(OcrOutcome::Recognized("a".repeat(300)));
    assert_eq!(finished(state), Err(ExtractError::InsufficientText { len: 0 }));
    let waiting = begin_ocr(vec![png()]);
    assert!(waiting.into_result().is_none());
}
