use doctext::buffer::TextBuffer;
use doctext::error::{ExtractError, OcrStage, ParseStage};
use doctext::limits::{input_len_ok, MAX_INPUT_LEN, MAX_TEXT_LEN, MIN_INPUT_LEN, MIN_TEXT_LEN};
use doctext::record::{encode, ExtractionResult};
use doctext::text::{bytes_eq, push_decimal, str_byte_len, str_eq, trimmed_len};

#[test]
fn limits_have_their_values() {
    assert_eq!(MIN_TEXT_LEN, 256);
    assert_eq!(MAX_TEXT_LEN, 32_768);
    assert_eq!(MIN_INPUT_LEN, 256);
    assert_eq!(MAX_INPUT_LEN, 5 * 1024 * 1024);
}

#[test]
fn input_length_is_accepted_at_both_ends_only() {
    assert!(!input_len_ok(0));
    assert!(!input_len_ok(255));
    assert!(input_len_ok(256));
    assert!(input_len_ok(5 * 1024 * 1024));
    assert!(!input_len_ok(5 * 1024 * 1024 + 1));
}

#[test]
fn trimmed_length_counts_bytes_without_outer_white_space() {
    assert_eq!(trimmed_len(""), 0);
    assert_eq!(trimmed_len(" \t\r\n"), 0);
    assert_eq!(trimmed_len("  a b \n"), 3);
    assert_eq!(trimmed_len("\u{a0}\u{3000}é\u{2003}"), 2);
    assert_eq!(trimmed_len("\u{200b}x"), 4);
    assert_eq!(str_byte_len("é€"), 5);
}

#[test]
fn decimal_is_written_without_padding() {
    let mut out = String::from("n=");
    push_decimal(&mut out, 0);
    push_decimal(&mut out, 7);
    push_decimal(&mut out, 10);
    push_decimal(&mut out, 32769);
    assert_eq!(out, "n=071032769");
    let mut max = String::new();
    push_decimal(&mut max, usize::MAX);
    assert_eq!(max, usize::MAX.to_string());
}

#[test]
fn equality_of_strings_and_bytes() {
    assert!(str_eq("image/png", "image/png"));
    assert!(!str_eq("image/png", "image/pn"));
    assert!(!str_eq("a", "b"));
    assert!(bytes_eq(b"", b""));
    assert!(bytes_eq(b"Image", b"Image"));
    assert!(!bytes_eq(b"Image", b"image"));
}

#[test]
fn append_keeps_text_up_to_the_limit() {
    let mut buf = TextBuffer::new();
    assert_eq!(buf.len(), 0);
    assert_eq!(buf.append(&"x".repeat(32_767)), Ok(()));
    assert_eq!(buf.append("y"), Ok(()));
    assert_eq!(buf.len(), 32_768);
    assert_eq!(buf.append(""), Ok(()));
    assert_eq!(buf.append("z"), Err(ExtractError::TextTooLong { len: 32_769 }));
    assert_eq!(buf.len(), 32_768);
    assert!(buf.as_str().ends_with("xy"));
}

#[test]
fn append_counts_bytes_not_characters() {
    let mut buf = TextBuffer::new();
    assert_eq!(buf.append(&"é".repeat(16_384)), Ok(()));
    assert_eq!(buf.len(), 32_768);
    assert_eq!(buf.append("é"), Err(ExtractError::TextTooLong { len: 32_770 }));
}

#[test]
fn many_small_appends_fail_at_the_one_that_crosses() {
    let mut buf = TextBuffer::new();
    for _ in 0..3276 {
        assert_eq!(buf.append("0123456789"), Ok(()));
    }
    assert_eq!(buf.len(), 32_760);
    assert_eq!(buf.append("0123456789"), Err(ExtractError::TextTooLong { len: 32_770 }));
    assert_eq!(buf.append("01234567"), Ok(()));
    assert_eq!(buf.len(), 32_768);
}

#[test]
fn clear_empties_the_buffer() {
    let mut buf = TextBuffer::new();
    assert_eq!(buf.append("abc"), Ok(()));
    buf.clear();
    assert_eq!(buf.len(), 0);
    assert_eq!(buf.into_string(), "");
}

#[test]
fn finish_asks_for_256_trimmed_bytes() {
    let mut short = TextBuffer::new();
    assert_eq!(short.append(&format!("  {}\n\n", "a".repeat(255))), Ok(()));
    assert_eq!(short.trimmed_len(), 255);
    assert_eq!(short.finish(), Err(ExtractError::InsufficientText { len: 255 }));
    let mut enough = TextBuffer::new();
    let text = format!("  {}\n\n", "a".repeat(256));
    assert_eq!(enough.append(&text), Ok(()));
    assert_eq!(enough.finish(), Ok(text));
    assert_eq!(TextBuffer::new().finish(), Err(ExtractError::InsufficientText { len: 0 }));
}

#[test]
fn every_error_has_its_message() {
    assert_eq!(
        ExtractError::InvalidInputLength { len: 255 }.message(),
        "invalid input length: 255 bytes"
    );
    assert_eq!(ExtractError::UnknownFileKind.message(), "unknown file kind");
    assert_eq!(
        ExtractError::UnsupportedFileType { mime: "image/png".to_string() }.message(),
        "unsupported file type: image/png"
    );
    let parse = |stage: ParseStage, detail: &str| {
        ExtractError::Parse { stage, detail: detail.to_string() }.message()
    };
    assert_eq!(
        parse(ParseStage::PdfLoad, "Xref(Start)"),
        "failed to read input as pdf: Xref(Start)"
    );
    assert_eq!(
        parse(ParseStage::PdfText, "PageNumberNotFound(3)"),
        "failed to extract text: PageNumberNotFound(3)"
    );
    assert_eq!(
        parse(ParseStage::DocxRead, "DocumentNotFoundError"),
        "failed to read input as docx: DocumentNotFoundError"
    );
    assert_eq!(parse(ParseStage::PdfLoad, ""), "failed to read input as pdf: ");
    assert_eq!(ExtractError::TextTooLong { len: 32_769 }.message(), "invalid text length: 32769");
    assert_eq!(ExtractError::InsufficientText { len: 0 }.message(), "invalid text length: 0");
    assert_eq!(
        ExtractError::OcrFailure { stage: OcrStage::Initialize, detail: "no engine".to_string() }
            .message(),
        "failed to initialize ocr: no engine"
    );
    assert_eq!(
        ExtractError::OcrFailure { stage: OcrStage::Recognize, detail: "no pixels".to_string() }
            .message(),
        "failed to extract text: no pixels"
    );
    assert_eq!(
        ExtractError::Io { detail: "broken pipe".to_string() }.message(),
        "failed to read input: broken pipe"
    );
}

#[test]
fn records_wrap_text_or_the_message() {
    assert_eq!(
        encode(Ok("hello".to_string())),
        ExtractionResult::Text { text: "hello".to_string() }
    );
    assert_eq!(
        encode(Err(ExtractError::UnknownFileKind)),
        ExtractionResult::Error { error: "unknown file kind".to_string() }
    );
}
