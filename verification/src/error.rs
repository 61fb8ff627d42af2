use crate::text::{decimal_digits, push_decimal};
use vstd::prelude::*;

verus! {

/// The step at which a parser gave up on the document.
#[derive(Clone, Copy, Debug, PartialEq, Eq, Structural)]
pub enum ParseStage {
    /// The bytes could not be loaded as a PDF object graph.
    PdfLoad,
    /// The PDF was loaded but the text of its pages could not be extracted.
    PdfText,
    /// The bytes could not be read as a DOCX package.
    DocxRead,
}

/// The step at which character recognition failed.
#[derive(Clone, Copy, Debug, PartialEq, Eq, Structural)]
pub enum OcrStage {
    /// The engine could not be started.
    Initialize,
    /// The engine could not read an image or recognise its text.
    Recognize,
}

/// Why an extraction ended without text. Every one of these is final for the
/// document at hand: nothing is retried and no partial text is handed out.
#[derive(Debug, PartialEq, Eq)]
pub enum ExtractError {
    /// The input has fewer than 256 or more than 5 MiB bytes.
    InvalidInputLength { len: usize },
    /// The bytes match no known format.
    UnknownFileKind,
    /// The bytes are of a known format that is neither PDF nor DOCX.
    UnsupportedFileType { mime: String },
    /// The PDF or DOCX parser rejected the bytes; `detail` is what the
    /// parser said of it.
    Parse { stage: ParseStage, detail: String },
    /// An append would have taken the text over `MAX_TEXT_LEN` bytes;
    /// `len` is the size it would have reached.
    TextTooLong { len: usize },
    /// The trimmed text has only `len` bytes, fewer than `MIN_TEXT_LEN`.
    InsufficientText { len: usize },
    /// The recognition engine failed; `detail` is what the engine said of it.
    OcrFailure { stage: OcrStage, detail: String },
    /// The input stream could not be read to its end.
    Io { detail: String },
}

/// Mathematical value of an [`ExtractError`].
pub enum ExtractErrorView {
    InvalidInputLength { len: nat },
    UnknownFileKind,
    UnsupportedFileType { mime: Seq<char> },
    Parse { stage: ParseStage, detail: Seq<char> },
    TextTooLong { len: nat },
    InsufficientText { len: nat },
    OcrFailure { stage: OcrStage, detail: Seq<char> },
    Io { detail: Seq<char> },
}

impl View for ExtractError {
    type V = ExtractErrorView;

    open spec fn view(&self) -> ExtractErrorView {
        match *self {
            ExtractError::InvalidInputLength { len } => ExtractErrorView::InvalidInputLength {
                len: len as nat,
            },
            ExtractError::UnknownFileKind => ExtractErrorView::UnknownFileKind,
            ExtractError::UnsupportedFileType { mime } => ExtractErrorView::UnsupportedFileType {
                mime: mime@,
            },
            ExtractError::Parse { stage, detail } => ExtractErrorView::Parse {
                stage,
                detail: detail@,
            },
            ExtractError::TextTooLong { len } => ExtractErrorView::TextTooLong { len: len as nat },
            ExtractError::InsufficientText { len } => ExtractErrorView::InsufficientText {
                len: len as nat,
            },
            ExtractError::OcrFailure { stage, detail } => ExtractErrorView::OcrFailure {
                stage,
                detail: detail@,
            },
            ExtractError::Io { detail } => ExtractErrorView::Io { detail: detail@ },
        }
    }
}

/// Mathematical value of the outcome of an extraction.
pub open spec fn outcome_view(r: Result<String, ExtractError>) -> Result<
    Seq<char>,
    ExtractErrorView,
> {
    match r {
        Ok(text) => Ok(text@),
        Err(e) => Err(e@),
    }
}

/// The words that name a parsing failure.
pub open spec fn stage_message(stage: ParseStage) -> Seq<char> {
    match stage {
        ParseStage::PdfLoad => "failed to read input as pdf"@,
        ParseStage::PdfText => "failed to extract text"@,
        ParseStage::DocxRead => "failed to read input as docx"@,
    }
}

/// The words that name a failure of character recognition.
pub open spec fn ocr_stage_message(stage: OcrStage) -> Seq<char> {
    match stage {
        OcrStage::Initialize => "failed to initialize ocr"@,
        OcrStage::Recognize => "failed to extract text"@,
    }
}

/// The human-readable message of an error. A failure of a parser or of the
/// recognition engine is named by its stage, followed by a colon, a space
/// and what the parser or the engine said.
pub open spec fn message_of(e: ExtractErrorView) -> Seq<char> {
    match e {
        ExtractErrorView::InvalidInputLength { len } => "invalid input length: "@ + decimal_digits(
            len,
        ) + " bytes"@,
        ExtractErrorView::UnknownFileKind => "unknown file kind"@,
        ExtractErrorView::UnsupportedFileType { mime } => "unsupported file type: "@ + mime,
        ExtractErrorView::Parse { stage, detail } => stage_message(stage) + ": "@ + detail,
        ExtractErrorView::TextTooLong { len } => "invalid text length: "@ + decimal_digits(len),
        ExtractErrorView::InsufficientText { len } => "invalid text length: "@ + decimal_digits(
            len,
        ),
        ExtractErrorView::OcrFailure { stage, detail } => ocr_stage_message(stage) + ": "@
            + detail,
        ExtractErrorView::Io { detail } => "failed to read input: "@ + detail,
    }
}

impl ExtractError {
    /// The message shown to the user for this error.
    pub fn message(&self) -> (msg: String)
        ensures
            msg@ == message_of(self@),
    {
        match self {
            ExtractError::InvalidInputLength { len } => {
                let mut msg = String::from_str("invalid input length: ");
                push_decimal(&mut msg, *len);
                msg.append(" bytes");
                msg
            },
            ExtractError::UnknownFileKind => String::from_str("unknown file kind"),
            ExtractError::UnsupportedFileType { mime } => {
                let mut msg = String::from_str("unsupported file type: ");
                msg.append(mime.as_str());
                msg
            },
            ExtractError::Parse { stage, detail } => {
                let mut msg = match stage {
                    ParseStage::PdfLoad => String::from_str("failed to read input as pdf"),
                    ParseStage::PdfText => String::from_str("failed to extract text"),
                    ParseStage::DocxRead => String::from_str("failed to read input as docx"),
                };
                msg.append(": ");
                msg.append(detail.as_str());
                msg
            },
            ExtractError::TextTooLong { len } => {
                let mut msg = String::from_str("invalid text length: ");
                push_decimal(&mut msg, *len);
                msg
            },
            ExtractError::InsufficientText { len } => {
                let mut msg = String::from_str("invalid text length: ");
                push_decimal(&mut msg, *len);
                msg
            },
            ExtractError::OcrFailure { stage, detail } => {
                let mut msg = match stage {
                    OcrStage::Initialize => String::from_str("failed to initialize ocr"),
                    OcrStage::Recognize => String::from_str("failed to extract text"),
                };
                msg.append(": ");
                msg.append(detail.as_str());
                msg
            },
            ExtractError::Io { detail } => {
                let mut msg = String::from_str("failed to read input: ");
                msg.append(detail.as_str());
                msg
            },
        }
    }
}

} // verus!
