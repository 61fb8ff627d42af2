//! Plain-text extraction from PDF and DOCX documents.
//!
//! The crate decides, for one document held in memory, what text it carries:
//! it checks the input size, sniffs the format, walks the parsed document and
//! accumulates text in a buffer that may never outgrow [`limits::MAX_TEXT_LEN`].
//! The parsers and the recognition engine are run by the caller, who hands
//! what they gave to the extraction, step by step: a loaded PDF with the text
//! of its pages to [`ocr::Extraction::resume_pdf`], the body of a DOCX to
//! [`ocr::Extraction::resume_docx`]. A PDF whose own text is too short falls
//! back to optical character recognition of its embedded images, one image
//! at a time, fed back through [`ocr::Extraction::resume`].
pub mod buffer;
pub mod dispatch;
pub mod docx;
pub mod error;
pub mod laws;
pub mod limits;
pub mod ocr;
pub mod pdf;
pub mod pdf_reader;
pub mod record;
pub mod sniff;
pub mod text;
