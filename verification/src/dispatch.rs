use crate::error::{ExtractError, ExtractErrorView};
use crate::limits::{input_len_accepted, input_len_ok};
use crate::ocr::{Extraction, ExtractionView};
use crate::sniff::{classify, kind_of_mime, sniff_mime, sniffed_mime, ContentKind};
use vstd::prelude::*;

verus! {

/// The scheduling classes of the operating system.
#[derive(Clone, Copy, Debug, PartialEq, Eq, Structural)]
pub enum SchedulingClass {
    Other,
    Fifo,
    RoundRobin,
    Batch,
    Idle,
    Deadline,
}

/// Calls `scheduler::set_self_policy` for the current process and says
/// whether the call succeeded. Nothing is claimed of the result: it depends
/// on the rights of the process.
#[verifier::external_body]
fn set_self_policy(class: SchedulingClass, priority: i32) -> (changed: bool) {
    let policy = match class {
        SchedulingClass::Other => scheduler::Policy::Other,
        SchedulingClass::Fifo => scheduler::Policy::Fifo,
        SchedulingClass::RoundRobin => scheduler::Policy::RoundRobin,
        SchedulingClass::Batch => scheduler::Policy::Batch,
        SchedulingClass::Idle => scheduler::Policy::Idle,
        SchedulingClass::Deadline => scheduler::Policy::Deadline,
    };
    scheduler::set_self_policy(policy, priority).is_ok()
}

/// Asks for the batch scheduling class, so that parsing and recognition
/// yield to interactive work. A refusal is ignored.
pub fn set_self_batch() {
    let _changed = set_self_policy(SchedulingClass::Batch, 0);
}

/// The state in which the extraction of `input` starts.
///
/// An input outside the accepted size range is refused before anything
/// looks at its bytes. Bytes of no known format, and bytes of a known format
/// that is neither PDF nor DOCX, are refused as well; the latter error names
/// the format. A PDF and a DOCX wait to be read.
pub open spec fn dispatch_outcome(input: Seq<u8>) -> ExtractionView {
    if !input_len_accepted(input.len()) {
        ExtractionView::Finished(Err(ExtractErrorView::InvalidInputLength { len: input.len() }))
    } else {
        match sniffed_mime(input) {
            None => ExtractionView::Finished(Err(ExtractErrorView::UnknownFileKind)),
            Some(mime) => match kind_of_mime(mime) {
                ContentKind::Pdf => ExtractionView::AwaitingPdf,
                ContentKind::Docx => ExtractionView::AwaitingDocx,
                _ => ExtractionView::Finished(
                    Err(ExtractErrorView::UnsupportedFileType { mime }),
                ),
            },
        }
    }
}

/// Starts the extraction of the text of one document.
///
/// The size of the input is checked, the scheduling class of the process is
/// lowered as far as the system allows, the format is sniffed from the bytes
/// and the input is handed on by its format: a PDF comes back waiting to be
/// read, and so does a DOCX.
pub fn dispatch(input: &[u8]) -> (state: Extraction)
    ensures
        state@ == dispatch_outcome(input@),
{
    if !input_len_ok(input.len()) {
        return Extraction::Finished(Err(ExtractError::InvalidInputLength { len: input.len() }));
    }
    set_self_batch();
    let mime = match sniff_mime(input) {
        Some(mime) => mime,
        None => {
            return Extraction::Finished(Err(ExtractError::UnknownFileKind));
        },
    };
    match classify(mime) {
        ContentKind::Pdf => Extraction::AwaitingPdf,
        ContentKind::Docx => Extraction::AwaitingDocx,
        _ => Extraction::Finished(
            Err(ExtractError::UnsupportedFileType { mime: mime.to_owned() }),
        ),
    }
}

} // verus!
