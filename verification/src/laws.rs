use crate::buffer::{
    append_all, lemma_append_all_concat, lemma_append_all_crossing, lemma_append_all_fits,
    lemma_joined_concat, lemma_joined_single, joined, saturated, sufficiency,
};
use crate::dispatch::dispatch_outcome;
use crate::docx::{body_outcome, docx_outcome, DocxReadingView};
use crate::error::{message_of, stage_message, ExtractErrorView, ParseStage};
use crate::limits::{input_len_accepted, MAX_TEXT_LEN, MIN_TEXT_LEN};
use crate::ocr::{
    ocr_step, resumed, resumed_all, resumed_docx, resumed_pdf, ExtractionView, OcrOutcomeView,
};
use crate::pdf::{native_outcome, ocr_images, pdf_decision, PdfObjectView};
use crate::pdf_reader::{pdf_outcome, text_decision, PdfReadingView};
use crate::record::{record_of, ExtractionResultView};
use crate::sniff::{kind_of_mime, sniffed_mime, ContentKind};
use crate::text::{
    byte_len, decimal_digits, lemma_byte_len_concat, lemma_line_break_is_one_byte,
    lemma_trailing_line_break_is_trimmed, line_break, trimmed, trimmed_byte_len,
};
use vstd::prelude::*;

verus! {

/// An input outside the accepted size range is refused with the error that
/// tells its length, whatever its bytes are: no parser has a say.
pub proof fn lemma_invalid_length_is_refused(input: Seq<u8>)
    requires
        !input_len_accepted(input.len()),
    ensures
        dispatch_outcome(input) == ExtractionView::Finished(
            Err(ExtractErrorView::InvalidInputLength { len: input.len() }),
        ),
        message_of(ExtractErrorView::InvalidInputLength { len: input.len() })
            == "invalid input length: "@ + decimal_digits(input.len()) + " bytes"@,
{
}

/// An input of accepted size that is sniffed as neither PDF nor DOCX is
/// refused: as of unknown kind where the sniffer knows no format, and else
/// as unsupported, with the format named in the message.
pub proof fn lemma_other_kinds_are_refused(input: Seq<u8>)
    requires
        input_len_accepted(input.len()),
        sniffed_mime(input) matches Some(mime) ==> kind_of_mime(mime) != ContentKind::Pdf
            && kind_of_mime(mime) != ContentKind::Docx,
    ensures
        match sniffed_mime(input) {
            None => dispatch_outcome(input) == ExtractionView::Finished(
                Err(ExtractErrorView::UnknownFileKind),
            ) && message_of(ExtractErrorView::UnknownFileKind) == "unknown file kind"@,
            Some(mime) => dispatch_outcome(input) == ExtractionView::Finished(
                Err(ExtractErrorView::UnsupportedFileType { mime }),
            ) && message_of(ExtractErrorView::UnsupportedFileType { mime })
                == "unsupported file type: "@ + mime,
        },
{
}

/// The message of a parse error names the stage and goes on with a colon, a
/// space and what the parser said.
pub proof fn lemma_parse_message_carries_the_detail(stage: ParseStage, detail: Seq<char>)
    ensures
        message_of(ExtractErrorView::Parse { stage, detail }) == stage_message(stage) + ": "@
            + detail,
        record_of(Err(ExtractErrorView::Parse { stage, detail }))
            == (ExtractionResultView::Error { error: stage_message(stage) + ": "@ + detail }),
{
}

/// An input of accepted size that is sniffed as PDF waits to be read, and
/// goes on with what the reading gives: the parse error with the loader's
/// words where the bytes did not load, the parse error with the parser's
/// words where the text of the pages could not be extracted, and else the
/// decision on that text and the objects of the graph.
pub proof fn lemma_pdf_input_goes_on_with_its_reading(input: Seq<u8>, reading: PdfReadingView)
    requires
        input_len_accepted(input.len()),
        sniffed_mime(input) matches Some(mime) && kind_of_mime(mime) == ContentKind::Pdf,
    ensures
        dispatch_outcome(input) == ExtractionView::AwaitingPdf,
        resumed_pdf(dispatch_outcome(input), reading) == pdf_outcome(reading),
        reading matches PdfReadingView::Rejected(detail) ==> pdf_outcome(reading)
            matches ExtractionView::Finished(Err(e)) && message_of(e)
            == "failed to read input as pdf"@ + ": "@ + detail,
        reading matches PdfReadingView::Loaded { native: Err(detail), .. } ==> pdf_outcome(
            reading,
        ) matches ExtractionView::Finished(Err(e)) && message_of(e) == "failed to extract text"@
            + ": "@ + detail,
        reading matches PdfReadingView::Loaded { native: Ok(text), objects } ==> pdf_outcome(
            reading,
        ) == pdf_decision(text, objects),
{
}

/// An input of accepted size that is sniffed as DOCX waits for its package
/// to be read, and ends with what the reading gives: the text of the body
/// or the error that ended its traversal, or the parse error with the
/// reader's words where the package was rejected. No image is ever due.
pub proof fn lemma_docx_input_ends_with_its_reading(input: Seq<u8>, reading: DocxReadingView)
    requires
        input_len_accepted(input.len()),
        sniffed_mime(input) matches Some(mime) && kind_of_mime(mime) == ContentKind::Docx,
    ensures
        dispatch_outcome(input) == ExtractionView::AwaitingDocx,
        resumed_docx(dispatch_outcome(input), reading) == ExtractionView::Finished(
            docx_outcome(reading),
        ),
        reading matches DocxReadingView::Rejected(detail) ==> docx_outcome(reading) matches Err(e)
            && message_of(e) == "failed to read input as docx"@ + ": "@ + detail,
        reading matches DocxReadingView::Body(body) ==> docx_outcome(reading) == body_outcome(
            body,
        ),
{
}

/// Text of the pages that fits the size limit and, trimmed, has at least
/// `MIN_TEXT_LEN` bytes is the result as it stands: the extraction is over
/// at once, no image is ever due, and no outcome of a recognition changes it.
pub proof fn lemma_sufficient_native_text_is_kept(
    native: Seq<char>,
    objects: Seq<PdfObjectView>,
    outcome: OcrOutcomeView,
)
    requires
        byte_len(native) <= MAX_TEXT_LEN,
        trimmed_byte_len(native) >= MIN_TEXT_LEN,
    ensures
        text_decision(Ok(native), objects) == ExtractionView::Finished(Ok(native)),
        resumed(text_decision(Ok(native), objects), outcome) == text_decision(
            Ok(native),
            objects,
        ),
{
    assert(Seq::<char>::empty() + native =~= native);
}

/// Where the text of the pages is too short and the graph holds one image
/// for recognition, text recognised from it that suffices is the result,
/// followed by a line break, and nothing of the text of the pages is in it.
/// The recognised text suffices where, trimmed, it has at least
/// `MIN_TEXT_LEN` bytes, and it fits where it leaves a byte for the line
/// break.
pub proof fn lemma_recognised_text_replaces_short_native_text(
    native: Seq<char>,
    objects: Seq<PdfObjectView>,
    found: Seq<char>,
)
    requires
        native_outcome(native) is None,
        ocr_images(objects).len() == 1,
        byte_len(found) < MAX_TEXT_LEN,
        trimmed_byte_len(found) >= MIN_TEXT_LEN,
    ensures
        text_decision(Ok(native), objects) == (ExtractionView::AwaitingOcr {
            text: Seq::empty(),
            images: ocr_images(objects),
            next: 0,
        }),
        resumed(text_decision(Ok(native), objects), OcrOutcomeView::Recognized(found))
            == ExtractionView::Finished(Ok(found + line_break())),
{
    let pieces = seq![found, line_break()];
    let empty = Seq::<char>::empty();
    lemma_byte_len_concat(found, line_break());
    lemma_line_break_is_one_byte();
    lemma_trailing_line_break_is_trimmed(found);
    assert(pieces =~= seq![found] + seq![line_break()]);
    lemma_joined_concat(seq![found], seq![line_break()]);
    lemma_joined_single(found);
    lemma_joined_single(line_break());
    assert(empty + (found + line_break()) =~= found + line_break());
    lemma_append_all_fits(empty, pieces);
}

/// Where the text of the pages is too short and the graph holds no image for
/// recognition, the extraction ends with the error of insufficient text.
pub proof fn lemma_no_image_leaves_insufficient_text(
    native: Seq<char>,
    objects: Seq<PdfObjectView>,
)
    requires
        native_outcome(native) is None,
        ocr_images(objects).len() == 0,
    ensures
        text_decision(Ok(native), objects) == ExtractionView::Finished(
            Err(ExtractErrorView::InsufficientText { len: 0 }),
        ),
        message_of(ExtractErrorView::InsufficientText { len: 0 }) == "invalid text length: "@
            + seq!['0'],
{
    let empty = Seq::<char>::empty();
    assert(trimmed(empty) =~= empty);
    assert(vstd::utf8::encode_utf8(empty) =~= Seq::<u8>::empty());
    assert(decimal_digits(0) =~= seq!['0']);
}

/// The outcomes of recognitions that all went well, with the given texts.
pub open spec fn recognitions(texts: Seq<Seq<char>>) -> Seq<OcrOutcomeView> {
    Seq::new(texts.len(), |i: int| OcrOutcomeView::Recognized(texts[i]))
}

/// The pieces that a recognition pass appends for the given texts: each
/// text, and a line break behind it.
pub open spec fn with_line_breaks(texts: Seq<Seq<char>>) -> Seq<Seq<char>>
    decreases texts.len(),
{
    if texts.len() == 0 {
        Seq::empty()
    } else {
        seq![texts.first(), line_break()] + with_line_breaks(texts.drop_first())
    }
}

/// How a pass that holds `text` and waits for the image `next` stands once
/// the texts of the following images have come back: ended by the append
/// that was refused, waiting for the image after them, or, behind the last
/// image, ended by the verdict on the text.
pub open spec fn pass_outcome(
    text: Seq<char>,
    images: Seq<Seq<u8>>,
    next: nat,
    texts: Seq<Seq<char>>,
) -> ExtractionView {
    match append_all(text, with_line_breaks(texts)) {
        Err(e) => ExtractionView::Finished(Err(e)),
        Ok(longer) => if next + texts.len() < images.len() {
            ExtractionView::AwaitingOcr { text: longer, images, next: next + texts.len() }
        } else {
            ExtractionView::Finished(sufficiency(longer))
        },
    }
}

/// An extraction that is over stays as it is, whatever comes back.
pub proof fn lemma_finished_stays_finished(
    done: Result<Seq<char>, ExtractErrorView>,
    outcomes: Seq<OcrOutcomeView>,
)
    ensures
        resumed_all(ExtractionView::Finished(done), outcomes) == ExtractionView::Finished(done),
    decreases outcomes.len(),
{
    if outcomes.len() > 0 {
        lemma_finished_stays_finished(done, outcomes.drop_first());
    }
}

/// A recognition pass is a run of appends: after the texts of some images
/// have come back, the pass stands where appending each text and a line
/// break behind it, in order, leaves it.
pub proof fn lemma_recognition_pass_is_a_run_of_appends(
    text: Seq<char>,
    images: Seq<Seq<u8>>,
    next: nat,
    texts: Seq<Seq<char>>,
)
    requires
        next < images.len(),
        next + texts.len() <= images.len(),
    ensures
        resumed_all(ExtractionView::AwaitingOcr { text, images, next }, recognitions(texts))
            == pass_outcome(text, images, next, texts),
    decreases texts.len(),
{
    if texts.len() > 0 {
        let found = texts.first();
        let rest = texts.drop_first();
        let outcomes = recognitions(texts);
        assert(outcomes.first() == OcrOutcomeView::Recognized(found));
        assert(outcomes.drop_first() =~= recognitions(rest));
        let step = ocr_step(text, images, next, OcrOutcomeView::Recognized(found));
        lemma_append_all_concat(text, seq![found, line_break()], with_line_breaks(rest));
        match append_all(text, seq![found, line_break()]) {
            Err(e) => {
                lemma_finished_stays_finished(Err(e), recognitions(rest));
            },
            Ok(longer) => {
                if next + 1 < images.len() {
                    lemma_recognition_pass_is_a_run_of_appends(longer, images, next + 1, rest);
                } else {
                    assert(rest.len() == 0);
                    lemma_finished_stays_finished(sufficiency(longer), recognitions(rest));
                }
            },
        }
    }
}

/// A recognition pass ends at the append that takes the text over the
/// limit, be it a recognised text or the line break behind one, with the
/// size reached at that very append, whatever was recognised after it.
pub proof fn lemma_recognition_pass_ends_at_the_crossing(
    images: Seq<Seq<u8>>,
    texts: Seq<Seq<char>>,
    k: int,
)
    requires
        0 < images.len(),
        texts.len() <= images.len(),
        0 <= k < with_line_breaks(texts).len(),
        byte_len(joined(with_line_breaks(texts).take(k))) <= MAX_TEXT_LEN,
        byte_len(joined(with_line_breaks(texts).take(k + 1))) > MAX_TEXT_LEN,
    ensures
        resumed_all(
            ExtractionView::AwaitingOcr { text: Seq::empty(), images, next: 0 },
            recognitions(texts),
        ) == ExtractionView::Finished(
            Err(
                ExtractErrorView::TextTooLong {
                    len: saturated(byte_len(joined(with_line_breaks(texts).take(k + 1)))),
                },
            ),
        ),
{
    let empty = Seq::<char>::empty();
    let pieces = with_line_breaks(texts);
    assert(empty + joined(pieces.take(k)) =~= joined(pieces.take(k)));
    assert(empty + joined(pieces.take(k + 1)) =~= joined(pieces.take(k + 1)));
    lemma_append_all_crossing(empty, pieces, k);
    lemma_recognition_pass_is_a_run_of_appends(empty, images, 0, texts);
}

/// How an extraction that started in `state` stands after the document was
/// read, if that was asked for, and the recognitions came back with
/// `outcomes`, in order.
pub open spec fn run(
    state: ExtractionView,
    pdf: PdfReadingView,
    docx: DocxReadingView,
    outcomes: Seq<OcrOutcomeView>,
) -> ExtractionView {
    resumed_all(resumed_docx(resumed_pdf(state, pdf), docx), outcomes)
}

/// Two calls of `dispatch` on the same input leave it in the same state,
/// and the two extractions then stand alike at every step, and report the
/// same record, where the readers and the recognition answered them alike.
pub proof fn lemma_dispatch_is_repeatable(
    input: Seq<u8>,
    pdf: PdfReadingView,
    docx: DocxReadingView,
    outcomes: Seq<OcrOutcomeView>,
    first: ExtractionView,
    second: ExtractionView,
)
    requires
        first == dispatch_outcome(input),
        second == dispatch_outcome(input),
    ensures
        first == second,
        run(first, pdf, docx, outcomes) == run(second, pdf, docx, outcomes),
        run(first, pdf, docx, outcomes) matches ExtractionView::Finished(done) ==> record_of(done)
            == record_of(run(second, pdf, docx, outcomes)->Finished_0),
{
}

} // verus!
