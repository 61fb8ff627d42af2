use crate::buffer::{append_all, lemma_append_all_push, sufficiency, TextBuffer};
use crate::docx::{docx_outcome, extract_docx, DocxReading, DocxReadingView};
use crate::error::{outcome_view, ExtractError, ExtractErrorView, OcrStage};
use crate::pdf_reader::{extract_pdf, pdf_outcome, PdfReading, PdfReadingView};
use crate::text::line_break;
use vstd::prelude::*;

verus! {

/// What the recognition engine made of one image.
#[derive(Debug)]
pub enum OcrOutcome {
    /// The text that was recognised, already valid UTF-8.
    Recognized(String),
    /// The engine could not be started; the text says why.
    Unavailable(String),
    /// The engine could not read the image or recognise its text; the text
    /// says why.
    Failed(String),
}

/// Mathematical value of an [`OcrOutcome`].
pub enum OcrOutcomeView {
    Recognized(Seq<char>),
    Unavailable(Seq<char>),
    Failed(Seq<char>),
}

impl View for OcrOutcome {
    type V = OcrOutcomeView;

    open spec fn view(&self) -> OcrOutcomeView {
        match self {
            OcrOutcome::Recognized(text) => OcrOutcomeView::Recognized(text@),
            OcrOutcome::Unavailable(detail) => OcrOutcomeView::Unavailable(detail@),
            OcrOutcome::Failed(detail) => OcrOutcomeView::Failed(detail@),
        }
    }
}

/// A recognition pass in progress: the text gathered so far, the images to
/// recognise, and which of them is due.
#[derive(Debug)]
pub struct OcrPass {
    buf: TextBuffer,
    images: Vec<Vec<u8>>,
    next: usize,
}

/// An extraction: finished, waiting for a PDF or for the package of a DOCX
/// to be read, or waiting for the recognition of an image.
#[derive(Debug)]
pub enum Extraction {
    /// The extraction is over, with text or with the error that ended it.
    Finished(Result<String, ExtractError>),
    /// The input is a PDF: it is to be loaded and the text of its pages
    /// extracted, and what that gave handed to `resume_pdf`.
    AwaitingPdf,
    /// The input is a DOCX package: it is to be read, and what that gave
    /// handed to `resume_docx`.
    AwaitingDocx,
    /// The image `pending_image` is to be recognised, and the outcome handed
    /// to `resume`.
    AwaitingOcr(OcrPass),
}

/// Mathematical value of an [`Extraction`].
pub enum ExtractionView {
    Finished(Result<Seq<char>, ExtractErrorView>),
    AwaitingPdf,
    AwaitingDocx,
    AwaitingOcr { text: Seq<char>, images: Seq<Seq<u8>>, next: nat },
}

/// The state in which a recognition pass over `images` starts: with no image
/// there is nothing to wait for, and the empty text is judged at once.
pub open spec fn ocr_start(images: Seq<Seq<u8>>) -> ExtractionView {
    if images.len() == 0 {
        ExtractionView::Finished(sufficiency(Seq::empty()))
    } else {
        ExtractionView::AwaitingOcr { text: Seq::empty(), images, next: 0 }
    }
}

/// The state after the image `images[next]` came back with `outcome`.
///
/// A failure of the engine ends the pass, with the error that tells whether
/// the engine could not be started or failed on the image. Recognised text is appended,
/// followed by a line break, both under the size limit. After the last image
/// the text is judged for sufficiency.
pub open spec fn ocr_step(
    text: Seq<char>,
    images: Seq<Seq<u8>>,
    next: nat,
    outcome: OcrOutcomeView,
) -> ExtractionView {
    match outcome {
        OcrOutcomeView::Unavailable(detail) => ExtractionView::Finished(
            Err(ExtractErrorView::OcrFailure { stage: OcrStage::Initialize, detail }),
        ),
        OcrOutcomeView::Failed(detail) => ExtractionView::Finished(
            Err(ExtractErrorView::OcrFailure { stage: OcrStage::Recognize, detail }),
        ),
        OcrOutcomeView::Recognized(found) => match append_all(text, seq![found, line_break()]) {
            Err(e) => ExtractionView::Finished(Err(e)),
            Ok(longer) => if next + 1 < images.len() {
                ExtractionView::AwaitingOcr { text: longer, images, next: next + 1 }
            } else {
                ExtractionView::Finished(sufficiency(longer))
            },
        },
    }
}

/// The state that follows `state` on the outcome of a recognition; a state
/// that waits for no image stays as it is.
pub open spec fn resumed(state: ExtractionView, outcome: OcrOutcomeView) -> ExtractionView {
    match state {
        ExtractionView::AwaitingOcr { text, images, next } => ocr_step(text, images, next, outcome),
        _ => state,
    }
}

/// The state that follows `state` on what reading the PDF gave; a state that
/// waits for no PDF stays as it is.
pub open spec fn resumed_pdf(state: ExtractionView, reading: PdfReadingView) -> ExtractionView {
    match state {
        ExtractionView::AwaitingPdf => pdf_outcome(reading),
        _ => state,
    }
}

/// The state that follows `state` on what reading the DOCX package gave; a
/// state that waits for no package stays as it is.
pub open spec fn resumed_docx(state: ExtractionView, reading: DocxReadingView) -> ExtractionView {
    match state {
        ExtractionView::AwaitingDocx => ExtractionView::Finished(docx_outcome(reading)),
        _ => state,
    }
}

/// The state that follows `state` on a run of outcomes, taken in order.
pub open spec fn resumed_all(state: ExtractionView, outcomes: Seq<OcrOutcomeView>) -> ExtractionView
    decreases outcomes.len(),
{
    if outcomes.len() == 0 {
        state
    } else {
        resumed_all(resumed(state, outcomes.first()), outcomes.drop_first())
    }
}

impl OcrPass {
    #[verifier::type_invariant]
    spec fn image_is_due(&self) -> bool {
        self.next < self.images.len()
    }

    /// The text gathered so far.
    pub closed spec fn text(&self) -> Seq<char> {
        self.buf@
    }

    /// The images of the pass, in the order in which they are recognised.
    pub closed spec fn images(&self) -> Seq<Seq<u8>> {
        self.images.deep_view()
    }

    /// The index of the image that is due.
    pub closed spec fn next(&self) -> nat {
        self.next as nat
    }
}

impl View for Extraction {
    type V = ExtractionView;

    open spec fn view(&self) -> ExtractionView {
        match self {
            Extraction::Finished(r) => ExtractionView::Finished(outcome_view(*r)),
            Extraction::AwaitingPdf => ExtractionView::AwaitingPdf,
            Extraction::AwaitingDocx => ExtractionView::AwaitingDocx,
            Extraction::AwaitingOcr(pass) => ExtractionView::AwaitingOcr {
                text: pass.text(),
                images: pass.images(),
                next: pass.next(),
            },
        }
    }
}

/// Starts a recognition pass over `images`.
pub fn begin_ocr(images: Vec<Vec<u8>>) -> (state: Extraction)
    ensures
        state@ == ocr_start(images.deep_view()),
{
    if images.len() == 0 {
        Extraction::Finished(TextBuffer::new().finish())
    } else {
        Extraction::AwaitingOcr(OcrPass { buf: TextBuffer::new(), images, next: 0 })
    }
}

impl Extraction {
    /// The image whose recognition the extraction waits for, if it waits.
    pub fn pending_image(&self) -> (image: Option<&Vec<u8>>)
        ensures
            match self@ {
                ExtractionView::AwaitingOcr { images, next, .. } => {
                    &&& next < images.len()
                    &&& image matches Some(bytes)
                    &&& bytes@ == images[next as int]
                },
                _ => image is None,
            },
    {
        match self {
            Extraction::Finished(_) => None,
            Extraction::AwaitingPdf => None,
            Extraction::AwaitingDocx => None,
            Extraction::AwaitingOcr(pass) => {
                proof {
                    use_type_invariant(pass);
                }
                Some(&pass.images[pass.next])
            },
        }
    }

    /// Takes the outcome of the recognition of the pending image and moves on.
    pub fn resume(self, outcome: OcrOutcome) -> (state: Extraction)
        ensures
            state@ == resumed(self@, outcome@),
    {
        match self {
            Extraction::Finished(r) => Extraction::Finished(r),
            Extraction::AwaitingPdf => Extraction::AwaitingPdf,
            Extraction::AwaitingDocx => Extraction::AwaitingDocx,
            Extraction::AwaitingOcr(pass) => {
                proof {
                    use_type_invariant(&pass);
                }
                let OcrPass { buf, images, next } = pass;
                let mut buf = buf;
                match outcome {
                    OcrOutcome::Unavailable(detail) => Extraction::Finished(
                        Err(ExtractError::OcrFailure { stage: OcrStage::Initialize, detail }),
                    ),
                    OcrOutcome::Failed(detail) => Extraction::Finished(
                        Err(ExtractError::OcrFailure { stage: OcrStage::Recognize, detail }),
                    ),
                    OcrOutcome::Recognized(found) => {
                        proof {
                            lemma_append_all_push(buf@, seq![found@], line_break());
                            lemma_append_all_push(buf@, Seq::empty(), found@);
                            assert(Seq::<Seq<char>>::empty().push(found@) =~= seq![found@]);
                            assert(seq![found@].push(line_break()) =~= seq![found@, line_break()]);
                        }
                        match buf.append(found.as_str()) {
                            Err(e) => Extraction::Finished(Err(e)),
                            Ok(()) => {
                                proof {
                                    reveal_strlit("\n");
                                    assert("\n"@ =~= line_break());
                                }
                                match buf.append("\n") {
                                    Err(e) => Extraction::Finished(Err(e)),
                                    Ok(()) => if next + 1 < images.len() {
                                        Extraction::AwaitingOcr(
                                            OcrPass { buf, images, next: next + 1 },
                                        )
                                    } else {
                                        Extraction::Finished(buf.finish())
                                    },
                                }
                            },
                        }
                    },
                }
            },
        }
    }

    /// Whether the extraction waits for the PDF to be read.
    pub fn awaits_pdf(&self) -> (yes: bool)
        ensures
            yes == (self@ is AwaitingPdf),
    {
        match self {
            Extraction::AwaitingPdf => true,
            _ => false,
        }
    }

    /// Takes what reading the PDF gave and moves on: to the end, or to the
    /// recognition of the first image.
    pub fn resume_pdf(self, reading: PdfReading) -> (state: Extraction)
        ensures
            state@ == resumed_pdf(self@, reading@),
    {
        match self {
            Extraction::AwaitingPdf => extract_pdf(reading),
            other => other,
        }
    }

    /// Whether the extraction waits for the DOCX package to be read.
    pub fn awaits_docx(&self) -> (yes: bool)
        ensures
            yes == (self@ is AwaitingDocx),
    {
        match self {
            Extraction::AwaitingDocx => true,
            _ => false,
        }
    }

    /// Takes what reading the DOCX package gave and ends the extraction.
    pub fn resume_docx(self, reading: DocxReading) -> (state: Extraction)
        ensures
            state@ == resumed_docx(self@, reading.deep_view()),
    {
        match self {
            Extraction::AwaitingDocx => Extraction::Finished(extract_docx(reading)),
            other => other,
        }
    }

    /// The result of the extraction once it is over.
    pub fn into_result(self) -> (r: Option<Result<String, ExtractError>>)
        ensures
            match self@ {
                ExtractionView::Finished(done) => r matches Some(x) && outcome_view(x) == done,
                _ => r is None,
            },
    {
        match self {
            Extraction::Finished(r) => Some(r),
            _ => None,
        }
    }
}

} // verus!
