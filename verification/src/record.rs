use crate::error::{message_of, outcome_view, ExtractError, ExtractErrorView};
use vstd::prelude::*;

verus! {

/// The record that reports an extraction: the text, or the message of the
/// error that ended it.
#[derive(Debug, PartialEq, Eq)]
pub enum ExtractionResult {
    Text { text: String },
    Error { error: String },
}

/// Mathematical value of an [`ExtractionResult`].
pub enum ExtractionResultView {
    Text { text: Seq<char> },
    Error { error: Seq<char> },
}

impl View for ExtractionResult {
    type V = ExtractionResultView;

    open spec fn view(&self) -> ExtractionResultView {
        match self {
            ExtractionResult::Text { text } => ExtractionResultView::Text { text: text@ },
            ExtractionResult::Error { error } => ExtractionResultView::Error { error: error@ },
        }
    }
}

/// The record of an outcome.
pub open spec fn record_of(outcome: Result<Seq<char>, ExtractErrorView>) -> ExtractionResultView {
    match outcome {
        Ok(text) => ExtractionResultView::Text { text },
        Err(e) => ExtractionResultView::Error { error: message_of(e) },
    }
}

/// Wraps the outcome of an extraction into its record.
pub fn encode(outcome: Result<String, ExtractError>) -> (record: ExtractionResult)
    ensures
        record@ == record_of(outcome_view(outcome)),
{
    match outcome {
        Ok(text) => ExtractionResult::Text { text },
        Err(e) => ExtractionResult::Error { error: e.message() },
    }
}

} // verus!
