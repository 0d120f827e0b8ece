//! What a worker answers.

use vstd::prelude::*;
use crate::types::PythonReturnColor;

verus! {

/// Data sent between the threads to receive information.
#[derive(Debug, PartialEq, Eq)]
pub enum Responses {
    /// The arrangement was built and the worker is listening.
    InitOk,
    /// The arrangement could not be built, for the reason given; the worker
    /// has ended.
    InitFailed(String),
    /// The operation was carried out and has nothing to return.
    Acknowledged,
    /// The answer to a search: a colour, or no light in reach.
    OptionColorResponse(Option<PythonReturnColor>),
    /// The answer to a lookup.
    ColorResponse(PythonReturnColor),
    /// The operation was refused, for the reason given, and changed nothing.
    Error(String),
}

/// A response with its texts as sequences of characters.
pub enum ResponsesView {
    InitOk,
    InitFailed(Seq<char>),
    Acknowledged,
    OptionColorResponse(Option<PythonReturnColor>),
    ColorResponse(PythonReturnColor),
    Error(Seq<char>),
}

impl View for Responses {
    type V = ResponsesView;

    open spec fn view(&self) -> ResponsesView {
        match self {
            Responses::InitOk => ResponsesView::InitOk,
            Responses::InitFailed(reason) => ResponsesView::InitFailed(reason@),
            Responses::Acknowledged => ResponsesView::Acknowledged,
            Responses::OptionColorResponse(color) => ResponsesView::OptionColorResponse(*color),
            Responses::ColorResponse(color) => ResponsesView::ColorResponse(*color),
            Responses::Error(reason) => ResponsesView::Error(reason@),
        }
    }
}

} // verus!
