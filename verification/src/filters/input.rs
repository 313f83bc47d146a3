//! The `in` attribute of a filter primitive.

use vstd::prelude::*;
use crate::error::AttributeError;

verus! {

/// Where a primitive takes its pixels from.
#[derive(Clone, Debug, PartialEq, Eq)]
pub enum Input {
    /// The element as it was drawn before any filter.
    SourceGraphic,
    /// The result that an earlier primitive of the chain gave this name.
    FilterOutput(String),
}

/// `Input` with the name as a sequence of characters.
pub enum InputView {
    SourceGraphic,
    FilterOutput(Seq<char>),
}

impl View for Input {
    type V = InputView;

    open spec fn view(&self) -> InputView {
        match self {
            Input::SourceGraphic => InputView::SourceGraphic,
            Input::FilterOutput(name) => InputView::FilterOutput(name@),
        }
    }
}

impl Input {
    /// What the text of an `in` attribute means. The empty text is no
    /// reference; `SourceGraphic` is the keyword; any other text is the
    /// name of a result.
    pub open spec fn spec_parse(s: Seq<char>) -> Result<InputView, AttributeError> {
        if s.len() == 0 {
            Err(AttributeError::Parse)
        } else if s == "SourceGraphic"@ {
            Ok(InputView::SourceGraphic)
        } else {
            Ok(InputView::FilterOutput(s))
        }
    }

    /// Reads the text of an `in` attribute.
    pub fn parse(s: &str) -> (r: Result<Input, AttributeError>)
        ensures
            match r {
                Ok(input) => Input::spec_parse(s@) == Ok::<InputView, AttributeError>(input@),
                Err(e) => Input::spec_parse(s@) == Err::<InputView, AttributeError>(e),
            },
    {
        if s.is_empty() {
            return Err(AttributeError::Parse);
        }
        let name = s.to_owned();
        let keyword = "SourceGraphic".to_owned();
        if name == keyword {
            Ok(Input::SourceGraphic)
        } else {
            Ok(Input::FilterOutput(name))
        }
    }
}

} // verus!
