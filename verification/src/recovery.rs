//! The steps of a recovery: trying the wrapped function, reporting a failure,
//! taking a correction.

use crate::render::{debug_text, json_error_text, render_json_error};
use crate::report::{report, report_text};
use std::fmt::Debug;
use vstd::prelude::*;

verus! {

/// The most recent attempt that failed: what was tried and why it failed,
/// both as the text that the next report will show.
#[derive(Debug, Clone, PartialEq, Eq)]
pub struct Failure {
    pub input: String,
    pub error: String,
}

/// A failure by the texts it holds.
pub struct FailureView {
    pub input: Seq<char>,
    pub error: Seq<char>,
}

impl View for Failure {
    type V = FailureView;

    open spec fn view(&self) -> FailureView {
        FailureView { input: self.input@, error: self.error@ }
    }
}

impl FailureView {
    /// The text that reports this failure and asks for a correction.
    pub open spec fn report(self) -> Seq<char> {
        report_text(self.input, self.error)
    }
}

/// Where a call stands after an attempt.
#[derive(Debug, PartialEq, Eq)]
pub enum Step<O> {
    /// A value was produced: the call returns it.
    Done(O),
    /// The attempt failed: report it, read a correction, try that.
    Recovering(Failure),
}

/// A step by the value or the texts it holds.
pub enum StepView<O> {
    Done(O),
    Recovering(FailureView),
}

impl<O> View for Step<O> {
    type V = StepView<O>;

    open spec fn view(&self) -> StepView<O> {
        match *self {
            Step::Done(value) => StepView::Done(value),
            Step::Recovering(failure) => StepView::Recovering(failure@),
        }
    }
}

/// One attempt as the recovery sees it: the text that stands for what was
/// tried, and the value it gave or the text of its error.
pub struct Attempt<O> {
    pub input: Seq<char>,
    pub outcome: Result<O, Seq<char>>,
}

impl<O> Attempt<O> {
    /// A value ends the call. An error becomes the failure to report, with
    /// the input of this very attempt.
    pub open spec fn step(self) -> StepView<O> {
        match self.outcome {
            Ok(value) => StepView::Done(value),
            Err(error) => StepView::Recovering(FailureView { input: self.input, error }),
        }
    }
}

/// The outcome of a deserialization whose error is already text.
pub open spec fn rendered<O>(parsed: Result<O, String>) -> Result<O, Seq<char>> {
    match parsed {
        Ok(value) => Ok(value),
        Err(error) => Err(error@),
    }
}

/// The outcome of a JSON deserialization, its error by its rendering.
pub open spec fn json_rendered<O>(parsed: Result<O, serde_json::Error>) -> Result<
    O,
    Seq<char>,
> {
    match parsed {
        Ok(value) => Ok(value),
        Err(error) => Err(json_error_text(error)),
    }
}

impl Failure {
    /// The text to write, and to flush, before the next correction is read.
    pub fn report(&self) -> (text: String)
        ensures
            text@ == self@.report(),
    {
        report(self.input.as_str(), self.error.as_str())
    }

    /// Takes the correction `text` and what deserializing it gave, the error
    /// as text. A value ends the recovery. An error replaces this failure:
    /// the next report shows `text` and that error.
    pub fn resume<O>(self, text: String, parsed: Result<O, String>) -> (step: Step<O>)
        ensures
            step@ == (Attempt { input: text@, outcome: rendered(parsed) }).step(),
    {
        match parsed {
            Ok(value) => Step::Done(value),
            Err(error) => Step::Recovering(Failure { input: text, error }),
        }
    }

    /// Takes the correction `text` and what `serde_json` made of it. A value
    /// ends the recovery. An error replaces this failure: the next report
    /// shows `text` and the rendering of that error.
    pub fn correct<O>(self, text: String, parsed: Result<O, serde_json::Error>) -> (step: Step<O>)
        ensures
            step@ == (Attempt { input: text@, outcome: json_rendered(parsed) }).step(),
    {
        match parsed {
            Ok(value) => Step::Done(value),
            Err(error) => {
                let error = render_json_error(&error);
                Step::Recovering(Failure { input: text, error })
            },
        }
    }
}

/// Tries `f` on a clone of `input`. A value is passed through. An error opens
/// a recovery with the `Debug` renderings of `input` and of the error.
pub fn attempt<I, O, E, F>(f: &F, input: I) -> (step: Step<O>) where
    F: Fn(I) -> Result<O, E>,
    I: Debug + Clone,
    E: Debug,

    requires
        forall|arg: I| cloned(input, arg) ==> f.requires((arg,)),
    ensures
        step matches Step::Done(value) ==> exists|arg: I|
            cloned(input, arg) && f.ensures((arg,), Ok::<O, E>(value)),
        step is Recovering ==> exists|arg: I, error: E|
            cloned(input, arg) && f.ensures((arg,), Err::<O, E>(error)),
{
    let arg = input.clone();
    let ghost tried = arg;
    assert(cloned(input, tried));
    match f(arg) {
        Ok(value) => Step::Done(value),
        Err(error) => {
            assert(f.ensures((tried,), Err::<O, E>(error)));
            let error_text = debug_text(&error);
            let input_text = debug_text(&input);
            Step::Recovering(Failure { input: input_text, error: error_text })
        },
    }
}

} // verus!
