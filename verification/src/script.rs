//! What passes between the generator and the script interpreter. The
//! generator runs no script itself: it hands out a [`ScriptCall`] and is
//! handed back a [`ScriptResult`].

use crate::error::{VestiErr, VestiErrView};
use crate::location::Span;
use vstd::prelude::*;

verus! {

/// A script to run: the assembled source, and the place of the node it
/// belongs to.
#[derive(Debug, PartialEq, Eq)]
pub struct ScriptCall {
    pub source: String,
    pub span: Span,
}

/// The mathematical value of a [`ScriptCall`].
pub struct ScriptCallView {
    pub source: Seq<char>,
    pub span: Span,
}

impl View for ScriptCall {
    type V = ScriptCallView;

    open spec fn view(&self) -> ScriptCallView {
        ScriptCallView { source: self.source@, span: self.span }
    }
}

/// What the interpreter made of a script: the text it produced, or its
/// failure.
pub type ScriptResult = Result<String, VestiErr>;

/// The mathematical value of a [`ScriptResult`].
pub type ScriptOutcome = Result<Seq<char>, VestiErrView>;

/// The mathematical value of one script result.
pub open spec fn outcome_of(result: ScriptResult) -> ScriptOutcome {
    match result {
        Ok(text) => Ok(text@),
        Err(err) => Err(err@),
    }
}

/// The mathematical value of a list of script results.
pub open spec fn outcomes_of(results: Seq<ScriptResult>) -> Seq<ScriptOutcome> {
    results.map_values(|result: ScriptResult| outcome_of(result))
}

/// Why rendering stopped before the text was complete.
#[derive(Debug, PartialEq, Eq)]
pub enum Halt {
    /// An error; the pass is over.
    Failed(VestiErr),
    /// A script has to be run before rendering can go past its node.
    RunScript(ScriptCall),
}

/// The mathematical value of a [`Halt`].
pub enum HaltView {
    Failed(VestiErrView),
    RunScript(ScriptCallView),
}

impl View for Halt {
    type V = HaltView;

    open spec fn view(&self) -> HaltView {
        match *self {
            Halt::Failed(err) => HaltView::Failed(err@),
            Halt::RunScript(call) => HaltView::RunScript(call@),
        }
    }
}

/// The mathematical value of what a rendering function returns.
pub open spec fn rendered(result: Result<String, Halt>) -> Result<Seq<char>, HaltView> {
    match result {
        Ok(text) => Ok(text@),
        Err(halt) => Err(halt@),
    }
}

} // verus!
