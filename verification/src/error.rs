//! The errors that generation can end in.

use crate::location::Span;
use vstd::prelude::*;
use vstd::string::*;

verus! {

/// What went wrong.
#[derive(Debug, PartialEq, Eq)]
pub enum VestiErrKind {
    /// A script imports a label that no earlier script has exported.
    LabelNotFound { label: String },
    /// The interpreter could not run a script; `msg` is its report.
    PythonEvalErr { msg: String },
    /// A definition carries a trim policy that its kind of definition
    /// cannot have: a macro with a middle switch, or an environment
    /// without one.
    IllegalTrimPolicy,
}

/// An error with the place in the source that it belongs to. The place is
/// `None` where the node at fault carries none.
#[derive(Debug, PartialEq, Eq)]
pub struct VestiErr {
    pub err_kind: VestiErrKind,
    pub location: Option<Span>,
}

/// The mathematical value of a [`VestiErrKind`].
pub enum VestiErrKindView {
    LabelNotFound { label: Seq<char> },
    PythonEvalErr { msg: Seq<char> },
    IllegalTrimPolicy,
}

/// The mathematical value of a [`VestiErr`].
pub struct VestiErrView {
    pub err_kind: VestiErrKindView,
    pub location: Option<Span>,
}

impl View for VestiErrKind {
    type V = VestiErrKindView;

    open spec fn view(&self) -> VestiErrKindView {
        match *self {
            VestiErrKind::LabelNotFound { label } => VestiErrKindView::LabelNotFound {
                label: label@,
            },
            VestiErrKind::PythonEvalErr { msg } => VestiErrKindView::PythonEvalErr { msg: msg@ },
            VestiErrKind::IllegalTrimPolicy => VestiErrKindView::IllegalTrimPolicy,
        }
    }
}

impl View for VestiErr {
    type V = VestiErrView;

    open spec fn view(&self) -> VestiErrView {
        VestiErrView { err_kind: self.err_kind@, location: self.location }
    }
}

impl VestiErrKindView {
    /// The sentence that states the error.
    pub open spec fn message(self) -> Seq<char> {
        match self {
            VestiErrKindView::LabelNotFound { label } => "the label <"@ + label
                + "> cannot be found. Notice that the label should be forward declared"@,
            VestiErrKindView::PythonEvalErr { msg } => msg,
            VestiErrKindView::IllegalTrimPolicy =>
                "the trim policy does not fit the kind of definition"@,
        }
    }
}

impl VestiErrView {
    /// The error for an import of `label`, which nothing has exported, by
    /// the script at `span`.
    pub open spec fn label_not_found(label: Seq<char>, span: Span) -> VestiErrView {
        VestiErrView {
            err_kind: VestiErrKindView::LabelNotFound { label },
            location: Some(span),
        }
    }

    /// The error for a definition whose trim policy does not fit it.
    pub open spec fn illegal_trim_policy() -> VestiErrView {
        VestiErrView { err_kind: VestiErrKindView::IllegalTrimPolicy, location: None }
    }
}

impl Clone for VestiErrKind {
    fn clone(&self) -> (r: Self)
        ensures
            r@ == self@,
    {
        match self {
            VestiErrKind::LabelNotFound { label } => VestiErrKind::LabelNotFound {
                label: label.clone(),
            },
            VestiErrKind::PythonEvalErr { msg } => VestiErrKind::PythonEvalErr {
                msg: msg.clone(),
            },
            VestiErrKind::IllegalTrimPolicy => VestiErrKind::IllegalTrimPolicy,
        }
    }
}

impl Clone for VestiErr {
    fn clone(&self) -> (r: Self)
        ensures
            r@ == self@,
    {
        VestiErr { err_kind: self.err_kind.clone(), location: self.location }
    }
}

impl VestiErr {
    /// The error for an import of `label`, which nothing has exported, by
    /// the script at `span`.
    pub fn label_not_found(label: &str, span: Span) -> (r: VestiErr)
        ensures
            r@ == VestiErrView::label_not_found(label@, span),
    {
        VestiErr {
            err_kind: VestiErrKind::LabelNotFound { label: String::from_str(label) },
            location: Some(span),
        }
    }

    /// The error for a definition whose trim policy does not fit it.
    pub fn illegal_trim_policy() -> (r: VestiErr)
        ensures
            r@ == VestiErrView::illegal_trim_policy(),
    {
        VestiErr { err_kind: VestiErrKind::IllegalTrimPolicy, location: None }
    }

    /// The sentence that states the error.
    pub fn message(&self) -> (r: String)
        ensures
            r@ == self@.err_kind.message(),
    {
        match &self.err_kind {
            VestiErrKind::LabelNotFound { label } => {
                let mut msg = String::from_str("the label <");
                msg.append(label.as_str());
                msg.append("> cannot be found. Notice that the label should be forward declared");
                msg
            },
            VestiErrKind::PythonEvalErr { msg } => msg.clone(),
            VestiErrKind::IllegalTrimPolicy => String::from_str(
                "the trim policy does not fit the kind of definition",
            ),
        }
    }
}

} // verus!
