//! The output assembler: it renders a whole document, top-level node by
//! top-level node, under a file header.
//!
//! The generator does not run scripts. Where a pass reaches a script node
//! whose result it has not been given, it stops with the script to run.
//! The caller runs it, hands the result back with [`Codegen::supply`], and
//! starts the pass again: the results given so far are used in the order
//! of the script nodes, so each script is run once.

use crate::ast::{Latex, Statement};
use crate::engine::LatexEngineType;
use crate::evaluator::Evaluator;
use crate::script::{outcome_of, rendered, Halt, ScriptOutcome, ScriptResult};
use crate::semantics::{
    eval_seq, generate, header_text, lemma_eval_seq_step, lemma_eval_seq_stops, version_text,
    Eval, EvalState,
};
use vstd::prelude::*;
use vstd::string::*;

verus! {

/// What the parser hands over: the top-level nodes of one source file,
/// and whether that file is the main one of its project.
#[derive(Debug, PartialEq)]
pub struct Document {
    pub latex: Latex,
    pub is_main: bool,
}

/// The generator for one document.
pub struct Codegen {
    document: Document,
    latex_type: LatexEngineType,
    evaluator: Evaluator,
}

/// The version that the file header names.
pub fn version() -> (r: &'static str)
    ensures
        r@ == version_text(),
{
    "0.1.0"
}

impl Codegen {
    /// The document to render.
    pub closed spec fn document(&self) -> Document {
        self.document
    }

    /// The engine that the header names.
    pub closed spec fn latex_type(&self) -> LatexEngineType {
        self.latex_type
    }

    /// The script results handed back so far.
    pub closed spec fn outcomes(&self) -> Seq<ScriptOutcome> {
        self.evaluator.outcomes()
    }

    /// The state that the last pass left.
    pub closed spec fn state(&self) -> EvalState {
        self.evaluator.state()
    }

    /// A generator for `document`, with no script results yet.
    pub fn new(document: Document, latex_type: LatexEngineType) -> (r: Codegen)
        ensures
            r.document() == document,
            r.latex_type() == latex_type,
            r.outcomes() == Seq::<ScriptOutcome>::empty(),
            r.state() == EvalState::fresh(),
    {
        Codegen { document, latex_type, evaluator: Evaluator::new() }
    }

    /// Whether the document is the main file of its project.
    #[inline]
    pub fn is_main_vesti(&self) -> (b: bool)
        ensures
            b == self.document().is_main,
    {
        self.document.is_main
    }

    /// Takes in what the interpreter made of the script that the last pass
    /// stopped for.
    pub fn supply(&mut self, result: ScriptResult)
        ensures
            final(self).document() == old(self).document(),
            final(self).latex_type() == old(self).latex_type(),
            final(self).state() == old(self).state(),
            final(self).outcomes() == old(self).outcomes().push(outcome_of(result)),
    {
        self.evaluator.supply(result);
    }

    /// Runs a pass over the document, from a fresh state and with the
    /// script results given so far. With `IS_TEST` the text is the bare
    /// rendering; without it the file header comes first.
    pub fn make_latex_format<const IS_TEST: bool>(&mut self) -> (r: Result<String, Halt>)
        ensures
            final(self).document() == old(self).document(),
            final(self).latex_type() == old(self).latex_type(),
            final(self).outcomes() == old(self).outcomes(),
            final(self).state() == generate(
                old(self).document().latex@,
                old(self).latex_type(),
                !IS_TEST,
                old(self).outcomes(),
            ).state,
            rendered(r) == generate(
                old(self).document().latex@,
                old(self).latex_type(),
                !IS_TEST,
                old(self).outcomes(),
            ).out,
    {
        self.evaluator.restart();
        let mut output = String::new();

        if !IS_TEST {
            output.append("%\n%  This file was generated by vesti ");
            output.append(version());
            output.append("\n");
            output.append("%  Compile this file using ");
            output.append(self.latex_type.name());
            output.append(" engine\n%\n");
            assert(output@ =~= header_text(self.latex_type));
        }
        let ghost header = output@;
        let ghost latex = self.document.latex@;
        let ghost outcomes = self.evaluator.outcomes();
        let ghost mut body = Seq::<char>::empty();

        let mut i: usize = 0;
        while i < self.document.latex.len()
            invariant
                i <= self.document.latex.len(),
                self.document == old(self).document,
                self.latex_type == old(self).latex_type,
                latex == self.document.latex@,
                outcomes == old(self).outcomes(),
                self.evaluator.outcomes() == outcomes,
                header == if IS_TEST {
                    Seq::<char>::empty()
                } else {
                    header_text(self.latex_type)
                },
                output@ == header + body,
                eval_seq(latex.take(i as int), EvalState::fresh(), outcomes) == Eval::done(
                    self.evaluator.state(),
                    body,
                ),
            decreases self.document.latex.len() - i,
        {
            proof {
                lemma_eval_seq_step(latex, i as int, EvalState::fresh(), outcomes);
            }
            let is_nop = match &self.document.latex[i] {
                Statement::NopStmt => true,
                _ => false,
            };
            if !is_nop {
                match self.evaluator.eval_vesti(&self.document.latex[i]) {
                    Ok(text) => {
                        output.append(text.as_str());
                        proof {
                            assert(output@ =~= header + (body + text@));
                            body = body + text@;
                        }
                    },
                    Err(halt) => {
                        proof {
                            lemma_eval_seq_stops(latex, i + 1, EvalState::fresh(), outcomes);
                        }
                        return Err(halt);
                    },
                }
            } else {
                proof {
                    assert(body + Seq::<char>::empty() =~= body);
                }
            }
            i += 1;
        }
        proof {
            assert(latex.take(i as int) =~= latex);
            assert(Seq::<char>::empty() + body =~= body);
        }
        Ok(output)
    }
}

} // verus!
