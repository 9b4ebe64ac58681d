//! The statement evaluator: it walks a tree and writes out the text that
//! the tree stands for. It owns the fragment registry for the length of a
//! pass, and the script results that the caller has handed back.

use crate::ast::{
    ArgNeed, DelimiterKind, FunctionDefKind, Latex, MathState, Statement, TrimWhitespace,
};
use crate::error::VestiErr;
use crate::location::Span;
use crate::registry::Registry;
use crate::script::{
    outcome_of, outcomes_of, rendered, Halt, ScriptCall, ScriptOutcome, ScriptResult,
};
use crate::semantics::{
    argument_text, begin_text, definition_prefix, delimiter_text, eval_args, eval_directive,
    eval_options, eval_packages, eval_script, eval_seq, eval_stmt, import_list,
    imported_sources, lemma_eval_args_step, lemma_eval_args_stops, lemma_eval_options_step,
    lemma_eval_options_stops, lemma_eval_packages_step, lemma_eval_packages_stops,
    lemma_eval_seq_step, lemma_eval_seq_stops, lemma_imported_sources_step,
    lemma_imported_sources_stops, math_text, plain_text_in_math, Eval, EvalState,
};
use crate::text::{integer_to_string, trim_by};
use vstd::prelude::*;
use vstd::string::*;

verus! {

/// The evaluator's state.
pub struct Evaluator {
    registry: Registry,
    results: Vec<ScriptResult>,
    consumed: usize,
}

impl Evaluator {
    /// The registry, and how many script results have been used.
    pub closed spec fn state(&self) -> EvalState {
        EvalState { registry: self.registry@, consumed: self.consumed as nat }
    }

    /// The script results handed back so far, in the order of the script
    /// nodes that they belong to.
    pub closed spec fn outcomes(&self) -> Seq<ScriptOutcome> {
        outcomes_of(self.results@)
    }

    /// An evaluator with an empty registry and no script results.
    pub fn new() -> (r: Evaluator)
        ensures
            r.state() == EvalState::fresh(),
            r.outcomes() == Seq::<ScriptOutcome>::empty(),
    {
        let r = Evaluator { registry: Registry::new(), results: Vec::new(), consumed: 0 };
        assert(r.outcomes() =~= Seq::<ScriptOutcome>::empty());
        r
    }

    /// Takes in what the interpreter made of the script that rendering
    /// last stopped for.
    pub fn supply(&mut self, result: ScriptResult)
        ensures
            final(self).state() == old(self).state(),
            final(self).outcomes() == old(self).outcomes().push(outcome_of(result)),
    {
        self.results.push(result);
        assert(self.outcomes() =~= old(self).outcomes().push(outcome_of(result)));
    }

    /// Goes back to the start of a pass: the registry is emptied and the
    /// script results count as unused. The results themselves stay.
    pub fn restart(&mut self)
        ensures
            final(self).state() == EvalState::fresh(),
            final(self).outcomes() == old(self).outcomes(),
    {
        self.registry.clear();
        self.consumed = 0;
    }

    /// Renders one node.
    pub fn eval_vesti(&mut self, stmt: &Statement) -> (r: Result<String, Halt>)
        ensures
            final(self).outcomes() == old(self).outcomes(),
            final(self).state() == eval_stmt(*stmt, old(self).state(), old(self).outcomes()).state,
            rendered(r) == eval_stmt(*stmt, old(self).state(), old(self).outcomes()).out,
        decreases stmt, 1nat,
    {
        match stmt {
            Statement::NopStmt => Ok(String::new()),
            Statement::NonStopMode => Ok(String::from_str("\\nonstopmode\n")),
            Statement::ImportExpl3Pkg => Ok(String::from_str("\\usepackage{expl3, xparse}\n")),
            Statement::MakeAtLetter => Ok(String::from_str("\\makeatletter\n")),
            Statement::MakeAtOther => Ok(String::from_str("\\makeatother\n")),
            Statement::Latex3On => Ok(String::from_str("\\ExplSyntaxOn\n")),
            Statement::Latex3Off => Ok(String::from_str("\\ExplSyntaxOff\n")),
            Statement::DocumentClass { name, options } => self.docclass_to_string(name, options),
            Statement::Usepackage { name, options } => self.usepackage_to_string(name, options),
            Statement::MultiUsepackages { pkgs } => self.multiusepacakge_to_string(pkgs),
            Statement::ImportVesti { filename } => {
                let mut output = String::from_str("\\input{");
                output.append(filename.as_str());
                output.append("}");
                Ok(output)
            },
            Statement::FilePath { filename } => Ok(filename.clone()),
            Statement::DocumentStart => Ok(String::from_str("\\begin{document}\n")),
            Statement::DocumentEnd => Ok(String::from_str("\n\\end{document}\n")),
            Statement::MainText(s) => Ok(s.clone()),
            Statement::BracedStmt(latex) => {
                let inner = self.latex_to_string(latex)?;
                let mut output = String::from_str("{");
                output.append(inner.as_str());
                output.append("}");
                Ok(output)
            },
            Statement::MathDelimiter { delimiter, kind } => Ok(
                Self::math_delimiter_to_string(delimiter, kind),
            ),
            Statement::Fraction { numerator, denominator } => self.fraction_to_string(
                numerator,
                denominator,
                Ghost(*stmt),
            ),
            Statement::PlainTextInMath {
                remove_front_space,
                remove_back_space,
                text,
            } => self.plaintext_in_math_to_string(*remove_front_space, *remove_back_space, text),
            Statement::Integer(i) => Ok(integer_to_string(*i)),
            Statement::Float(f) => Ok(f.clone()),
            Statement::RawLatex(s) => Ok(s.clone()),
            Statement::MathText { state, text } => self.math_text_to_string(*state, text),
            Statement::LatexFunction { name, args } => self.latex_function_to_string(name, args),
            Statement::Environment { name, args, text } => self.environment_to_string(
                name,
                args,
                text,
                Ghost(*stmt),
            ),
            Statement::BeginPhantomEnvironment {
                name,
                args,
                add_newline,
            } => self.begin_phantom_environment_to_string(name, args, *add_newline),
            Statement::EndPhantomEnvironment { name } => {
                let mut output = String::from_str("\\end{");
                output.append(name.as_str());
                output.append("}");
                Ok(output)
            },
            Statement::FunctionDefine {
                kind,
                name,
                args,
                trim,
                body,
            } => self.function_def_to_string(kind, name, args, trim, body, Ghost(*stmt)),
            Statement::EnvironmentDefine {
                is_redefine,
                name,
                args_num,
                optional_arg,
                trim,
                begin_part,
                end_part,
            } => self.environment_def_to_string(
                *is_redefine,
                name,
                *args_num,
                optional_arg,
                trim,
                begin_part,
                end_part,
                Ghost(*stmt),
            ),
            Statement::PythonCode {
                pycode_span,
                pycode_import,
                pycode_export,
                code,
            } => self.run_pycode(*pycode_span, pycode_import, pycode_export, code.as_str()),
        }
    }

    /// Renders a list of nodes, one after the other.
    pub fn latex_to_string(&mut self, latex: &Latex) -> (r: Result<String, Halt>)
        ensures
            final(self).outcomes() == old(self).outcomes(),
            final(self).state() == eval_seq(latex@, old(self).state(), old(self).outcomes()).state,
            rendered(r) == eval_seq(latex@, old(self).state(), old(self).outcomes()).out,
        decreases latex, 0nat,
    {
        let ghost start = self.state();
        let ghost outcomes = self.outcomes();
        let mut output = String::new();
        let mut i: usize = 0;
        while i < latex.len()
            invariant
                i <= latex.len(),
                start == old(self).state(),
                outcomes == old(self).outcomes(),
                self.outcomes() == outcomes,
                eval_seq(latex@.take(i as int), start, outcomes) == Eval::done(
                    self.state(),
                    output@,
                ),
            decreases latex.len() - i,
        {
            proof {
                lemma_eval_seq_step(latex@, i as int, start, outcomes);
            }
            match self.eval_vesti(&latex[i]) {
                Ok(text) => {
                    output.append(text.as_str());
                },
                Err(halt) => {
                    proof {
                        lemma_eval_seq_stops(latex@, i + 1, start, outcomes);
                    }
                    return Err(halt);
                },
            }
            i += 1;
        }
        proof {
            assert(latex@.take(i as int) =~= latex@);
        }
        Ok(output)
    }

    /// Renders a list of options, with commas between them.
    fn options_to_string(&mut self, options: &Vec<Latex>) -> (r: Result<String, Halt>)
        ensures
            final(self).outcomes() == old(self).outcomes(),
            final(self).state() == eval_options(
                options@,
                old(self).state(),
                old(self).outcomes(),
            ).state,
            rendered(r) == eval_options(options@, old(self).state(), old(self).outcomes()).out,
        decreases options, 0nat,
    {
        let ghost start = self.state();
        let ghost outcomes = self.outcomes();
        let mut output = String::new();
        let mut i: usize = 0;
        while i < options.len()
            invariant
                i <= options.len(),
                start == old(self).state(),
                outcomes == old(self).outcomes(),
                self.outcomes() == outcomes,
                eval_options(options@.take(i as int), start, outcomes) == Eval::done(
                    self.state(),
                    output@,
                ),
            decreases options.len() - i,
        {
            proof {
                lemma_eval_options_step(options@, i as int, start, outcomes);
            }
            match self.latex_to_string(&options[i]) {
                Ok(text) => {
                    if i > 0 {
                        output.append(",");
                    }
                    output.append(text.as_str());
                },
                Err(halt) => {
                    proof {
                        lemma_eval_options_stops(options@, i + 1, start, outcomes);
                    }
                    return Err(halt);
                },
            }
            i += 1;
        }
        proof {
            assert(options@.take(i as int) =~= options@);
        }
        Ok(output)
    }

    /// Renders a document class with its options.
    fn docclass_to_string(&mut self, name: &String, options: &Option<Vec<Latex>>) -> (r: Result<
        String,
        Halt,
    >)
        ensures
            final(self).outcomes() == old(self).outcomes(),
            final(self).state() == eval_directive(
                "\\documentclass"@,
                name@,
                *options,
                old(self).state(),
                old(self).outcomes(),
            ).state,
            rendered(r) == eval_directive(
                "\\documentclass"@,
                name@,
                *options,
                old(self).state(),
                old(self).outcomes(),
            ).out,
        decreases options, 1nat,
    {
        let mut output = String::from_str("\\documentclass");
        match options {
            Some(opts) => {
                let options_str = self.options_to_string(opts)?;
                output.append("[");
                output.append(options_str.as_str());
                output.append("]{");
            },
            None => {
                output.append("{");
            },
        }
        output.append(name.as_str());
        output.append("}\n");
        Ok(output)
    }

    /// Renders one package with its options.
    fn usepackage_to_string(&mut self, name: &String, options: &Option<Vec<Latex>>) -> (r: Result<
        String,
        Halt,
    >)
        ensures
            final(self).outcomes() == old(self).outcomes(),
            final(self).state() == eval_directive(
                "\\usepackage"@,
                name@,
                *options,
                old(self).state(),
                old(self).outcomes(),
            ).state,
            rendered(r) == eval_directive(
                "\\usepackage"@,
                name@,
                *options,
                old(self).state(),
                old(self).outcomes(),
            ).out,
        decreases options, 1nat,
    {
        let mut output = String::from_str("\\usepackage");
        match options {
            Some(opts) => {
                let options_str = self.options_to_string(opts)?;
                output.append("[");
                output.append(options_str.as_str());
                output.append("]{");
            },
            None => {
                output.append("{");
            },
        }
        output.append(name.as_str());
        output.append("}\n");
        Ok(output)
    }

    /// Renders a batch of packages; entries that are no packages are passed
    /// over.
    fn multiusepacakge_to_string(&mut self, pkgs: &Vec<Statement>) -> (r: Result<String, Halt>)
        ensures
            final(self).outcomes() == old(self).outcomes(),
            final(self).state() == eval_packages(
                pkgs@,
                old(self).state(),
                old(self).outcomes(),
            ).state,
            rendered(r) == eval_packages(pkgs@, old(self).state(), old(self).outcomes()).out,
        decreases pkgs, 0nat,
    {
        let ghost start = self.state();
        let ghost outcomes = self.outcomes();
        let mut output = String::new();
        let mut i: usize = 0;
        while i < pkgs.len()
            invariant
                i <= pkgs.len(),
                start == old(self).state(),
                outcomes == old(self).outcomes(),
                self.outcomes() == outcomes,
                eval_packages(pkgs@.take(i as int), start, outcomes) == Eval::done(
                    self.state(),
                    output@,
                ),
            decreases pkgs.len() - i,
        {
            proof {
                lemma_eval_packages_step(pkgs@, i as int, start, outcomes);
            }
            if let Statement::Usepackage { name, options } = &pkgs[i] {
                match self.usepackage_to_string(name, options) {
                    Ok(text) => {
                        output.append(text.as_str());
                    },
                    Err(halt) => {
                        proof {
                            lemma_eval_packages_stops(pkgs@, i + 1, start, outcomes);
                        }
                        return Err(halt);
                    },
                }
            }
            i += 1;
        }
        proof {
            assert(pkgs@.take(i as int) =~= pkgs@);
        }
        Ok(output)
    }

    /// Renders math between the delimiters of its mode.
    fn math_text_to_string(&mut self, state: MathState, text: &Vec<Statement>) -> (r: Result<
        String,
        Halt,
    >)
        ensures
            final(self).outcomes() == old(self).outcomes(),
            final(self).state() == eval_seq(text@, old(self).state(), old(self).outcomes()).state,
            rendered(r) == eval_seq(text@, old(self).state(), old(self).outcomes()).map(
                |body: Seq<char>| math_text(state, body),
            ).out,
        decreases text, 1nat,
    {
        let body = self.latex_to_string(text)?;
        let mut output = String::new();
        match state {
            MathState::Text => {
                output.append("$");
                output.append(body.as_str());
                output.append("$");
            },
            MathState::Inline => {
                output.append("\\[");
                output.append(body.as_str());
                output.append("\\]");
            },
        }
        assert(output@ =~= math_text(state, body@));
        Ok(output)
    }

    /// Renders a delimiter inside math.
    fn math_delimiter_to_string(delimiter: &String, kind: &DelimiterKind) -> (r: String)
        ensures
            r@ == delimiter_text(delimiter@, *kind),
    {
        match kind {
            DelimiterKind::Default => delimiter.clone(),
            DelimiterKind::LeftBig => {
                let mut output = String::from_str("\\left");
                output.append(delimiter.as_str());
                output
            },
            DelimiterKind::RightBig => {
                let mut output = String::from_str("\\right");
                output.append(delimiter.as_str());
                output
            },
        }
    }

    /// Renders the fraction `node`, whose operands the parameters are.
    fn fraction_to_string(
        &mut self,
        numerator: &Latex,
        denominator: &Latex,
        Ghost(node): Ghost<Statement>,
    ) -> (r: Result<String, Halt>)
        requires
            node == (Statement::Fraction { numerator: *numerator, denominator: *denominator }),
        ensures
            final(self).outcomes() == old(self).outcomes(),
            final(self).state() == eval_stmt(node, old(self).state(), old(self).outcomes()).state,
            rendered(r) == eval_stmt(node, old(self).state(), old(self).outcomes()).out,
        decreases node, 0nat,
    {
        let first = self.latex_to_string(numerator)?;
        let second = self.latex_to_string(denominator)?;
        let mut output = String::from_str("\\frac{");
        output.append(first.as_str());
        output.append("}{");
        output.append(second.as_str());
        output.append("}");
        Ok(output)
    }

    /// Renders text inside math.
    fn plaintext_in_math_to_string(
        &mut self,
        remove_front_space: bool,
        remove_back_space: bool,
        text: &Latex,
    ) -> (r: Result<String, Halt>)
        ensures
            final(self).outcomes() == old(self).outcomes(),
            final(self).state() == eval_seq(text@, old(self).state(), old(self).outcomes()).state,
            rendered(r) == eval_seq(text@, old(self).state(), old(self).outcomes()).map(
                |body: Seq<char>| plain_text_in_math(remove_front_space, remove_back_space, body),
            ).out,
        decreases text, 1nat,
    {
        let body = self.latex_to_string(text)?;
        let mut output = if remove_front_space {
            String::from_str("\\text{ ")
        } else {
            String::from_str("\\text{")
        };
        output.append(body.as_str());
        if remove_back_space {
            output.append(" }");
        } else {
            output.append("}");
        }
        Ok(output)
    }

    /// Renders a list of arguments.
    fn args_to_string(&mut self, args: &Vec<(ArgNeed, Vec<Statement>)>) -> (r: Result<
        String,
        Halt,
    >)
        ensures
            final(self).outcomes() == old(self).outcomes(),
            final(self).state() == eval_args(args@, old(self).state(), old(self).outcomes()).state,
            rendered(r) == eval_args(args@, old(self).state(), old(self).outcomes()).out,
        decreases args, 0nat,
    {
        let ghost start = self.state();
        let ghost outcomes = self.outcomes();
        let mut output = String::new();
        let mut i: usize = 0;
        while i < args.len()
            invariant
                i <= args.len(),
                start == old(self).state(),
                outcomes == old(self).outcomes(),
                self.outcomes() == outcomes,
                eval_args(args@.take(i as int), start, outcomes) == Eval::done(
                    self.state(),
                    output@,
                ),
            decreases args.len() - i,
        {
            proof {
                lemma_eval_args_step(args@, i as int, start, outcomes);
            }
            let ghost before = output@;
            let arg = &args[i];
            match self.latex_to_string(&arg.1) {
                Ok(tmp) => {
                    match arg.0 {
                        ArgNeed::MainArg => {
                            output.append("{");
                            output.append(tmp.as_str());
                            output.append("}");
                        },
                        ArgNeed::Optional => {
                            output.append("[");
                            output.append(tmp.as_str());
                            output.append("]");
                        },
                        ArgNeed::StarArg => {
                            output.append("*");
                        },
                    }
                    assert(output@ =~= before + argument_text(arg.0, tmp@));
                },
                Err(halt) => {
                    proof {
                        lemma_eval_args_stops(args@, i + 1, start, outcomes);
                    }
                    return Err(halt);
                },
            }
            i += 1;
        }
        proof {
            assert(args@.take(i as int) =~= args@);
        }
        Ok(output)
    }

    /// Renders a function call: the name, then the arguments.
    fn latex_function_to_string(
        &mut self,
        name: &String,
        args: &Vec<(ArgNeed, Vec<Statement>)>,
    ) -> (r: Result<String, Halt>)
        ensures
            final(self).outcomes() == old(self).outcomes(),
            final(self).state() == eval_args(args@, old(self).state(), old(self).outcomes()).state,
            rendered(r) == eval_args(args@, old(self).state(), old(self).outcomes()).map(
                |list: Seq<char>| name@ + list,
            ).out,
        decreases args, 1nat,
    {
        let list = self.args_to_string(args)?;
        let mut output = name.clone();
        output.append(list.as_str());
        Ok(output)
    }

    /// Renders the opening of an environment and its arguments.
    fn begin_phantom_environment_to_string(
        &mut self,
        name: &String,
        args: &Vec<(ArgNeed, Vec<Statement>)>,
        add_newline: bool,
    ) -> (r: Result<String, Halt>)
        ensures
            final(self).outcomes() == old(self).outcomes(),
            final(self).state() == eval_args(args@, old(self).state(), old(self).outcomes()).state,
            rendered(r) == eval_args(args@, old(self).state(), old(self).outcomes()).map(
                |list: Seq<char>| begin_text(name@, add_newline) + list,
            ).out,
        decreases args, 1nat,
    {
        let list = self.args_to_string(args)?;
        let mut output = String::from_str("\\begin{");
        output.append(name.as_str());
        output.append("}");
        if add_newline {
            output.append("\n");
        }
        output.append(list.as_str());
        Ok(output)
    }

    /// Renders the environment `node`, whose parts the parameters are.
    fn environment_to_string(
        &mut self,
        name: &String,
        args: &Vec<(ArgNeed, Vec<Statement>)>,
        text: &Latex,
        Ghost(node): Ghost<Statement>,
    ) -> (r: Result<String, Halt>)
        requires
            node == (Statement::Environment { name: *name, args: *args, text: *text }),
        ensures
            final(self).outcomes() == old(self).outcomes(),
            final(self).state() == eval_stmt(node, old(self).state(), old(self).outcomes()).state,
            rendered(r) == eval_stmt(node, old(self).state(), old(self).outcomes()).out,
        decreases node, 0nat,
    {
        let list = self.args_to_string(args)?;
        let body = self.latex_to_string(text)?;
        let mut output = String::from_str("\\begin{");
        output.append(name.as_str());
        output.append("}");
        output.append(list.as_str());
        output.append(body.as_str());
        output.append("\\end{");
        output.append(name.as_str());
        output.append("}\n");
        Ok(output)
    }

    /// Renders the macro definition `node`, whose parts the parameters are.
    /// A trim policy with a middle switch is rejected before anything is
    /// rendered.
    fn function_def_to_string(
        &mut self,
        kind: &FunctionDefKind,
        name: &String,
        args: &String,
        trim: &TrimWhitespace,
        body: &Latex,
        Ghost(node): Ghost<Statement>,
    ) -> (r: Result<String, Halt>)
        requires
            node == (Statement::FunctionDefine {
                kind: *kind,
                name: *name,
                args: *args,
                trim: *trim,
                body: *body,
            }),
        ensures
            final(self).outcomes() == old(self).outcomes(),
            final(self).state() == eval_stmt(node, old(self).state(), old(self).outcomes()).state,
            rendered(r) == eval_stmt(node, old(self).state(), old(self).outcomes()).out,
        decreases node, 0nat,
    {
        if trim.mid.is_some() {
            return Err(Halt::Failed(VestiErr::illegal_trim_policy()));
        }
        let mut output = String::new();

        if kind.has_property(FunctionDefKind::long()) {
            output.append("\\long");
        }
        if kind.has_property(FunctionDefKind::outer()) {
            output.append("\\outer");
        }
        if kind.has_property(FunctionDefKind::expand().union(FunctionDefKind::global())) {
            output.append("\\xdef");
        } else if kind.has_property(FunctionDefKind::global()) {
            output.append("\\gdef");
        } else if kind.has_property(FunctionDefKind::expand()) {
            output.append("\\edef");
        } else {
            output.append("\\def");
        }
        assert(output@ =~= definition_prefix(*kind));

        output.append("\\");
        output.append(name.as_str());
        output.append(args.as_str());
        output.append("{");
        if trim.start {
            output.append("%\n");
        }
        let tmp = self.latex_to_string(body)?;

        output.append(trim_by(trim.start, trim.end, tmp.as_str()));
        output.append("%\n}\n");

        Ok(output)
    }

    /// Renders the environment definition `node`, whose parts the
    /// parameters are. A trim policy without a middle switch is rejected
    /// before anything is rendered.
    fn environment_def_to_string(
        &mut self,
        is_redefine: bool,
        name: &String,
        args_num: u8,
        optional_arg: &Option<Latex>,
        trim: &TrimWhitespace,
        begin_part: &Latex,
        end_part: &Latex,
        Ghost(node): Ghost<Statement>,
    ) -> (r: Result<String, Halt>)
        requires
            node == (Statement::EnvironmentDefine {
                is_redefine,
                name: *name,
                args_num,
                optional_arg: *optional_arg,
                trim: *trim,
                begin_part: *begin_part,
                end_part: *end_part,
            }),
        ensures
            final(self).outcomes() == old(self).outcomes(),
            final(self).state() == eval_stmt(node, old(self).state(), old(self).outcomes()).state,
            rendered(r) == eval_stmt(node, old(self).state(), old(self).outcomes()).out,
        decreases node, 0nat,
    {
        let mid = match trim.mid {
            Some(mid) => mid,
            None => {
                return Err(Halt::Failed(VestiErr::illegal_trim_policy()));
            },
        };
        let mut output = if is_redefine {
            String::from_str("\\renewenvironment{")
        } else {
            String::from_str("\\newenvironment{")
        };
        output.append(name.as_str());
        output.append("}");

        if args_num > 0 {
            output.append("[");
            output.append(integer_to_string(args_num as i64).as_str());
            output.append("]");
            match optional_arg {
                Some(inner) => {
                    output.append("[");
                    let default = self.latex_to_string(inner)?;
                    output.append(default.as_str());
                    output.append("]{");
                },
                None => {
                    output.append("{");
                },
            }
        } else {
            output.append("{");
        }

        let tmp = self.latex_to_string(begin_part)?;
        output.append(trim_by(trim.start, mid, tmp.as_str()));
        output.append("}{");

        let tmp = self.latex_to_string(end_part)?;
        output.append(trim_by(mid, trim.end, tmp.as_str()));
        output.append("}\n");

        Ok(output)
    }

    /// The script bridge: puts the script together from the sources it
    /// imports and its own, keeps its own source under the label it
    /// exports, and gives the script's result, or stops with the script
    /// where the result is not there yet.
    fn run_pycode(
        &mut self,
        pycode_span: Span,
        pycode_import: &Option<Vec<String>>,
        pycode_export: &Option<String>,
        code: &str,
    ) -> (r: Result<String, Halt>)
        ensures
            final(self).outcomes() == old(self).outcomes(),
            final(self).state() == eval_script(
                pycode_span,
                *pycode_import,
                *pycode_export,
                code@,
                old(self).state(),
                old(self).outcomes(),
            ).state,
            rendered(r) == eval_script(
                pycode_span,
                *pycode_import,
                *pycode_export,
                code@,
                old(self).state(),
                old(self).outcomes(),
            ).out,
    {
        let mut pycode = String::new();

        match pycode_import {
            None => {},
            Some(labels) => {
                let mut i: usize = 0;
                while i < labels.len()
                    invariant
                        i <= labels.len(),
                        *self == *old(self),
                        import_list(*pycode_import) == labels@,
                        imported_sources(self.registry@, labels@.take(i as int)) == Ok::<
                            Seq<char>,
                            Seq<char>,
                        >(pycode@),
                    decreases labels.len() - i,
                {
                    proof {
                        lemma_imported_sources_step(self.registry@, labels@, i as int);
                    }
                    let label = labels[i].as_str();
                    match self.registry.get(label) {
                        Some(import_pycode) => {
                            pycode.append(import_pycode.as_str());
                            pycode.append("\n\n");
                        },
                        None => {
                            proof {
                                lemma_imported_sources_stops(self.registry@, labels@, i + 1);
                            }
                            return Err(Halt::Failed(VestiErr::label_not_found(label, pycode_span)));
                        },
                    }
                    i += 1;
                }
                proof {
                    assert(labels@.take(i as int) =~= labels@);
                }
            },
        }
        match pycode_export {
            None => {},
            Some(label) => {
                self.registry.insert(label.clone(), String::from_str(code));
            },
        }

        if self.consumed < self.results.len() {
            let result = match &self.results[self.consumed] {
                Ok(text) => Ok(text.clone()),
                Err(err) => Err(Halt::Failed(err.clone())),
            };
            self.consumed += 1;
            result
        } else {
            pycode.append(code);
            Err(Halt::RunScript(ScriptCall { source: pycode, span: pycode_span }))
        }
    }
}

} // verus!
