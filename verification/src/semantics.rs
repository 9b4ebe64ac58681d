//! What rendering means. Every function here is a specification: the
//! text that a node stands for, how the registry and the count of script
//! results change on the way, and where rendering stops short.
//!
//! Rendering is a function of a node, a state and the script results that
//! have been handed back so far. A script node takes the next result in
//! the list as its text. Where the list has run out, rendering stops with
//! the call that would produce the missing result; where the result is a
//! failure, or a label cannot be resolved, or a trim policy does not fit,
//! it stops with the error. Nothing after the stop is looked at.

use crate::ast::{ArgNeed, DelimiterKind, FunctionDefKind, Latex, MathState, Statement};
use crate::engine::LatexEngineType;
use crate::error::VestiErrView;
use crate::location::Span;
use crate::script::{HaltView, ScriptCallView, ScriptOutcome};
use crate::text::{decimal, trimmed};
use vstd::prelude::*;

verus! {

/// What rendering carries from node to node: the fragment registry, and
/// how many script results have been used.
pub struct EvalState {
    pub registry: Map<Seq<char>, Seq<char>>,
    pub consumed: nat,
}

impl EvalState {
    /// The state a pass starts in.
    pub open spec fn fresh() -> EvalState {
        EvalState { registry: Map::empty(), consumed: 0 }
    }
}

/// The outcome of rendering something: the state it left, and the text,
/// or why there is none.
pub struct Eval {
    pub state: EvalState,
    pub out: Result<Seq<char>, HaltView>,
}

impl Eval {
    /// Rendering that gave `text`.
    pub open spec fn done(state: EvalState, text: Seq<char>) -> Eval {
        Eval { state, out: Ok(text) }
    }

    /// Rendering that ended in `err`.
    pub open spec fn failed(state: EvalState, err: VestiErrView) -> Eval {
        Eval { state, out: Err(HaltView::Failed(err)) }
    }

    /// The same outcome with the text, if there is one, put through `f`.
    pub open spec fn map(self, f: spec_fn(Seq<char>) -> Seq<char>) -> Eval {
        match self.out {
            Ok(text) => Eval { state: self.state, out: Ok(f(text)) },
            Err(_) => self,
        }
    }

    /// This outcome followed by `next`, which started from the state that
    /// this one left. A stop in the first is the stop of both; otherwise
    /// a stop in the second is; otherwise `f` combines the two texts.
    pub open spec fn join(
        self,
        next: Eval,
        f: spec_fn(Seq<char>, Seq<char>) -> Seq<char>,
    ) -> Eval {
        match self.out {
            Err(_) => self,
            Ok(first) => match next.out {
                Err(_) => next,
                Ok(second) => Eval { state: next.state, out: Ok(f(first, second)) },
            },
        }
    }

    /// This outcome followed by `next`, the texts one after the other.
    pub open spec fn followed_by(self, next: Eval) -> Eval {
        self.join(next, |first: Seq<char>, second: Seq<char>| first + second)
    }
}

/// A delimiter inside math, sized as `kind` says.
pub open spec fn delimiter_text(delimiter: Seq<char>, kind: DelimiterKind) -> Seq<char> {
    match kind {
        DelimiterKind::Default => delimiter,
        DelimiterKind::LeftBig => "\\left"@ + delimiter,
        DelimiterKind::RightBig => "\\right"@ + delimiter,
    }
}

/// A fraction of two rendered operands.
pub open spec fn fraction_text(numerator: Seq<char>, denominator: Seq<char>) -> Seq<char> {
    "\\frac{"@ + numerator + "}{"@ + denominator + "}"@
}

/// Text inside math, with a space inside the braces in front where
/// `front` is set and behind where `back` is set.
pub open spec fn plain_text_in_math(front: bool, back: bool, text: Seq<char>) -> Seq<char> {
    match (front, back) {
        (false, false) => "\\text{"@ + text + "}"@,
        (true, false) => "\\text{ "@ + text + "}"@,
        (false, true) => "\\text{"@ + text + " }"@,
        (true, true) => "\\text{ "@ + text + " }"@,
    }
}

/// Math between the delimiters of its mode.
pub open spec fn math_text(state: MathState, text: Seq<char>) -> Seq<char> {
    match state {
        MathState::Text => "$"@ + text + "$"@,
        MathState::Inline => "\\["@ + text + "\\]"@,
    }
}

/// One argument: its body in braces or in brackets, or a star in place
/// of the body.
pub open spec fn argument_text(need: ArgNeed, body: Seq<char>) -> Seq<char> {
    match need {
        ArgNeed::MainArg => "{"@ + body + "}"@,
        ArgNeed::Optional => "["@ + body + "]"@,
        ArgNeed::StarArg => "*"@,
    }
}

/// A class or package directive: the command, the options in brackets
/// where there are any, the name in braces, and a line end.
pub open spec fn directive_text(
    command: Seq<char>,
    name: Seq<char>,
    options: Option<Seq<char>>,
) -> Seq<char> {
    match options {
        Some(list) => command + "["@ + list + "]{"@ + name + "}\n"@,
        None => command + "{"@ + name + "}\n"@,
    }
}

/// The opening of an environment, with a line end behind it where
/// `add_newline` is set.
pub open spec fn begin_text(name: Seq<char>, add_newline: bool) -> Seq<char> {
    if add_newline {
        "\\begin{"@ + name + "}"@ + "\n"@
    } else {
        "\\begin{"@ + name + "}"@
    }
}

/// The closing of an environment.
pub open spec fn end_text(name: Seq<char>) -> Seq<char> {
    "\\end{"@ + name + "}"@
}

/// A whole environment, from rendered arguments and a rendered body.
pub open spec fn environment_text(name: Seq<char>, args: Seq<char>, body: Seq<char>) -> Seq<
    char,
> {
    "\\begin{"@ + name + "}"@ + args + body + "\\end{"@ + name + "}\n"@
}

/// The defining command that the flags select: both `expand` and
/// `global`, then `global` alone, then `expand` alone, then neither.
pub open spec fn definition_command(kind: FunctionDefKind) -> Seq<char> {
    if kind.has_property(FunctionDefKind::expand().union(FunctionDefKind::global())) {
        "\\xdef"@
    } else if kind.has_property(FunctionDefKind::global()) {
        "\\gdef"@
    } else if kind.has_property(FunctionDefKind::expand()) {
        "\\edef"@
    } else {
        "\\def"@
    }
}

/// What stands before a macro's name: `\long` and `\outer` where their
/// flags are set, in this order, then the defining command.
pub open spec fn definition_prefix(kind: FunctionDefKind) -> Seq<char> {
    let long = if kind.has_property(FunctionDefKind::long()) {
        "\\long"@
    } else {
        Seq::empty()
    };
    let outer = if kind.has_property(FunctionDefKind::outer()) {
        "\\outer"@
    } else {
        Seq::empty()
    };
    long + outer + definition_command(kind)
}

/// A macro definition from its rendered body. The body is trimmed at the
/// start where `lead` is set and at the end where `trail` is set; where
/// `lead` is set, a comment mark and a line end come before it.
pub open spec fn macro_definition_text(
    kind: FunctionDefKind,
    name: Seq<char>,
    args: Seq<char>,
    lead: bool,
    trail: bool,
    body: Seq<char>,
) -> Seq<char> {
    let opening = definition_prefix(kind) + "\\"@ + name + args + "{"@;
    let marked = if lead {
        opening + "%\n"@
    } else {
        opening
    };
    marked + trimmed(lead, trail, body) + "%\n}\n"@
}

/// An environment definition up to the brace that opens its first body:
/// the directive, the name, and, only where the number of arguments is
/// not zero, that number in brackets and after it the default of the
/// optional argument in brackets, where there is one.
pub open spec fn environment_head_text(
    is_redefine: bool,
    name: Seq<char>,
    args_num: u8,
    optional: Option<Seq<char>>,
) -> Seq<char> {
    let directive = if is_redefine {
        "\\renewenvironment{"@
    } else {
        "\\newenvironment{"@
    };
    let named = directive + name + "}"@;
    if args_num > 0 {
        let counted = named + "["@ + decimal(args_num as int) + "]"@;
        match optional {
            Some(default) => counted + "["@ + default + "]{"@,
            None => counted + "{"@,
        }
    } else {
        named + "{"@
    }
}

/// The sources under `labels`, in this order, each followed by a blank
/// line; or the first label that the registry does not hold.
pub open spec fn imported_sources(
    registry: Map<Seq<char>, Seq<char>>,
    labels: Seq<String>,
) -> Result<Seq<char>, Seq<char>>
    decreases labels.len(),
{
    if labels.len() == 0 {
        Ok(Seq::empty())
    } else {
        match imported_sources(registry, labels.drop_last()) {
            Err(missing) => Err(missing),
            Ok(sources) => {
                let label = labels.last()@;
                if registry.contains_key(label) {
                    Ok(sources + registry[label] + "\n\n"@)
                } else {
                    Err(label)
                }
            },
        }
    }
}

/// The labels that a script node imports.
pub open spec fn import_list(import: Option<Vec<String>>) -> Seq<String> {
    match import {
        Some(labels) => labels@,
        None => Seq::empty(),
    }
}

/// The registry after a script node with source `code`: where the node
/// exports a label, that label now holds `code`.
pub open spec fn exported(
    registry: Map<Seq<char>, Seq<char>>,
    export: Option<String>,
    code: Seq<char>,
) -> Map<Seq<char>, Seq<char>> {
    match export {
        Some(label) => registry.insert(label@, code),
        None => registry,
    }
}

/// A script node. The imported sources are looked up first, and a label
/// that is missing ends the pass there, with the registry as it was.
/// Otherwise the node's own source goes into the registry under its
/// export label, and the script (the imported sources, then the node's
/// own) is due. The next script result, if there is one, is its text or
/// its failure; if there is none, rendering stops with the call.
pub open spec fn eval_script(
    span: Span,
    import: Option<Vec<String>>,
    export: Option<String>,
    code: Seq<char>,
    state: EvalState,
    outcomes: Seq<ScriptOutcome>,
) -> Eval {
    match imported_sources(state.registry, import_list(import)) {
        Err(label) => Eval::failed(state, VestiErrView::label_not_found(label, span)),
        Ok(sources) => {
            let registry = exported(state.registry, export, code);
            if state.consumed < outcomes.len() {
                let after = EvalState { registry, consumed: state.consumed + 1 };
                match outcomes[state.consumed as int] {
                    Ok(text) => Eval::done(after, text),
                    Err(err) => Eval::failed(after, err),
                }
            } else {
                Eval {
                    state: EvalState { registry, consumed: state.consumed },
                    out: Err(
                        HaltView::RunScript(ScriptCallView { source: sources + code, span }),
                    ),
                }
            }
        },
    }
}

/// One node.
pub open spec fn eval_stmt(stmt: Statement, state: EvalState, outcomes: Seq<ScriptOutcome>) -> Eval
    decreases stmt,
{
    match stmt {
        Statement::NopStmt => Eval::done(state, Seq::empty()),
        Statement::NonStopMode => Eval::done(state, "\\nonstopmode\n"@),
        Statement::ImportExpl3Pkg => Eval::done(state, "\\usepackage{expl3, xparse}\n"@),
        Statement::MakeAtLetter => Eval::done(state, "\\makeatletter\n"@),
        Statement::MakeAtOther => Eval::done(state, "\\makeatother\n"@),
        Statement::Latex3On => Eval::done(state, "\\ExplSyntaxOn\n"@),
        Statement::Latex3Off => Eval::done(state, "\\ExplSyntaxOff\n"@),
        Statement::DocumentClass { name, options } => eval_directive(
            "\\documentclass"@,
            name@,
            options,
            state,
            outcomes,
        ),
        Statement::Usepackage { name, options } => eval_directive(
            "\\usepackage"@,
            name@,
            options,
            state,
            outcomes,
        ),
        Statement::MultiUsepackages { pkgs } => eval_packages(pkgs@, state, outcomes),
        Statement::ImportVesti { filename } => Eval::done(
            state,
            "\\input{"@ + filename@ + "}"@,
        ),
        Statement::FilePath { filename } => Eval::done(state, filename@),
        Statement::DocumentStart => Eval::done(state, "\\begin{document}\n"@),
        Statement::DocumentEnd => Eval::done(state, "\n\\end{document}\n"@),
        Statement::MainText(text) => Eval::done(state, text@),
        Statement::BracedStmt(latex) => eval_seq(latex@, state, outcomes).map(
            |text: Seq<char>| "{"@ + text + "}"@,
        ),
        Statement::MathDelimiter { delimiter, kind } => Eval::done(
            state,
            delimiter_text(delimiter@, kind),
        ),
        Statement::Fraction { numerator, denominator } => {
            let first = eval_seq(numerator@, state, outcomes);
            let second = eval_seq(denominator@, first.state, outcomes);
            first.join(second, |n: Seq<char>, d: Seq<char>| fraction_text(n, d))
        },
        Statement::PlainTextInMath { remove_front_space, remove_back_space, text } => eval_seq(
            text@,
            state,
            outcomes,
        ).map(|body: Seq<char>| plain_text_in_math(remove_front_space, remove_back_space, body)),
        Statement::Integer(i) => Eval::done(state, decimal(i as int)),
        Statement::Float(digits) => Eval::done(state, digits@),
        Statement::RawLatex(text) => Eval::done(state, text@),
        Statement::MathText { state: mode, text } => eval_seq(text@, state, outcomes).map(
            |body: Seq<char>| math_text(mode, body),
        ),
        Statement::LatexFunction { name, args } => eval_args(args@, state, outcomes).map(
            |list: Seq<char>| name@ + list,
        ),
        Statement::Environment { name, args, text } => {
            let first = eval_args(args@, state, outcomes);
            let second = eval_seq(text@, first.state, outcomes);
            first.join(
                second,
                |list: Seq<char>, body: Seq<char>| environment_text(name@, list, body),
            )
        },
        Statement::BeginPhantomEnvironment { name, args, add_newline } => eval_args(
            args@,
            state,
            outcomes,
        ).map(|list: Seq<char>| begin_text(name@, add_newline) + list),
        Statement::EndPhantomEnvironment { name } => Eval::done(state, end_text(name@)),
        Statement::FunctionDefine { kind, name, args, trim, body } => match trim.mid {
            Some(_) => Eval::failed(state, VestiErrView::illegal_trim_policy()),
            None => eval_seq(body@, state, outcomes).map(
                |text: Seq<char>|
                    macro_definition_text(kind, name@, args@, trim.start, trim.end, text),
            ),
        },
        Statement::EnvironmentDefine {
            is_redefine,
            name,
            args_num,
            optional_arg,
            trim,
            begin_part,
            end_part,
        } => match trim.mid {
            None => Eval::failed(state, VestiErrView::illegal_trim_policy()),
            Some(mid) => {
                let head = match optional_arg {
                    Some(default) if args_num > 0 => eval_seq(default@, state, outcomes).map(
                        |text: Seq<char>|
                            environment_head_text(is_redefine, name@, args_num, Some(text)),
                    ),
                    _ => Eval::done(
                        state,
                        environment_head_text(is_redefine, name@, args_num, None),
                    ),
                };
                let first = eval_seq(begin_part@, head.state, outcomes);
                let second = eval_seq(end_part@, first.state, outcomes);
                head.join(
                    first,
                    |opening: Seq<char>, body: Seq<char>|
                        opening + trimmed(trim.start, mid, body) + "}{"@,
                ).join(
                    second,
                    |opening: Seq<char>, body: Seq<char>|
                        opening + trimmed(mid, trim.end, body) + "}\n"@,
                )
            },
        },
        Statement::PythonCode { pycode_span, pycode_import, pycode_export, code } => eval_script(
            pycode_span,
            pycode_import,
            pycode_export,
            code@,
            state,
            outcomes,
        ),
    }
}

/// A list of nodes: each in turn, the texts one after the other.
pub open spec fn eval_seq(latex: Seq<Statement>, state: EvalState, outcomes: Seq<ScriptOutcome>) -> Eval
    decreases latex,
{
    if latex.len() == 0 {
        Eval::done(state, Seq::empty())
    } else {
        let head = eval_seq(latex.drop_last(), state, outcomes);
        head.followed_by(eval_stmt(latex.last(), head.state, outcomes))
    }
}

/// A list of options: each in turn, the texts with commas between them.
pub open spec fn eval_options(options: Seq<Latex>, state: EvalState, outcomes: Seq<ScriptOutcome>) -> Eval
    decreases options,
{
    if options.len() == 0 {
        Eval::done(state, Seq::empty())
    } else {
        let head = eval_options(options.drop_last(), state, outcomes);
        let last = eval_seq(options.last()@, head.state, outcomes);
        if options.len() == 1 {
            head.followed_by(last)
        } else {
            head.join(last, |list: Seq<char>, option: Seq<char>| list + ","@ + option)
        }
    }
}

/// A class or package directive with its options rendered.
pub open spec fn eval_directive(
    command: Seq<char>,
    name: Seq<char>,
    options: Option<Vec<Latex>>,
    state: EvalState,
    outcomes: Seq<ScriptOutcome>,
) -> Eval
    decreases options,
{
    match options {
        Some(list) => eval_options(list@, state, outcomes).map(
            |text: Seq<char>| directive_text(command, name, Some(text)),
        ),
        None => Eval::done(state, directive_text(command, name, None)),
    }
}

/// A list of arguments: each body in turn, then written as its kind of
/// argument asks. The body of a star is rendered like any other and its
/// text is dropped.
pub open spec fn eval_args(
    args: Seq<(ArgNeed, Vec<Statement>)>,
    state: EvalState,
    outcomes: Seq<ScriptOutcome>,
) -> Eval
    decreases args,
{
    if args.len() == 0 {
        Eval::done(state, Seq::empty())
    } else {
        let head = eval_args(args.drop_last(), state, outcomes);
        let last = args.last();
        head.followed_by(
            eval_seq(last.1@, head.state, outcomes).map(
                |body: Seq<char>| argument_text(last.0, body),
            ),
        )
    }
}

/// The entries of a batch of packages: each `Usepackage` in turn; any
/// other node in the batch gives no text and is not rendered.
pub open spec fn eval_packages(pkgs: Seq<Statement>, state: EvalState, outcomes: Seq<ScriptOutcome>) -> Eval
    decreases pkgs,
{
    if pkgs.len() == 0 {
        Eval::done(state, Seq::empty())
    } else {
        let head = eval_packages(pkgs.drop_last(), state, outcomes);
        match pkgs.last() {
            Statement::Usepackage { name, options } => head.followed_by(
                eval_directive("\\usepackage"@, name@, options, head.state, outcomes),
            ),
            _ => head,
        }
    }
}

/// Rendering one node more: a list cut after `k + 1` nodes is the list cut
/// after `k`, followed by node `k`.
pub proof fn lemma_eval_seq_step(
    latex: Seq<Statement>,
    k: int,
    state: EvalState,
    outcomes: Seq<ScriptOutcome>,
)
    requires
        0 <= k < latex.len(),
    ensures
        eval_seq(latex.take(k + 1), state, outcomes) == eval_seq(
            latex.take(k),
            state,
            outcomes,
        ).followed_by(
            eval_stmt(latex[k], eval_seq(latex.take(k), state, outcomes).state, outcomes),
        ),
{
    assert(latex.take(k + 1).drop_last() =~= latex.take(k));
}

/// Once a list has stopped, the nodes behind the stop change nothing.
pub proof fn lemma_eval_seq_stops(
    latex: Seq<Statement>,
    k: int,
    state: EvalState,
    outcomes: Seq<ScriptOutcome>,
)
    requires
        0 <= k <= latex.len(),
        eval_seq(latex.take(k), state, outcomes).out is Err,
    ensures
        eval_seq(latex, state, outcomes) == eval_seq(latex.take(k), state, outcomes),
    decreases latex.len() - k,
{
    if k < latex.len() {
        lemma_eval_seq_step(latex, k, state, outcomes);
        lemma_eval_seq_stops(latex, k + 1, state, outcomes);
    } else {
        assert(latex.take(k) =~= latex);
    }
}

/// Rendering one option more.
pub proof fn lemma_eval_options_step(
    options: Seq<Latex>,
    k: int,
    state: EvalState,
    outcomes: Seq<ScriptOutcome>,
)
    requires
        0 <= k < options.len(),
    ensures
        ({
            let head = eval_options(options.take(k), state, outcomes);
            let last = eval_seq(options[k]@, head.state, outcomes);
            eval_options(options.take(k + 1), state, outcomes) == if k == 0 {
                head.followed_by(last)
            } else {
                head.join(last, |list: Seq<char>, option: Seq<char>| list + ","@ + option)
            }
        }),
{
    assert(options.take(k + 1).drop_last() =~= options.take(k));
}

/// Once a list of options has stopped, the options behind the stop change
/// nothing.
pub proof fn lemma_eval_options_stops(
    options: Seq<Latex>,
    k: int,
    state: EvalState,
    outcomes: Seq<ScriptOutcome>,
)
    requires
        0 <= k <= options.len(),
        eval_options(options.take(k), state, outcomes).out is Err,
    ensures
        eval_options(options, state, outcomes) == eval_options(options.take(k), state, outcomes),
    decreases options.len() - k,
{
    if k < options.len() {
        lemma_eval_options_step(options, k, state, outcomes);
        lemma_eval_options_stops(options, k + 1, state, outcomes);
    } else {
        assert(options.take(k) =~= options);
    }
}

/// Rendering one argument more.
pub proof fn lemma_eval_args_step(
    args: Seq<(ArgNeed, Vec<Statement>)>,
    k: int,
    state: EvalState,
    outcomes: Seq<ScriptOutcome>,
)
    requires
        0 <= k < args.len(),
    ensures
        ({
            let head = eval_args(args.take(k), state, outcomes);
            eval_args(args.take(k + 1), state, outcomes) == head.followed_by(
                eval_seq(args[k].1@, head.state, outcomes).map(
                    |body: Seq<char>| argument_text(args[k].0, body),
                ),
            )
        }),
{
    assert(args.take(k + 1).drop_last() =~= args.take(k));
}

/// Once a list of arguments has stopped, the arguments behind the stop
/// change nothing.
pub proof fn lemma_eval_args_stops(
    args: Seq<(ArgNeed, Vec<Statement>)>,
    k: int,
    state: EvalState,
    outcomes: Seq<ScriptOutcome>,
)
    requires
        0 <= k <= args.len(),
        eval_args(args.take(k), state, outcomes).out is Err,
    ensures
        eval_args(args, state, outcomes) == eval_args(args.take(k), state, outcomes),
    decreases args.len() - k,
{
    if k < args.len() {
        lemma_eval_args_step(args, k, state, outcomes);
        lemma_eval_args_stops(args, k + 1, state, outcomes);
    } else {
        assert(args.take(k) =~= args);
    }
}

/// Rendering one entry of a batch more.
pub proof fn lemma_eval_packages_step(
    pkgs: Seq<Statement>,
    k: int,
    state: EvalState,
    outcomes: Seq<ScriptOutcome>,
)
    requires
        0 <= k < pkgs.len(),
    ensures
        ({
            let head = eval_packages(pkgs.take(k), state, outcomes);
            eval_packages(pkgs.take(k + 1), state, outcomes) == match pkgs[k] {
                Statement::Usepackage { name, options } => head.followed_by(
                    eval_directive("\\usepackage"@, name@, options, head.state, outcomes),
                ),
                _ => head,
            }
        }),
{
    assert(pkgs.take(k + 1).drop_last() =~= pkgs.take(k));
}

/// Once a batch has stopped, the entries behind the stop change nothing.
pub proof fn lemma_eval_packages_stops(
    pkgs: Seq<Statement>,
    k: int,
    state: EvalState,
    outcomes: Seq<ScriptOutcome>,
)
    requires
        0 <= k <= pkgs.len(),
        eval_packages(pkgs.take(k), state, outcomes).out is Err,
    ensures
        eval_packages(pkgs, state, outcomes) == eval_packages(pkgs.take(k), state, outcomes),
    decreases pkgs.len() - k,
{
    if k < pkgs.len() {
        lemma_eval_packages_step(pkgs, k, state, outcomes);
        lemma_eval_packages_stops(pkgs, k + 1, state, outcomes);
    } else {
        assert(pkgs.take(k) =~= pkgs);
    }
}

/// Looking up one label more.
pub proof fn lemma_imported_sources_step(
    registry: Map<Seq<char>, Seq<char>>,
    labels: Seq<String>,
    k: int,
)
    requires
        0 <= k < labels.len(),
    ensures
        imported_sources(registry, labels.take(k + 1)) == match imported_sources(
            registry,
            labels.take(k),
        ) {
            Err(missing) => Err::<Seq<char>, Seq<char>>(missing),
            Ok(sources) => if registry.contains_key(labels[k]@) {
                Ok(sources + registry[labels[k]@] + "\n\n"@)
            } else {
                Err(labels[k]@)
            },
        },
{
    assert(labels.take(k + 1).drop_last() =~= labels.take(k));
}

/// Once a label is missing, the labels behind it change nothing.
pub proof fn lemma_imported_sources_stops(
    registry: Map<Seq<char>, Seq<char>>,
    labels: Seq<String>,
    k: int,
)
    requires
        0 <= k <= labels.len(),
        imported_sources(registry, labels.take(k)) is Err,
    ensures
        imported_sources(registry, labels) == imported_sources(registry, labels.take(k)),
    decreases labels.len() - k,
{
    if k < labels.len() {
        lemma_imported_sources_step(registry, labels, k);
        lemma_imported_sources_stops(registry, labels, k + 1);
    } else {
        assert(labels.take(k) =~= labels);
    }
}

/// The version that the file header names.
pub open spec fn version_text() -> Seq<char> {
    "0.1.0"@
}

/// The comment that heads a generated file: the generator with its
/// version, and the engine to compile the file with.
pub open spec fn header_text(engine: LatexEngineType) -> Seq<char> {
    "%\n%  This file was generated by vesti "@ + version_text() + "\n"@
        + "%  Compile this file using "@ + engine.name_spec() + " engine\n%\n"@
}

/// A whole document, rendered from a fresh state: the header where
/// `with_header` is set, then the top-level nodes in order.
pub open spec fn generate(
    latex: Seq<Statement>,
    engine: LatexEngineType,
    with_header: bool,
    outcomes: Seq<ScriptOutcome>,
) -> Eval {
    let body = eval_seq(latex, EvalState::fresh(), outcomes);
    if with_header {
        body.map(|text: Seq<char>| header_text(engine) + text)
    } else {
        body
    }
}

} // verus!
