//! What holds of scripts: how exports reach imports, and when an import
//! fails.

use crate::ast::{ArgNeed, Latex, Statement};
use crate::error::VestiErrView;
use crate::location::Span;
use crate::script::{HaltView, ScriptCallView, ScriptOutcome};
use crate::semantics::{
    eval_args, eval_directive, eval_options, eval_packages, eval_script, eval_seq, eval_stmt,
    import_list, imported_sources, Eval, EvalState,
};
use vstd::prelude::*;

verus! {

/// A script node whose imports resolve leaves its own source in the
/// registry under the label it exports, whether its result is at hand
/// or not.
pub proof fn lemma_export_is_kept(
    span: Span,
    import: Option<Vec<String>>,
    label: String,
    code: Seq<char>,
    state: EvalState,
    outcomes: Seq<ScriptOutcome>,
)
    requires
        imported_sources(state.registry, import_list(import)) is Ok,
    ensures
        ({
            let after = eval_script(span, import, Some(label), code, state, outcomes).state;
            &&& after.registry.contains_key(label@)
            &&& after.registry[label@] == code
        }),
{
}

/// A script node that imports one label, held by the registry, and has no
/// result yet, stops with a script that is the source under that label, a
/// blank line, and its own source.
pub proof fn lemma_import_comes_first(
    span: Span,
    labels: Vec<String>,
    export: Option<String>,
    code: Seq<char>,
    state: EvalState,
    outcomes: Seq<ScriptOutcome>,
)
    requires
        labels@.len() == 1,
        state.registry.contains_key(labels@[0]@),
        state.consumed >= outcomes.len(),
    ensures
        eval_script(span, Some(labels), export, code, state, outcomes).out == Err::<
            Seq<char>,
            HaltView,
        >(
            HaltView::RunScript(
                ScriptCallView {
                    source: state.registry[labels@[0]@] + "\n\n"@ + code,
                    span,
                },
            ),
        ),
{
    assert(labels@.drop_last() =~= Seq::<String>::empty());
    assert(imported_sources(state.registry, labels@.drop_last()) == Ok::<Seq<char>, Seq<char>>(
        Seq::empty(),
    ));
    assert(Seq::<char>::empty() + state.registry[labels@[0]@] + "\n\n"@
        =~= state.registry[labels@[0]@] + "\n\n"@);
}

/// A script that exports a label and has run, followed at once by a
/// script that imports that label and has not run yet: rendering stops
/// for the second script, and its source is the first one's source, a
/// blank line, and its own source.
pub proof fn lemma_export_then_import(
    first_span: Span,
    second_span: Span,
    label: String,
    first_code: String,
    labels: Vec<String>,
    second_export: Option<String>,
    second_code: String,
    state: EvalState,
    outcomes: Seq<ScriptOutcome>,
)
    requires
        labels@ == seq![label],
        outcomes.len() == state.consumed + 1,
        outcomes[state.consumed as int] is Ok,
    ensures
        ({
            let first = Statement::PythonCode {
                pycode_span: first_span,
                pycode_import: None,
                pycode_export: Some(label),
                code: first_code,
            };
            let second = Statement::PythonCode {
                pycode_span: second_span,
                pycode_import: Some(labels),
                pycode_export: second_export,
                code: second_code,
            };
            eval_seq(seq![first, second], state, outcomes).out == Err::<Seq<char>, HaltView>(
                HaltView::RunScript(
                    ScriptCallView {
                        source: first_code@ + "\n\n"@ + second_code@,
                        span: second_span,
                    },
                ),
            )
        }),
{
    let first = Statement::PythonCode {
        pycode_span: first_span,
        pycode_import: None,
        pycode_export: Some(label),
        code: first_code,
    };
    let second = Statement::PythonCode {
        pycode_span: second_span,
        pycode_import: Some(labels),
        pycode_export: second_export,
        code: second_code,
    };
    let both = seq![first, second];
    assert(both.drop_last() =~= seq![first]);
    assert(seq![first].drop_last() =~= Seq::<Statement>::empty());
    let one = eval_stmt(first, state, outcomes);
    let head = eval_seq(seq![first], state, outcomes);
    assert(head.state == one.state && head.out is Ok) by {
        assert(seq![first].last() == first);
        assert(eval_seq(Seq::<Statement>::empty(), state, outcomes) == Eval::done(
            state,
            Seq::empty(),
        ));
    }
    assert(eval_seq(both, state, outcomes) == head.followed_by(
        eval_stmt(second, head.state, outcomes),
    )) by {
        assert(both.last() == second);
    }
    assert(one.state.registry[label@] == first_code@);
    assert(labels@[0] == label);
    lemma_import_comes_first(
        second_span,
        labels,
        second_export,
        second_code@,
        one.state,
        outcomes,
    );
}

/// The lookup of a list of labels that the registry all holds succeeds.
pub proof fn lemma_all_labels_found(registry: Map<Seq<char>, Seq<char>>, labels: Seq<String>)
    requires
        forall|j: int| 0 <= j < labels.len() ==> registry.contains_key(#[trigger] labels[j]@),
    ensures
        imported_sources(registry, labels) is Ok,
    decreases labels.len(),
{
    if labels.len() > 0 {
        let front = labels.drop_last();
        assert forall|j: int| 0 <= j < front.len() implies registry.contains_key(
            #[trigger] front[j]@,
        ) by {
            assert(front[j] == labels[j]);
        }
        lemma_all_labels_found(registry, front);
        assert(registry.contains_key(labels[labels.len() - 1]@));
    }
}

/// The lookup of a list of labels ends in the first label that the
/// registry does not hold.
pub proof fn lemma_first_missing_label(
    registry: Map<Seq<char>, Seq<char>>,
    labels: Seq<String>,
    k: int,
)
    requires
        0 <= k < labels.len(),
        !registry.contains_key(labels[k]@),
        forall|j: int| 0 <= j < k ==> registry.contains_key(#[trigger] labels[j]@),
    ensures
        imported_sources(registry, labels) == Err::<Seq<char>, Seq<char>>(labels[k]@),
    decreases labels.len(),
{
    let front = labels.drop_last();
    if k < labels.len() - 1 {
        assert(front[k] == labels[k]);
        assert forall|j: int| 0 <= j < k implies registry.contains_key(#[trigger] front[j]@) by {
            assert(front[j] == labels[j]);
        }
        lemma_first_missing_label(registry, front, k);
    } else {
        assert forall|j: int| 0 <= j < front.len() implies registry.contains_key(
            #[trigger] front[j]@,
        ) by {
            assert(front[j] == labels[j]);
        }
        lemma_all_labels_found(registry, front);
    }
}

/// A script node that imports a label which the registry does not hold
/// fails with the error that names the first such label of its list and
/// the node's own place. The state stays as it was: nothing is exported,
/// and no script result is used.
pub proof fn lemma_missing_label_fails(
    span: Span,
    labels: Vec<String>,
    export: Option<String>,
    code: Seq<char>,
    state: EvalState,
    outcomes: Seq<ScriptOutcome>,
    k: int,
)
    requires
        0 <= k < labels@.len(),
        !state.registry.contains_key(labels@[k]@),
        forall|j: int| 0 <= j < k ==> state.registry.contains_key(#[trigger] labels@[j]@),
    ensures
        eval_script(span, Some(labels), export, code, state, outcomes) == Eval::failed(
            state,
            VestiErrView::label_not_found(labels@[k]@, span),
        ),
        VestiErrView::label_not_found(labels@[k]@, span).err_kind.message() == "the label <"@
            + labels@[k]@
            + "> cannot be found. Notice that the label should be forward declared"@,
{
    lemma_first_missing_label(state.registry, labels@, k);
}

/// In a fresh state every import fails: a document whose first script
/// imports anything ends in the error that names the first label.
pub proof fn lemma_import_before_export_fails(
    span: Span,
    labels: Vec<String>,
    export: Option<String>,
    code: Seq<char>,
    outcomes: Seq<ScriptOutcome>,
)
    requires
        labels@.len() > 0,
    ensures
        eval_script(span, Some(labels), export, code, EvalState::fresh(), outcomes)
            == Eval::failed(
            EvalState::fresh(),
            VestiErrView::label_not_found(labels@[0]@, span),
        ),
{
    lemma_missing_label_fails(span, labels, export, code, EvalState::fresh(), outcomes, 0);
}

/// Whether a script node somewhere in `stmt` exports `label`.
pub open spec fn stmt_exports(stmt: Statement, label: Seq<char>) -> bool
    decreases stmt,
{
    match stmt {
        Statement::DocumentClass { options, .. } => directive_exports(options, label),
        Statement::Usepackage { options, .. } => directive_exports(options, label),
        Statement::MultiUsepackages { pkgs } => seq_exports(pkgs@, label),
        Statement::BracedStmt(latex) => seq_exports(latex@, label),
        Statement::Fraction { numerator, denominator } => seq_exports(numerator@, label)
            || seq_exports(denominator@, label),
        Statement::PlainTextInMath { text, .. } => seq_exports(text@, label),
        Statement::MathText { text, .. } => seq_exports(text@, label),
        Statement::LatexFunction { args, .. } => args_export(args@, label),
        Statement::Environment { args, text, .. } => args_export(args@, label) || seq_exports(
            text@,
            label,
        ),
        Statement::BeginPhantomEnvironment { args, .. } => args_export(args@, label),
        Statement::FunctionDefine { body, .. } => seq_exports(body@, label),
        Statement::EnvironmentDefine { optional_arg, begin_part, end_part, .. } => {
            ||| (optional_arg matches Some(default) && seq_exports(default@, label))
            ||| seq_exports(begin_part@, label)
            ||| seq_exports(end_part@, label)
        },
        Statement::PythonCode { pycode_export, .. } => pycode_export matches Some(exported)
            && exported@ == label,
        _ => false,
    }
}

/// Whether a script node somewhere in the list exports `label`.
pub open spec fn seq_exports(latex: Seq<Statement>, label: Seq<char>) -> bool
    decreases latex,
{
    latex.len() > 0 && (seq_exports(latex.drop_last(), label) || stmt_exports(
        latex.last(),
        label,
    ))
}

/// Whether a script node somewhere in the options exports `label`.
pub open spec fn options_export(options: Seq<Latex>, label: Seq<char>) -> bool
    decreases options,
{
    options.len() > 0 && (options_export(options.drop_last(), label) || seq_exports(
        options.last()@,
        label,
    ))
}

/// Whether a script node somewhere in a directive's options exports
/// `label`.
pub open spec fn directive_exports(options: Option<Vec<Latex>>, label: Seq<char>) -> bool
    decreases options,
{
    options matches Some(list) && options_export(list@, label)
}

/// Whether a script node somewhere in the arguments exports `label`.
pub open spec fn args_export(args: Seq<(ArgNeed, Vec<Statement>)>, label: Seq<char>) -> bool
    decreases args,
{
    args.len() > 0 && (args_export(args.drop_last(), label) || seq_exports(
        args.last().1@,
        label,
    ))
}

/// Whether two registries agree on `label`: both hold it with the same
/// source, or neither holds it.
pub open spec fn same_entry(
    after: Map<Seq<char>, Seq<char>>,
    before: Map<Seq<char>, Seq<char>>,
    label: Seq<char>,
) -> bool {
    &&& after.contains_key(label) == before.contains_key(label)
    &&& after[label] == before[label]
}

/// A node in which no script exports `label` leaves the registry's entry
/// for `label` as it is.
pub proof fn lemma_stmt_keeps_entry(
    stmt: Statement,
    label: Seq<char>,
    state: EvalState,
    outcomes: Seq<ScriptOutcome>,
)
    requires
        !stmt_exports(stmt, label),
    ensures
        same_entry(eval_stmt(stmt, state, outcomes).state.registry, state.registry, label),
    decreases stmt,
{
    match stmt {
        Statement::DocumentClass { name, options } => {
            lemma_directive_keeps_entry(
                "\\documentclass"@,
                name@,
                options,
                label,
                state,
                outcomes,
            );
        },
        Statement::Usepackage { name, options } => {
            lemma_directive_keeps_entry("\\usepackage"@, name@, options, label, state, outcomes);
        },
        Statement::MultiUsepackages { pkgs } => {
            lemma_packages_keep_entry(pkgs@, label, state, outcomes);
        },
        Statement::BracedStmt(latex) => {
            lemma_seq_keeps_entry(latex@, label, state, outcomes);
        },
        Statement::Fraction { numerator, denominator } => {
            lemma_seq_keeps_entry(numerator@, label, state, outcomes);
            lemma_seq_keeps_entry(
                denominator@,
                label,
                eval_seq(numerator@, state, outcomes).state,
                outcomes,
            );
        },
        Statement::PlainTextInMath { text, .. } => {
            lemma_seq_keeps_entry(text@, label, state, outcomes);
        },
        Statement::MathText { text, .. } => {
            lemma_seq_keeps_entry(text@, label, state, outcomes);
        },
        Statement::LatexFunction { args, .. } => {
            lemma_args_keep_entry(args@, label, state, outcomes);
        },
        Statement::Environment { args, text, .. } => {
            lemma_args_keep_entry(args@, label, state, outcomes);
            lemma_seq_keeps_entry(
                text@,
                label,
                eval_args(args@, state, outcomes).state,
                outcomes,
            );
        },
        Statement::BeginPhantomEnvironment { args, .. } => {
            lemma_args_keep_entry(args@, label, state, outcomes);
        },
        Statement::FunctionDefine { body, .. } => {
            lemma_seq_keeps_entry(body@, label, state, outcomes);
        },
        Statement::EnvironmentDefine { args_num, optional_arg, begin_part, end_part, .. } => {
            let head = match optional_arg {
                Some(default) if args_num > 0 => {
                    lemma_seq_keeps_entry(default@, label, state, outcomes);
                    eval_seq(default@, state, outcomes).state
                },
                _ => state,
            };
            lemma_seq_keeps_entry(begin_part@, label, head, outcomes);
            lemma_seq_keeps_entry(
                end_part@,
                label,
                eval_seq(begin_part@, head, outcomes).state,
                outcomes,
            );
        },
        _ => {},
    }
}

/// A list of nodes in which no script exports `label` leaves the
/// registry's entry for `label` as it is.
pub proof fn lemma_seq_keeps_entry(
    latex: Seq<Statement>,
    label: Seq<char>,
    state: EvalState,
    outcomes: Seq<ScriptOutcome>,
)
    requires
        !seq_exports(latex, label),
    ensures
        same_entry(eval_seq(latex, state, outcomes).state.registry, state.registry, label),
    decreases latex,
{
    if latex.len() > 0 {
        lemma_seq_keeps_entry(latex.drop_last(), label, state, outcomes);
        lemma_stmt_keeps_entry(
            latex.last(),
            label,
            eval_seq(latex.drop_last(), state, outcomes).state,
            outcomes,
        );
    }
}

/// Options in which no script exports `label` leave the registry's entry
/// for `label` as it is.
pub proof fn lemma_options_keep_entry(
    options: Seq<Latex>,
    label: Seq<char>,
    state: EvalState,
    outcomes: Seq<ScriptOutcome>,
)
    requires
        !options_export(options, label),
    ensures
        same_entry(eval_options(options, state, outcomes).state.registry, state.registry, label),
    decreases options,
{
    if options.len() > 0 {
        lemma_options_keep_entry(options.drop_last(), label, state, outcomes);
        lemma_seq_keeps_entry(
            options.last()@,
            label,
            eval_options(options.drop_last(), state, outcomes).state,
            outcomes,
        );
    }
}

/// A directive in whose options no script exports `label` leaves the
/// registry's entry for `label` as it is.
pub proof fn lemma_directive_keeps_entry(
    command: Seq<char>,
    name: Seq<char>,
    options: Option<Vec<Latex>>,
    label: Seq<char>,
    state: EvalState,
    outcomes: Seq<ScriptOutcome>,
)
    requires
        !directive_exports(options, label),
    ensures
        same_entry(
            eval_directive(command, name, options, state, outcomes).state.registry,
            state.registry,
            label,
        ),
    decreases options,
{
    if let Some(list) = options {
        lemma_options_keep_entry(list@, label, state, outcomes);
    }
}

/// Arguments in which no script exports `label` leave the registry's
/// entry for `label` as it is.
pub proof fn lemma_args_keep_entry(
    args: Seq<(ArgNeed, Vec<Statement>)>,
    label: Seq<char>,
    state: EvalState,
    outcomes: Seq<ScriptOutcome>,
)
    requires
        !args_export(args, label),
    ensures
        same_entry(eval_args(args, state, outcomes).state.registry, state.registry, label),
    decreases args,
{
    if args.len() > 0 {
        lemma_args_keep_entry(args.drop_last(), label, state, outcomes);
        lemma_seq_keeps_entry(
            args.last().1@,
            label,
            eval_args(args.drop_last(), state, outcomes).state,
            outcomes,
        );
    }
}

/// A batch of packages in which no script exports `label` leaves the
/// registry's entry for `label` as it is.
pub proof fn lemma_packages_keep_entry(
    pkgs: Seq<Statement>,
    label: Seq<char>,
    state: EvalState,
    outcomes: Seq<ScriptOutcome>,
)
    requires
        !seq_exports(pkgs, label),
    ensures
        same_entry(eval_packages(pkgs, state, outcomes).state.registry, state.registry, label),
    decreases pkgs,
{
    if pkgs.len() > 0 {
        lemma_packages_keep_entry(pkgs.drop_last(), label, state, outcomes);
        assert(!stmt_exports(pkgs.last(), label));
        if let Statement::Usepackage { name, options } = pkgs.last() {
            lemma_directive_keeps_entry(
                "\\usepackage"@,
                name@,
                options,
                label,
                eval_packages(pkgs.drop_last(), state, outcomes).state,
                outcomes,
            );
        }
    }
}

/// A script that exports a label and has run; then any nodes in which no
/// script exports that label again; then a script that imports the label
/// and has not run yet. Rendering stops for the last script, and its
/// source is the first script's own source, a blank line, and its own
/// source.
pub proof fn lemma_export_reaches_later_import(
    first_span: Span,
    first_import: Option<Vec<String>>,
    label: String,
    first_code: String,
    between: Seq<Statement>,
    second_span: Span,
    labels: Vec<String>,
    second_export: Option<String>,
    second_code: String,
    state: EvalState,
    outcomes: Seq<ScriptOutcome>,
)
    requires
        labels@ == seq![label],
        !seq_exports(between, label@),
        ({
            let first = Statement::PythonCode {
                pycode_span: first_span,
                pycode_import: first_import,
                pycode_export: Some(label),
                code: first_code,
            };
            let ran = eval_stmt(first, state, outcomes);
            let reached = eval_seq(between, ran.state, outcomes);
            &&& ran.out is Ok
            &&& reached.out is Ok
            &&& reached.state.consumed >= outcomes.len()
        }),
    ensures
        ({
            let first = Statement::PythonCode {
                pycode_span: first_span,
                pycode_import: first_import,
                pycode_export: Some(label),
                code: first_code,
            };
            let second = Statement::PythonCode {
                pycode_span: second_span,
                pycode_import: Some(labels),
                pycode_export: second_export,
                code: second_code,
            };
            let ran = eval_stmt(first, state, outcomes);
            let reached = eval_seq(between, ran.state, outcomes);
            eval_stmt(second, reached.state, outcomes).out == Err::<Seq<char>, HaltView>(
                HaltView::RunScript(
                    ScriptCallView {
                        source: first_code@ + "\n\n"@ + second_code@,
                        span: second_span,
                    },
                ),
            )
        }),
{
    let first = Statement::PythonCode {
        pycode_span: first_span,
        pycode_import: first_import,
        pycode_export: Some(label),
        code: first_code,
    };
    let ran = eval_stmt(first, state, outcomes);
    let reached = eval_seq(between, ran.state, outcomes);
    assert(ran.state.registry == state.registry.insert(label@, first_code@));
    lemma_seq_keeps_entry(between, label@, ran.state, outcomes);
    assert(labels@[0] == label);
    lemma_import_comes_first(
        second_span,
        labels,
        second_export,
        second_code@,
        reached.state,
        outcomes,
    );
}

/// A label that no script has exported earlier in the pass cannot be
/// imported: after any nodes in which no script exports the label, from
/// the start of a pass on, a script that imports it fails with the error
/// that names the label and the script's place. (Of several labels in its
/// list, the first that is not held is the one named.)
pub proof fn lemma_never_exported_label_fails(
    earlier: Seq<Statement>,
    span: Span,
    labels: Vec<String>,
    export: Option<String>,
    code: Seq<char>,
    outcomes: Seq<ScriptOutcome>,
    k: int,
)
    requires
        0 <= k < labels@.len(),
        !seq_exports(earlier, labels@[k]@),
        forall|j: int|
            0 <= j < k ==> eval_seq(
                earlier,
                EvalState::fresh(),
                outcomes,
            ).state.registry.contains_key(#[trigger] labels@[j]@),
    ensures
        ({
            let reached = eval_seq(earlier, EvalState::fresh(), outcomes).state;
            eval_script(span, Some(labels), export, code, reached, outcomes) == Eval::failed(
                reached,
                VestiErrView::label_not_found(labels@[k]@, span),
            )
        }),
{
    lemma_seq_keeps_entry(earlier, labels@[k]@, EvalState::fresh(), outcomes);
    lemma_missing_label_fails(
        span,
        labels,
        export,
        code,
        eval_seq(earlier, EvalState::fresh(), outcomes).state,
        outcomes,
        k,
    );
}

} // verus!
