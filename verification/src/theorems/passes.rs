//! What holds of passes run one after another with more and more script
//! results.

use crate::ast::{ArgNeed, Latex, Statement};
use crate::engine::LatexEngineType;
use crate::script::{HaltView, ScriptOutcome};
use crate::semantics::{
    eval_args, eval_directive, eval_options, eval_packages, eval_seq, eval_stmt, generate, Eval,
    EvalState,
};
use vstd::prelude::*;

verus! {

/// One state comes after another in a pass: every label that was held is
/// still held, and no script result has become unused again.
pub open spec fn comes_after(after: EvalState, before: EvalState) -> bool {
    &&& forall|label: Seq<char>|
        before.registry.contains_key(label) ==> after.registry.contains_key(label)
    &&& before.consumed <= after.consumed
}

/// Whether rendering has stopped for a script to be run.
pub open spec fn waits(eval: Eval) -> bool {
    eval.out matches Err(HaltView::RunScript(_))
}

/// Rendering a node never drops a label from the registry and never gives
/// a script result back.
pub proof fn lemma_stmt_moves_forward(
    stmt: Statement,
    state: EvalState,
    outcomes: Seq<ScriptOutcome>,
)
    ensures
        comes_after(eval_stmt(stmt, state, outcomes).state, state),
    decreases stmt,
{
    match stmt {
        Statement::DocumentClass { name, options } => {
            lemma_directive_moves_forward("\\documentclass"@, name@, options, state, outcomes);
        },
        Statement::Usepackage { name, options } => {
            lemma_directive_moves_forward("\\usepackage"@, name@, options, state, outcomes);
        },
        Statement::MultiUsepackages { pkgs } => {
            lemma_packages_move_forward(pkgs@, state, outcomes);
        },
        Statement::BracedStmt(latex) => {
            lemma_seq_moves_forward(latex@, state, outcomes);
        },
        Statement::Fraction { numerator, denominator } => {
            lemma_seq_moves_forward(numerator@, state, outcomes);
            lemma_seq_moves_forward(
                denominator@,
                eval_seq(numerator@, state, outcomes).state,
                outcomes,
            );
        },
        Statement::PlainTextInMath { text, .. } => {
            lemma_seq_moves_forward(text@, state, outcomes);
        },
        Statement::MathText { text, .. } => {
            lemma_seq_moves_forward(text@, state, outcomes);
        },
        Statement::LatexFunction { args, .. } => {
            lemma_args_move_forward(args@, state, outcomes);
        },
        Statement::Environment { args, text, .. } => {
            lemma_args_move_forward(args@, state, outcomes);
            lemma_seq_moves_forward(text@, eval_args(args@, state, outcomes).state, outcomes);
        },
        Statement::BeginPhantomEnvironment { args, .. } => {
            lemma_args_move_forward(args@, state, outcomes);
        },
        Statement::FunctionDefine { body, .. } => {
            lemma_seq_moves_forward(body@, state, outcomes);
        },
        Statement::EnvironmentDefine { args_num, optional_arg, begin_part, end_part, .. } => {
            let head = match optional_arg {
                Some(default) if args_num > 0 => {
                    lemma_seq_moves_forward(default@, state, outcomes);
                    eval_seq(default@, state, outcomes).state
                },
                _ => state,
            };
            lemma_seq_moves_forward(begin_part@, head, outcomes);
            lemma_seq_moves_forward(
                end_part@,
                eval_seq(begin_part@, head, outcomes).state,
                outcomes,
            );
        },
        _ => {},
    }
}

/// Rendering a list of nodes never drops a label and never gives a script
/// result back.
pub proof fn lemma_seq_moves_forward(
    latex: Seq<Statement>,
    state: EvalState,
    outcomes: Seq<ScriptOutcome>,
)
    ensures
        comes_after(eval_seq(latex, state, outcomes).state, state),
    decreases latex,
{
    if latex.len() > 0 {
        lemma_seq_moves_forward(latex.drop_last(), state, outcomes);
        lemma_stmt_moves_forward(
            latex.last(),
            eval_seq(latex.drop_last(), state, outcomes).state,
            outcomes,
        );
    }
}

/// Rendering a list of options never drops a label and never gives a
/// script result back.
pub proof fn lemma_options_move_forward(
    options: Seq<Latex>,
    state: EvalState,
    outcomes: Seq<ScriptOutcome>,
)
    ensures
        comes_after(eval_options(options, state, outcomes).state, state),
    decreases options,
{
    if options.len() > 0 {
        lemma_options_move_forward(options.drop_last(), state, outcomes);
        lemma_seq_moves_forward(
            options.last()@,
            eval_options(options.drop_last(), state, outcomes).state,
            outcomes,
        );
    }
}

/// Rendering a directive never drops a label and never gives a script
/// result back.
pub proof fn lemma_directive_moves_forward(
    command: Seq<char>,
    name: Seq<char>,
    options: Option<Vec<Latex>>,
    state: EvalState,
    outcomes: Seq<ScriptOutcome>,
)
    ensures
        comes_after(eval_directive(command, name, options, state, outcomes).state, state),
    decreases options,
{
    if let Some(list) = options {
        lemma_options_move_forward(list@, state, outcomes);
    }
}

/// Rendering a list of arguments never drops a label and never gives a
/// script result back.
pub proof fn lemma_args_move_forward(
    args: Seq<(ArgNeed, Vec<Statement>)>,
    state: EvalState,
    outcomes: Seq<ScriptOutcome>,
)
    ensures
        comes_after(eval_args(args, state, outcomes).state, state),
    decreases args,
{
    if args.len() > 0 {
        lemma_args_move_forward(args.drop_last(), state, outcomes);
        lemma_seq_moves_forward(
            args.last().1@,
            eval_args(args.drop_last(), state, outcomes).state,
            outcomes,
        );
    }
}

/// Rendering a batch of packages never drops a label and never gives a
/// script result back.
pub proof fn lemma_packages_move_forward(
    pkgs: Seq<Statement>,
    state: EvalState,
    outcomes: Seq<ScriptOutcome>,
)
    ensures
        comes_after(eval_packages(pkgs, state, outcomes).state, state),
    decreases pkgs,
{
    if pkgs.len() > 0 {
        lemma_packages_move_forward(pkgs.drop_last(), state, outcomes);
        if let Statement::Usepackage { name, options } = pkgs.last() {
            lemma_directive_moves_forward(
                "\\usepackage"@,
                name@,
                options,
                eval_packages(pkgs.drop_last(), state, outcomes).state,
                outcomes,
            );
        }
    }
}

/// What a node has rendered to, or failed with, stays so when more script
/// results come in: only where rendering waits for a script can a further
/// result change the outcome.
pub proof fn lemma_stmt_is_settled(
    stmt: Statement,
    state: EvalState,
    outcomes: Seq<ScriptOutcome>,
    more: Seq<ScriptOutcome>,
)
    requires
        !waits(eval_stmt(stmt, state, outcomes)),
    ensures
        eval_stmt(stmt, state, outcomes + more) == eval_stmt(stmt, state, outcomes),
    decreases stmt,
{
    let longer = outcomes + more;
    match stmt {
        Statement::DocumentClass { name, options } => {
            lemma_directive_is_settled("\\documentclass"@, name@, options, state, outcomes, more);
        },
        Statement::Usepackage { name, options } => {
            lemma_directive_is_settled("\\usepackage"@, name@, options, state, outcomes, more);
        },
        Statement::MultiUsepackages { pkgs } => {
            lemma_packages_are_settled(pkgs@, state, outcomes, more);
        },
        Statement::BracedStmt(latex) => {
            lemma_seq_is_settled(latex@, state, outcomes, more);
        },
        Statement::Fraction { numerator, denominator } => {
            let first = eval_seq(numerator@, state, outcomes);
            lemma_seq_is_settled(numerator@, state, outcomes, more);
            if first.out is Ok {
                lemma_seq_is_settled(denominator@, first.state, outcomes, more);
            }
        },
        Statement::PlainTextInMath { text, .. } => {
            lemma_seq_is_settled(text@, state, outcomes, more);
        },
        Statement::MathText { text, .. } => {
            lemma_seq_is_settled(text@, state, outcomes, more);
        },
        Statement::LatexFunction { args, .. } => {
            lemma_args_are_settled(args@, state, outcomes, more);
        },
        Statement::Environment { args, text, .. } => {
            let first = eval_args(args@, state, outcomes);
            lemma_args_are_settled(args@, state, outcomes, more);
            if first.out is Ok {
                lemma_seq_is_settled(text@, first.state, outcomes, more);
            }
        },
        Statement::BeginPhantomEnvironment { args, .. } => {
            lemma_args_are_settled(args@, state, outcomes, more);
        },
        Statement::FunctionDefine { trim, body, .. } => {
            if trim.mid is None {
                lemma_seq_is_settled(body@, state, outcomes, more);
            }
        },
        Statement::EnvironmentDefine {
            args_num,
            optional_arg,
            trim,
            begin_part,
            end_part,
            ..
        } => {
            if trim.mid is Some {
                let head = match optional_arg {
                    Some(default) if args_num > 0 => {
                        lemma_seq_is_settled(default@, state, outcomes, more);
                        eval_seq(default@, state, outcomes)
                    },
                    _ => Eval::done(state, Seq::empty()),
                };
                if head.out is Ok {
                    let first = eval_seq(begin_part@, head.state, outcomes);
                    lemma_seq_is_settled(begin_part@, head.state, outcomes, more);
                    if first.out is Ok {
                        lemma_seq_is_settled(end_part@, first.state, outcomes, more);
                    }
                }
            }
        },
        Statement::PythonCode { .. } => {
            if state.consumed < outcomes.len() {
                assert(longer[state.consumed as int] == outcomes[state.consumed as int]);
            }
        },
        _ => {},
    }
}

/// What a list of nodes has rendered to, or failed with, stays so when
/// more script results come in.
pub proof fn lemma_seq_is_settled(
    latex: Seq<Statement>,
    state: EvalState,
    outcomes: Seq<ScriptOutcome>,
    more: Seq<ScriptOutcome>,
)
    requires
        !waits(eval_seq(latex, state, outcomes)),
    ensures
        eval_seq(latex, state, outcomes + more) == eval_seq(latex, state, outcomes),
    decreases latex,
{
    if latex.len() > 0 {
        let head = eval_seq(latex.drop_last(), state, outcomes);
        lemma_seq_is_settled(latex.drop_last(), state, outcomes, more);
        if head.out is Ok {
            lemma_stmt_is_settled(latex.last(), head.state, outcomes, more);
        }
    }
}

/// What a list of options has rendered to, or failed with, stays so when
/// more script results come in.
pub proof fn lemma_options_are_settled(
    options: Seq<Latex>,
    state: EvalState,
    outcomes: Seq<ScriptOutcome>,
    more: Seq<ScriptOutcome>,
)
    requires
        !waits(eval_options(options, state, outcomes)),
    ensures
        eval_options(options, state, outcomes + more) == eval_options(options, state, outcomes),
    decreases options,
{
    if options.len() > 0 {
        let head = eval_options(options.drop_last(), state, outcomes);
        lemma_options_are_settled(options.drop_last(), state, outcomes, more);
        if head.out is Ok {
            lemma_seq_is_settled(options.last()@, head.state, outcomes, more);
        }
    }
}

/// What a directive has rendered to, or failed with, stays so when more
/// script results come in.
pub proof fn lemma_directive_is_settled(
    command: Seq<char>,
    name: Seq<char>,
    options: Option<Vec<Latex>>,
    state: EvalState,
    outcomes: Seq<ScriptOutcome>,
    more: Seq<ScriptOutcome>,
)
    requires
        !waits(eval_directive(command, name, options, state, outcomes)),
    ensures
        eval_directive(command, name, options, state, outcomes + more) == eval_directive(
            command,
            name,
            options,
            state,
            outcomes,
        ),
    decreases options,
{
    if let Some(list) = options {
        lemma_options_are_settled(list@, state, outcomes, more);
    }
}

/// What a list of arguments has rendered to, or failed with, stays so
/// when more script results come in.
pub proof fn lemma_args_are_settled(
    args: Seq<(ArgNeed, Vec<Statement>)>,
    state: EvalState,
    outcomes: Seq<ScriptOutcome>,
    more: Seq<ScriptOutcome>,
)
    requires
        !waits(eval_args(args, state, outcomes)),
    ensures
        eval_args(args, state, outcomes + more) == eval_args(args, state, outcomes),
    decreases args,
{
    if args.len() > 0 {
        let head = eval_args(args.drop_last(), state, outcomes);
        lemma_args_are_settled(args.drop_last(), state, outcomes, more);
        if head.out is Ok {
            lemma_seq_is_settled(args.last().1@, head.state, outcomes, more);
        }
    }
}

/// What a batch of packages has rendered to, or failed with, stays so
/// when more script results come in.
pub proof fn lemma_packages_are_settled(
    pkgs: Seq<Statement>,
    state: EvalState,
    outcomes: Seq<ScriptOutcome>,
    more: Seq<ScriptOutcome>,
)
    requires
        !waits(eval_packages(pkgs, state, outcomes)),
    ensures
        eval_packages(pkgs, state, outcomes + more) == eval_packages(pkgs, state, outcomes),
    decreases pkgs,
{
    if pkgs.len() > 0 {
        let head = eval_packages(pkgs.drop_last(), state, outcomes);
        lemma_packages_are_settled(pkgs.drop_last(), state, outcomes, more);
        if head.out is Ok {
            if let Statement::Usepackage { name, options } = pkgs.last() {
                lemma_directive_is_settled(
                    "\\usepackage"@,
                    name@,
                    options,
                    head.state,
                    outcomes,
                    more,
                );
            }
        }
    }
}

/// A pass that has given its text, or has failed, gives the same when it
/// is run again with further script results: the caller may stop asking
/// as soon as a pass does not wait for a script.
pub proof fn lemma_pass_is_settled(
    latex: Seq<Statement>,
    engine: LatexEngineType,
    with_header: bool,
    outcomes: Seq<ScriptOutcome>,
    more: Seq<ScriptOutcome>,
)
    requires
        !waits(generate(latex, engine, with_header, outcomes)),
    ensures
        generate(latex, engine, with_header, outcomes + more) == generate(
            latex,
            engine,
            with_header,
            outcomes,
        ),
{
    lemma_seq_is_settled(latex, EvalState::fresh(), outcomes, more);
}

/// The number of script nodes in `stmt`.
pub open spec fn stmt_scripts(stmt: Statement) -> nat
    decreases stmt,
{
    match stmt {
        Statement::DocumentClass { options, .. } => directive_scripts(options),
        Statement::Usepackage { options, .. } => directive_scripts(options),
        Statement::MultiUsepackages { pkgs } => seq_scripts(pkgs@),
        Statement::BracedStmt(latex) => seq_scripts(latex@),
        Statement::Fraction { numerator, denominator } => seq_scripts(numerator@) + seq_scripts(
            denominator@,
        ),
        Statement::PlainTextInMath { text, .. } => seq_scripts(text@),
        Statement::MathText { text, .. } => seq_scripts(text@),
        Statement::LatexFunction { args, .. } => args_scripts(args@),
        Statement::Environment { args, text, .. } => args_scripts(args@) + seq_scripts(text@),
        Statement::BeginPhantomEnvironment { args, .. } => args_scripts(args@),
        Statement::FunctionDefine { body, .. } => seq_scripts(body@),
        Statement::EnvironmentDefine { optional_arg, begin_part, end_part, .. } => (match optional_arg {
            Some(default) => seq_scripts(default@),
            None => 0,
        }) + seq_scripts(begin_part@) + seq_scripts(end_part@),
        Statement::PythonCode { .. } => 1,
        _ => 0,
    }
}

/// The number of script nodes in a list of nodes.
pub open spec fn seq_scripts(latex: Seq<Statement>) -> nat
    decreases latex,
{
    if latex.len() == 0 {
        0
    } else {
        seq_scripts(latex.drop_last()) + stmt_scripts(latex.last())
    }
}

/// The number of script nodes in a list of options.
pub open spec fn options_scripts(options: Seq<Latex>) -> nat
    decreases options,
{
    if options.len() == 0 {
        0
    } else {
        options_scripts(options.drop_last()) + seq_scripts(options.last()@)
    }
}

/// The number of script nodes in a directive's options.
pub open spec fn directive_scripts(options: Option<Vec<Latex>>) -> nat
    decreases options,
{
    match options {
        Some(list) => options_scripts(list@),
        None => 0,
    }
}

/// The number of script nodes in a list of arguments.
pub open spec fn args_scripts(args: Seq<(ArgNeed, Vec<Statement>)>) -> nat
    decreases args,
{
    if args.len() == 0 {
        0
    } else {
        args_scripts(args.drop_last()) + seq_scripts(args.last().1@)
    }
}

/// Whether an outcome keeps to the script results in order: it has used
/// no result that was not given; where it waits for a script, it has used
/// every result that was given; and it has used at most one result for
/// each of `scripts` script nodes, one less where it waits.
pub open spec fn in_step(
    eval: Eval,
    before: EvalState,
    scripts: nat,
    outcomes: Seq<ScriptOutcome>,
) -> bool {
    &&& eval.state.consumed <= outcomes.len()
    &&& waits(eval) ==> eval.state.consumed == outcomes.len()
    &&& eval.state.consumed + (if waits(eval) {
        1nat
    } else {
        0nat
    }) <= before.consumed + scripts
}

/// Rendering a node keeps to the script results in order.
pub proof fn lemma_stmt_is_in_step(stmt: Statement, state: EvalState, outcomes: Seq<ScriptOutcome>)
    requires
        state.consumed <= outcomes.len(),
    ensures
        in_step(eval_stmt(stmt, state, outcomes), state, stmt_scripts(stmt), outcomes),
    decreases stmt,
{
    match stmt {
        Statement::DocumentClass { name, options } => {
            lemma_directive_is_in_step("\\documentclass"@, name@, options, state, outcomes);
        },
        Statement::Usepackage { name, options } => {
            lemma_directive_is_in_step("\\usepackage"@, name@, options, state, outcomes);
        },
        Statement::MultiUsepackages { pkgs } => {
            lemma_packages_are_in_step(pkgs@, state, outcomes);
        },
        Statement::BracedStmt(latex) => {
            lemma_seq_is_in_step(latex@, state, outcomes);
        },
        Statement::Fraction { numerator, denominator } => {
            lemma_seq_is_in_step(numerator@, state, outcomes);
            lemma_seq_is_in_step(
                denominator@,
                eval_seq(numerator@, state, outcomes).state,
                outcomes,
            );
        },
        Statement::PlainTextInMath { text, .. } => {
            lemma_seq_is_in_step(text@, state, outcomes);
        },
        Statement::MathText { text, .. } => {
            lemma_seq_is_in_step(text@, state, outcomes);
        },
        Statement::LatexFunction { args, .. } => {
            lemma_args_are_in_step(args@, state, outcomes);
        },
        Statement::Environment { args, text, .. } => {
            lemma_args_are_in_step(args@, state, outcomes);
            lemma_seq_is_in_step(text@, eval_args(args@, state, outcomes).state, outcomes);
        },
        Statement::BeginPhantomEnvironment { args, .. } => {
            lemma_args_are_in_step(args@, state, outcomes);
        },
        Statement::FunctionDefine { body, .. } => {
            lemma_seq_is_in_step(body@, state, outcomes);
        },
        Statement::EnvironmentDefine { args_num, optional_arg, begin_part, end_part, .. } => {
            let head = match optional_arg {
                Some(default) if args_num > 0 => {
                    lemma_seq_is_in_step(default@, state, outcomes);
                    eval_seq(default@, state, outcomes).state
                },
                _ => state,
            };
            lemma_seq_is_in_step(begin_part@, head, outcomes);
            lemma_seq_is_in_step(
                end_part@,
                eval_seq(begin_part@, head, outcomes).state,
                outcomes,
            );
        },
        _ => {},
    }
}

/// Rendering a list of nodes keeps to the script results in order.
pub proof fn lemma_seq_is_in_step(
    latex: Seq<Statement>,
    state: EvalState,
    outcomes: Seq<ScriptOutcome>,
)
    requires
        state.consumed <= outcomes.len(),
    ensures
        in_step(eval_seq(latex, state, outcomes), state, seq_scripts(latex), outcomes),
    decreases latex,
{
    if latex.len() > 0 {
        lemma_seq_is_in_step(latex.drop_last(), state, outcomes);
        lemma_stmt_is_in_step(
            latex.last(),
            eval_seq(latex.drop_last(), state, outcomes).state,
            outcomes,
        );
    }
}

/// Rendering a list of options keeps to the script results in order.
pub proof fn lemma_options_are_in_step(
    options: Seq<Latex>,
    state: EvalState,
    outcomes: Seq<ScriptOutcome>,
)
    requires
        state.consumed <= outcomes.len(),
    ensures
        in_step(eval_options(options, state, outcomes), state, options_scripts(options), outcomes),
    decreases options,
{
    if options.len() > 0 {
        lemma_options_are_in_step(options.drop_last(), state, outcomes);
        lemma_seq_is_in_step(
            options.last()@,
            eval_options(options.drop_last(), state, outcomes).state,
            outcomes,
        );
    }
}

/// Rendering a directive keeps to the script results in order.
pub proof fn lemma_directive_is_in_step(
    command: Seq<char>,
    name: Seq<char>,
    options: Option<Vec<Latex>>,
    state: EvalState,
    outcomes: Seq<ScriptOutcome>,
)
    requires
        state.consumed <= outcomes.len(),
    ensures
        in_step(
            eval_directive(command, name, options, state, outcomes),
            state,
            directive_scripts(options),
            outcomes,
        ),
    decreases options,
{
    if let Some(list) = options {
        lemma_options_are_in_step(list@, state, outcomes);
    }
}

/// Rendering a list of arguments keeps to the script results in order.
pub proof fn lemma_args_are_in_step(
    args: Seq<(ArgNeed, Vec<Statement>)>,
    state: EvalState,
    outcomes: Seq<ScriptOutcome>,
)
    requires
        state.consumed <= outcomes.len(),
    ensures
        in_step(eval_args(args, state, outcomes), state, args_scripts(args), outcomes),
    decreases args,
{
    if args.len() > 0 {
        lemma_args_are_in_step(args.drop_last(), state, outcomes);
        lemma_seq_is_in_step(
            args.last().1@,
            eval_args(args.drop_last(), state, outcomes).state,
            outcomes,
        );
    }
}

/// Rendering a batch of packages keeps to the script results in order.
pub proof fn lemma_packages_are_in_step(
    pkgs: Seq<Statement>,
    state: EvalState,
    outcomes: Seq<ScriptOutcome>,
)
    requires
        state.consumed <= outcomes.len(),
    ensures
        in_step(eval_packages(pkgs, state, outcomes), state, seq_scripts(pkgs), outcomes),
    decreases pkgs,
{
    if pkgs.len() > 0 {
        lemma_packages_are_in_step(pkgs.drop_last(), state, outcomes);
        let head = eval_packages(pkgs.drop_last(), state, outcomes);
        match pkgs.last() {
            Statement::Usepackage { name, options } => {
                lemma_directive_is_in_step("\\usepackage"@, name@, options, head.state, outcomes);
                assert(stmt_scripts(pkgs.last()) == directive_scripts(options));
            },
            _ => {},
        }
    }
}

/// A pass that waits for a script has used every result it was given; and
/// a pass that was given as many results as the document has script nodes
/// does not wait. So a caller who runs the script of each waiting pass and
/// starts again comes to an end after at most that many scripts.
pub proof fn lemma_passes_come_to_an_end(
    latex: Seq<Statement>,
    engine: LatexEngineType,
    with_header: bool,
    outcomes: Seq<ScriptOutcome>,
)
    ensures
        waits(generate(latex, engine, with_header, outcomes)) ==> generate(
            latex,
            engine,
            with_header,
            outcomes,
        ).state.consumed == outcomes.len(),
        outcomes.len() >= seq_scripts(latex) ==> !waits(
            generate(latex, engine, with_header, outcomes),
        ),
{
    lemma_seq_is_in_step(latex, EvalState::fresh(), outcomes);
}

} // verus!
