//! What holds of the text of single kinds of node, of lists, and of whole
//! documents.

use crate::ast::{FunctionDefKind, Latex, Statement, TrimWhitespace};
use crate::engine::LatexEngineType;
use crate::script::{HaltView, ScriptOutcome};
use crate::semantics::{
    definition_command, definition_prefix, environment_head_text, eval_seq, eval_stmt, generate,
    header_text, macro_definition_text, plain_text_in_math, Eval, EvalState,
};
use crate::text::trimmed;
use vstd::prelude::*;

verus! {

/// A list of nothing but no-op nodes renders to the empty text and leaves
/// the state as it found it.
pub proof fn lemma_nops_render_nothing(
    latex: Seq<Statement>,
    state: EvalState,
    outcomes: Seq<ScriptOutcome>,
)
    requires
        forall|i: int| 0 <= i < latex.len() ==> latex[i] is NopStmt,
    ensures
        eval_seq(latex, state, outcomes) == Eval::done(state, Seq::empty()),
    decreases latex.len(),
{
    if latex.len() > 0 {
        let front = latex.drop_last();
        assert forall|i: int| 0 <= i < front.len() implies front[i] is NopStmt by {
            assert(front[i] == latex[i]);
        }
        lemma_nops_render_nothing(front, state, outcomes);
        assert(latex.last() is NopStmt);
        assert(eval_stmt(latex.last(), state, outcomes) == Eval::done(state, Seq::empty()));
        assert(Seq::<char>::empty() + Seq::<char>::empty() =~= Seq::<char>::empty());
    }
}

/// A document of nothing but no-op nodes gives the empty text; with the
/// header switched on, it gives the header and nothing else.
pub proof fn lemma_empty_document(
    latex: Seq<Statement>,
    engine: LatexEngineType,
    with_header: bool,
    outcomes: Seq<ScriptOutcome>,
)
    requires
        forall|i: int| 0 <= i < latex.len() ==> latex[i] is NopStmt,
    ensures
        generate(latex, engine, with_header, outcomes).out == Ok::<Seq<char>, HaltView>(
            if with_header {
                header_text(engine)
            } else {
                Seq::empty()
            },
        ),
{
    lemma_nops_render_nothing(latex, EvalState::fresh(), outcomes);
    assert(header_text(engine) + Seq::<char>::empty() =~= header_text(engine));
}

/// With the header switched on, a pass gives the header and then exactly
/// what it gives with the header switched off; it stops where that stops.
pub proof fn lemma_header_comes_first(
    latex: Seq<Statement>,
    engine: LatexEngineType,
    outcomes: Seq<ScriptOutcome>,
)
    ensures
        generate(latex, engine, true, outcomes).state == generate(
            latex,
            engine,
            false,
            outcomes,
        ).state,
        generate(latex, engine, true, outcomes).out == match generate(
            latex,
            engine,
            false,
            outcomes,
        ).out {
            Ok(text) => Ok::<Seq<char>, HaltView>(header_text(engine) + text),
            Err(halt) => Err(halt),
        },
{
}

/// Rendering goes by the order of the nodes: a list that is one list
/// after another renders to the first one's text and then the second
/// one's, the second rendered from the state that the first left; and it
/// stops where the first stops, or else where the second does.
pub proof fn lemma_lists_render_in_order(
    front: Seq<Statement>,
    back: Seq<Statement>,
    state: EvalState,
    outcomes: Seq<ScriptOutcome>,
)
    ensures
        eval_seq(front + back, state, outcomes) == eval_seq(front, state, outcomes).followed_by(
            eval_seq(back, eval_seq(front, state, outcomes).state, outcomes),
        ),
    decreases back.len(),
{
    let first = eval_seq(front, state, outcomes);
    if back.len() == 0 {
        assert(front + back =~= front);
        if let Ok(text) = first.out {
            assert(text + Seq::<char>::empty() =~= text);
        }
    } else {
        let shorter = back.drop_last();
        assert((front + back).drop_last() =~= front + shorter);
        assert((front + back).last() == back.last());
        lemma_lists_render_in_order(front, shorter, state, outcomes);
        let second = eval_seq(shorter, first.state, outcomes);
        let joined = first.followed_by(second);
        let last = eval_stmt(back.last(), joined.state, outcomes);
        if let Ok(a) = first.out {
            if let Ok(b) = second.out {
                if let Ok(c) = last.out {
                    assert((a + b) + c =~= a + (b + c));
                }
            }
        }
    }
}

/// A braced group is an opening brace, what its list renders to, and a
/// closing brace; it stops where its list stops.
pub proof fn lemma_braced_group(latex: Latex, state: EvalState, outcomes: Seq<ScriptOutcome>)
    ensures
        eval_stmt(Statement::BracedStmt(latex), state, outcomes).state == eval_seq(
            latex@,
            state,
            outcomes,
        ).state,
        eval_stmt(Statement::BracedStmt(latex), state, outcomes).out == match eval_seq(
            latex@,
            state,
            outcomes,
        ).out {
            Ok(text) => Ok::<Seq<char>, HaltView>("{"@ + text + "}"@),
            Err(halt) => Err(halt),
        },
{
}

/// A fraction is `\frac{`, the numerator, `}{`, the denominator and `}`,
/// the denominator rendered from the state that the numerator left. It
/// stops where the numerator stops, or else where the denominator does.
pub proof fn lemma_fraction(
    numerator: Latex,
    denominator: Latex,
    state: EvalState,
    outcomes: Seq<ScriptOutcome>,
)
    ensures
        ({
            let node = Statement::Fraction { numerator, denominator };
            let first = eval_seq(numerator@, state, outcomes);
            let second = eval_seq(denominator@, first.state, outcomes);
            eval_stmt(node, state, outcomes).out == match first.out {
                Err(halt) => Err::<Seq<char>, HaltView>(halt),
                Ok(n) => match second.out {
                    Err(halt) => Err(halt),
                    Ok(d) => Ok("\\frac{"@ + n + "}{"@ + d + "}"@),
                },
            }
        }),
{
}

/// Text inside math whose body renders to `body` is `\text{`, the body
/// and `}`, with a space inside the braces on each side whose switch is
/// set.
pub proof fn lemma_text_in_math(
    remove_front_space: bool,
    remove_back_space: bool,
    text: Latex,
    state: EvalState,
    outcomes: Seq<ScriptOutcome>,
    body: Seq<char>,
)
    requires
        eval_seq(text@, state, outcomes).out == Ok::<Seq<char>, HaltView>(body),
    ensures
        eval_stmt(
            Statement::PlainTextInMath { remove_front_space, remove_back_space, text },
            state,
            outcomes,
        ).out == Ok::<Seq<char>, HaltView>(
            plain_text_in_math(remove_front_space, remove_back_space, body),
        ),
        plain_text_in_math(false, false, body) == "\\text{"@ + body + "}"@,
        plain_text_in_math(true, true, body) == "\\text{ "@ + body + " }"@,
{
}

/// Flags form a set: the order in which two are joined does not matter,
/// and a joined pair is held exactly where both flags are.
pub proof fn lemma_flags_are_a_set(kind: FunctionDefKind, a: FunctionDefKind, b: FunctionDefKind)
    ensures
        a.union(b) == b.union(a),
        kind.has_property(a.union(b)) <==> kind.has_property(a) && kind.has_property(b),
        a.union(b).has_property(a),
        a.union(b).has_property(b),
{
    let k = kind.bits;
    let x = a.bits;
    let y = b.bits;
    assert(x | y == y | x) by (bit_vector);
    assert((k & (x | y) == (x | y)) <==> (k & x == x) && (k & y == y)) by (bit_vector);
    assert((x | y) & x == x) by (bit_vector);
    assert((x | y) & y == y) by (bit_vector);
}

/// A macro definition with both the `expand` and the `global` flag is
/// written with `\xdef`, whatever other flags it has and in whatever order
/// the flags were joined. The command stands right before the backslash
/// of the macro's name, after `\long` and `\outer` where those are set.
pub proof fn lemma_expand_global_is_xdef(
    kind: FunctionDefKind,
    name: Seq<char>,
    args: Seq<char>,
    lead: bool,
    trail: bool,
    body: Seq<char>,
)
    requires
        kind.has_property(FunctionDefKind::expand()),
        kind.has_property(FunctionDefKind::global()),
    ensures
        definition_command(kind) == "\\xdef"@,
        definition_command(FunctionDefKind::expand().union(FunctionDefKind::global()))
            == "\\xdef"@,
        definition_command(FunctionDefKind::global().union(FunctionDefKind::expand()))
            == "\\xdef"@,
        macro_definition_text(kind, name, args, lead, trail, body) == (if kind.has_property(
            FunctionDefKind::long(),
        ) {
            "\\long"@
        } else {
            Seq::empty()
        }) + (if kind.has_property(FunctionDefKind::outer()) {
            "\\outer"@
        } else {
            Seq::empty()
        }) + "\\xdef"@ + "\\"@ + name + args + "{"@ + (if lead {
            "%\n"@
        } else {
            Seq::empty()
        }) + trimmed(lead, trail, body) + "%\n}\n"@,
{
    lemma_flags_are_a_set(kind, FunctionDefKind::expand(), FunctionDefKind::global());
    lemma_flags_are_a_set(
        FunctionDefKind::expand().union(FunctionDefKind::global()),
        FunctionDefKind::expand(),
        FunctionDefKind::global(),
    );
    lemma_flags_are_a_set(
        FunctionDefKind::global().union(FunctionDefKind::expand()),
        FunctionDefKind::expand(),
        FunctionDefKind::global(),
    );
    let opening = definition_prefix(kind) + "\\"@ + name + args + "{"@;
    assert(opening + Seq::<char>::empty() =~= opening);
}

/// An environment definition with no arguments writes neither a count nor
/// a default for an optional argument: it renders as if no default had
/// been given, the default is not rendered at all, and the brace that
/// opens the first body follows the name at once.
pub proof fn lemma_no_arguments_no_brackets(
    is_redefine: bool,
    name: String,
    optional_arg: Option<Latex>,
    trim: TrimWhitespace,
    begin_part: Latex,
    end_part: Latex,
    state: EvalState,
    outcomes: Seq<ScriptOutcome>,
)
    ensures
        eval_stmt(
            Statement::EnvironmentDefine {
                is_redefine,
                name,
                args_num: 0,
                optional_arg,
                trim,
                begin_part,
                end_part,
            },
            state,
            outcomes,
        ) == eval_stmt(
            Statement::EnvironmentDefine {
                is_redefine,
                name,
                args_num: 0,
                optional_arg: None,
                trim,
                begin_part,
                end_part,
            },
            state,
            outcomes,
        ),
        forall|default: Option<Seq<char>>|
            #[trigger] environment_head_text(is_redefine, name@, 0, default) == (if is_redefine {
                "\\renewenvironment{"@
            } else {
                "\\newenvironment{"@
            }) + name@ + "}"@ + "{"@,
{
}

} // verus!
