use vesti::ast::{ArgNeed, DelimiterKind, MathState, Statement};
use vesti::evaluator::Evaluator;
use vesti::script::Halt;

fn render(stmt: Statement) -> Result<String, Halt> {
    Evaluator::new().eval_vesti(&stmt)
}

fn text(s: &str) -> Statement {
    Statement::MainText(s.to_string())
}

#[test]
fn nop_renders_nothing() {
    assert_eq!(render(Statement::NopStmt), Ok(String::new()));
}

#[test]
fn fixed_nodes_render_their_commands() {
    assert_eq!(render(Statement::NonStopMode), Ok("\\nonstopmode\n".to_string()));
    assert_eq!(
        render(Statement::ImportExpl3Pkg),
        Ok("\\usepackage{expl3, xparse}\n".to_string())
    );
    assert_eq!(render(Statement::MakeAtLetter), Ok("\\makeatletter\n".to_string()));
    assert_eq!(render(Statement::MakeAtOther), Ok("\\makeatother\n".to_string()));
    assert_eq!(render(Statement::Latex3On), Ok("\\ExplSyntaxOn\n".to_string()));
    assert_eq!(render(Statement::Latex3Off), Ok("\\ExplSyntaxOff\n".to_string()));
    assert_eq!(render(Statement::DocumentStart), Ok("\\begin{document}\n".to_string()));
    assert_eq!(render(Statement::DocumentEnd), Ok("\n\\end{document}\n".to_string()));
}

#[test]
fn literal_nodes_render_as_they_are() {
    assert_eq!(render(text("Hello, world!")), Ok("Hello, world!".to_string()));
    assert_eq!(render(Statement::RawLatex("\\relax".to_string())), Ok("\\relax".to_string()));
    assert_eq!(render(Statement::Float("3.14".to_string())), Ok("3.14".to_string()));
    assert_eq!(
        render(Statement::FilePath { filename: "figs/plot.pdf".to_string() }),
        Ok("figs/plot.pdf".to_string())
    );
}

#[test]
fn import_vesti_renders_an_input_command() {
    assert_eq!(
        render(Statement::ImportVesti { filename: "chapter1.tex".to_string() }),
        Ok("\\input{chapter1.tex}".to_string())
    );
}

#[test]
fn integers_render_in_decimal() {
    assert_eq!(render(Statement::Integer(0)), Ok("0".to_string()));
    assert_eq!(render(Statement::Integer(7)), Ok("7".to_string()));
    assert_eq!(render(Statement::Integer(10)), Ok("10".to_string()));
    assert_eq!(render(Statement::Integer(1234567890)), Ok("1234567890".to_string()));
    assert_eq!(render(Statement::Integer(-42)), Ok("-42".to_string()));
    assert_eq!(render(Statement::Integer(i64::MAX)), Ok("9223372036854775807".to_string()));
    assert_eq!(render(Statement::Integer(i64::MIN)), Ok("-9223372036854775808".to_string()));
}

#[test]
fn document_class_without_options() {
    assert_eq!(
        render(Statement::DocumentClass { name: "article".to_string(), options: None }),
        Ok("\\documentclass{article}\n".to_string())
    );
}

#[test]
fn document_class_with_options_joins_them_with_commas() {
    let options = Some(vec![vec![text("10pt")], vec![text("a4"), text("paper")], vec![]]);
    assert_eq!(
        render(Statement::DocumentClass { name: "article".to_string(), options }),
        Ok("\\documentclass[10pt,a4paper,]{article}\n".to_string())
    );
}

#[test]
fn document_class_with_an_empty_option_list_keeps_the_brackets() {
    assert_eq!(
        render(Statement::DocumentClass { name: "book".to_string(), options: Some(vec![]) }),
        Ok("\\documentclass[]{book}\n".to_string())
    );
}

#[test]
fn usepackage_with_and_without_options() {
    assert_eq!(
        render(Statement::Usepackage { name: "amsmath".to_string(), options: None }),
        Ok("\\usepackage{amsmath}\n".to_string())
    );
    assert_eq!(
        render(Statement::Usepackage {
            name: "geometry".to_string(),
            options: Some(vec![vec![text("margin=1in")]]),
        }),
        Ok("\\usepackage[margin=1in]{geometry}\n".to_string())
    );
    assert_eq!(
        render(Statement::Usepackage {
            name: "babel".to_string(),
            options: Some(vec![vec![text("english")], vec![text("german")]]),
        }),
        Ok("\\usepackage[english,german]{babel}\n".to_string())
    );
}

#[test]
fn package_batch_renders_each_package_and_passes_over_the_rest() {
    let pkgs = vec![
        Statement::Usepackage { name: "amsmath".to_string(), options: None },
        text("stray"),
        Statement::Usepackage {
            name: "xcolor".to_string(),
            options: Some(vec![vec![text("dvipsnames")]]),
        },
        Statement::NopStmt,
    ];
    assert_eq!(
        render(Statement::MultiUsepackages { pkgs }),
        Ok("\\usepackage{amsmath}\n\\usepackage[dvipsnames]{xcolor}\n".to_string())
    );
    assert_eq!(render(Statement::MultiUsepackages { pkgs: vec![] }), Ok(String::new()));
}

#[test]
fn braced_group_wraps_its_content() {
    assert_eq!(render(Statement::BracedStmt(vec![text("x")])), Ok("{x}".to_string()));
    assert_eq!(render(Statement::BracedStmt(vec![])), Ok("{}".to_string()));
    assert_eq!(
        render(Statement::BracedStmt(vec![
            text("a"),
            Statement::BracedStmt(vec![text("b")]),
            Statement::Integer(3),
        ])),
        Ok("{a{b}3}".to_string())
    );
}

#[test]
fn math_delimiters_by_kind() {
    let delim = |kind| Statement::MathDelimiter { delimiter: "(".to_string(), kind };
    assert_eq!(render(delim(DelimiterKind::Default)), Ok("(".to_string()));
    assert_eq!(render(delim(DelimiterKind::LeftBig)), Ok("\\left(".to_string()));
    assert_eq!(render(delim(DelimiterKind::RightBig)), Ok("\\right(".to_string()));
}

#[test]
fn fraction_wraps_both_operands() {
    assert_eq!(
        render(Statement::Fraction {
            numerator: vec![Statement::Integer(1)],
            denominator: vec![text("x"), text("+"), Statement::Integer(2)],
        }),
        Ok("\\frac{1}{x+2}".to_string())
    );
    assert_eq!(
        render(Statement::Fraction { numerator: vec![], denominator: vec![] }),
        Ok("\\frac{}{}".to_string())
    );
}

#[test]
fn text_in_math_has_four_shapes() {
    let node = |front, back| Statement::PlainTextInMath {
        remove_front_space: front,
        remove_back_space: back,
        text: vec![text("x")],
    };
    assert_eq!(render(node(false, false)), Ok("\\text{x}".to_string()));
    assert_eq!(render(node(true, false)), Ok("\\text{ x}".to_string()));
    assert_eq!(render(node(false, true)), Ok("\\text{x }".to_string()));
    assert_eq!(render(node(true, true)), Ok("\\text{ x }".to_string()));
}

#[test]
fn math_text_by_mode() {
    let body = || vec![text("a"), text("^"), Statement::Integer(2)];
    assert_eq!(
        render(Statement::MathText { state: MathState::Text, text: body() }),
        Ok("$a^2$".to_string())
    );
    assert_eq!(
        render(Statement::MathText { state: MathState::Inline, text: body() }),
        Ok("\\[a^2\\]".to_string())
    );
}

#[test]
fn function_call_writes_each_argument_as_its_kind_asks() {
    let args = vec![
        (ArgNeed::StarArg, vec![]),
        (ArgNeed::Optional, vec![text("opt")]),
        (ArgNeed::MainArg, vec![text("Title")]),
        (ArgNeed::MainArg, vec![]),
    ];
    assert_eq!(
        render(Statement::LatexFunction { name: "\\section".to_string(), args }),
        Ok("\\section*[opt]{Title}{}".to_string())
    );
    assert_eq!(
        render(Statement::LatexFunction { name: "\\alpha".to_string(), args: vec![] }),
        Ok("\\alpha".to_string())
    );
}

#[test]
fn star_argument_drops_the_text_of_its_body() {
    let args = vec![(ArgNeed::StarArg, vec![text("unseen")])];
    assert_eq!(
        render(Statement::LatexFunction { name: "\\chapter".to_string(), args }),
        Ok("\\chapter*".to_string())
    );
}

#[test]
fn environment_has_begin_arguments_body_and_end() {
    assert_eq!(
        render(Statement::Environment {
            name: "tabular".to_string(),
            args: vec![(ArgNeed::Optional, vec![text("t")]), (ArgNeed::MainArg, vec![text("cc")])],
            text: vec![text("\n a & b \n")],
        }),
        Ok("\\begin{tabular}[t]{cc}\n a & b \n\\end{tabular}\n".to_string())
    );
    assert_eq!(
        render(Statement::Environment { name: "center".to_string(), args: vec![], text: vec![] }),
        Ok("\\begin{center}\\end{center}\n".to_string())
    );
}

#[test]
fn phantom_environment_halves() {
    let args = || vec![(ArgNeed::MainArg, vec![text("2")])];
    assert_eq!(
        render(Statement::BeginPhantomEnvironment {
            name: "multicols".to_string(),
            args: args(),
            add_newline: false,
        }),
        Ok("\\begin{multicols}{2}".to_string())
    );
    assert_eq!(
        render(Statement::BeginPhantomEnvironment {
            name: "multicols".to_string(),
            args: args(),
            add_newline: true,
        }),
        Ok("\\begin{multicols}\n{2}".to_string())
    );
    assert_eq!(
        render(Statement::EndPhantomEnvironment { name: "multicols".to_string() }),
        Ok("\\end{multicols}".to_string())
    );
}

#[test]
fn node_lists_render_in_order() {
    let latex = vec![text("a"), Statement::NopStmt, text("b"), Statement::Integer(1), text("c")];
    assert_eq!(Evaluator::new().latex_to_string(&latex), Ok("ab1c".to_string()));
    assert_eq!(Evaluator::new().latex_to_string(&vec![]), Ok(String::new()));
}
