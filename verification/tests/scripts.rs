use vesti::ast::{ArgNeed, Statement};
use vesti::codegen::{Codegen, Document};
use vesti::engine::LatexEngineType;
use vesti::error::{VestiErr, VestiErrKind};
use vesti::evaluator::Evaluator;
use vesti::location::{Location, Span};
use vesti::script::{Halt, ScriptCall};

fn span(row: usize) -> Span {
    Span { start: Location { row, column: 1 }, end: Location { row, column: 9 } }
}

fn script(row: usize, import: Option<Vec<&str>>, export: Option<&str>, code: &str) -> Statement {
    Statement::PythonCode {
        pycode_span: span(row),
        pycode_import: import.map(|labels| labels.into_iter().map(String::from).collect()),
        pycode_export: export.map(String::from),
        code: code.to_string(),
    }
}

fn generator(latex: Vec<Statement>) -> Codegen {
    Codegen::new(Document { latex, is_main: true }, LatexEngineType::LaTeX)
}

fn call(source: &str, row: usize) -> Result<String, Halt> {
    Err(Halt::RunScript(ScriptCall { source: source.to_string(), span: span(row) }))
}

fn missing(label: &str, row: usize) -> Result<String, Halt> {
    Err(Halt::Failed(VestiErr {
        err_kind: VestiErrKind::LabelNotFound { label: label.to_string() },
        location: Some(span(row)),
    }))
}

#[test]
fn script_without_a_result_stops_with_its_call() {
    let mut codegen = generator(vec![
        Statement::MainText("before ".to_string()),
        script(3, None, None, "print(1 + 1)"),
        Statement::MainText(" after".to_string()),
    ]);
    assert_eq!(codegen.make_latex_format::<true>(), call("print(1 + 1)", 3));
}

#[test]
fn script_result_becomes_the_text_of_its_node() {
    let mut codegen = generator(vec![
        Statement::MainText("before ".to_string()),
        script(3, None, None, "print(1 + 1)"),
        Statement::MainText(" after".to_string()),
    ]);
    assert_eq!(codegen.make_latex_format::<true>(), call("print(1 + 1)", 3));
    codegen.supply(Ok("2".to_string()));
    assert_eq!(codegen.make_latex_format::<true>(), Ok("before 2 after".to_string()));
    assert_eq!(codegen.make_latex_format::<true>(), Ok("before 2 after".to_string()));
}

#[test]
fn scripts_are_asked_for_one_by_one_in_order() {
    let mut codegen = generator(vec![
        script(1, None, None, "first"),
        Statement::BracedStmt(vec![script(2, None, None, "second")]),
        script(3, None, None, "third"),
    ]);
    assert_eq!(codegen.make_latex_format::<true>(), call("first", 1));
    codegen.supply(Ok("1".to_string()));
    assert_eq!(codegen.make_latex_format::<true>(), call("second", 2));
    codegen.supply(Ok("2".to_string()));
    assert_eq!(codegen.make_latex_format::<true>(), call("third", 3));
    codegen.supply(Ok("3".to_string()));
    assert_eq!(codegen.make_latex_format::<true>(), Ok("1{2}3".to_string()));
}

#[test]
fn interpreter_failure_ends_the_pass_with_that_error() {
    let mut codegen = generator(vec![
        script(1, None, None, "ok"),
        script(2, None, None, "1/0"),
        script(3, None, None, "never run"),
    ]);
    assert_eq!(codegen.make_latex_format::<true>(), call("ok", 1));
    codegen.supply(Ok("fine".to_string()));
    assert_eq!(codegen.make_latex_format::<true>(), call("1/0", 2));
    let failure = VestiErr {
        err_kind: VestiErrKind::PythonEvalErr { msg: "ZeroDivisionError".to_string() },
        location: Some(span(2)),
    };
    codegen.supply(Err(failure.clone()));
    assert_eq!(codegen.make_latex_format::<true>(), Err(Halt::Failed(failure.clone())));
    assert_eq!(failure.message(), "ZeroDivisionError");
}

#[test]
fn exported_source_comes_before_the_importing_script() {
    let mut codegen = generator(vec![
        script(1, None, Some("a"), "x = 1"),
        Statement::MainText("between".to_string()),
        script(5, Some(vec!["a"]), None, "print(x)"),
    ]);
    assert_eq!(codegen.make_latex_format::<true>(), call("x = 1", 1));
    codegen.supply(Ok(String::new()));
    assert_eq!(codegen.make_latex_format::<true>(), call("x = 1\n\nprint(x)", 5));
    codegen.supply(Ok("1".to_string()));
    assert_eq!(codegen.make_latex_format::<true>(), Ok("between1".to_string()));
}

#[test]
fn imports_are_put_together_in_list_order() {
    let mut codegen = generator(vec![
        script(1, None, Some("a"), "A"),
        script(2, None, Some("b"), "B"),
        script(3, Some(vec!["b", "a", "b"]), None, "C"),
    ]);
    codegen.supply(Ok(String::new()));
    codegen.supply(Ok(String::new()));
    assert_eq!(codegen.make_latex_format::<true>(), call("B\n\nA\n\nB\n\nC", 3));
}

#[test]
fn export_keeps_the_own_source_without_what_was_imported() {
    let mut codegen = generator(vec![
        script(1, None, Some("a"), "A"),
        script(2, Some(vec!["a"]), Some("b"), "B"),
        script(3, Some(vec!["b"]), None, "C"),
    ]);
    codegen.supply(Ok(String::new()));
    assert_eq!(codegen.make_latex_format::<true>(), call("A\n\nB", 2));
    codegen.supply(Ok(String::new()));
    assert_eq!(codegen.make_latex_format::<true>(), call("B\n\nC", 3));
}

#[test]
fn later_export_replaces_the_earlier_one() {
    let mut codegen = generator(vec![
        script(1, None, Some("a"), "old"),
        script(2, None, Some("a"), "new"),
        script(3, Some(vec!["a"]), None, "use"),
    ]);
    codegen.supply(Ok(String::new()));
    codegen.supply(Ok(String::new()));
    assert_eq!(codegen.make_latex_format::<true>(), call("new\n\nuse", 3));
}

#[test]
fn script_may_not_import_its_own_export() {
    let mut codegen = generator(vec![script(1, Some(vec!["a"]), Some("a"), "x")]);
    assert_eq!(codegen.make_latex_format::<true>(), missing("a", 1));
}

#[test]
fn import_of_a_label_never_exported_fails() {
    let mut codegen = generator(vec![
        Statement::MainText("text".to_string()),
        script(7, Some(vec!["a"]), None, "print(x)"),
    ]);
    let result = codegen.make_latex_format::<true>();
    assert_eq!(result, missing("a", 7));
    match result {
        Err(Halt::Failed(err)) => assert_eq!(
            err.message(),
            "the label <a> cannot be found. Notice that the label should be forward declared"
        ),
        _ => panic!("the import must fail"),
    }
}

#[test]
fn import_of_a_label_exported_only_later_fails() {
    let mut codegen = generator(vec![
        script(1, Some(vec!["late"]), None, "print(x)"),
        script(2, None, Some("late"), "x = 1"),
    ]);
    assert_eq!(codegen.make_latex_format::<true>(), missing("late", 1));
    codegen.supply(Ok("spare".to_string()));
    assert_eq!(codegen.make_latex_format::<true>(), missing("late", 1));
}

#[test]
fn first_missing_label_is_the_one_reported() {
    let mut codegen = generator(vec![
        script(1, None, Some("a"), "A"),
        script(2, Some(vec!["a", "b", "c"]), None, "B"),
    ]);
    codegen.supply(Ok(String::new()));
    assert_eq!(codegen.make_latex_format::<true>(), missing("b", 2));
}

#[test]
fn missing_label_is_found_only_after_the_scripts_before_it_ran() {
    let mut codegen = generator(vec![
        script(1, None, None, "first"),
        script(2, Some(vec!["nowhere"]), None, "second"),
    ]);
    assert_eq!(codegen.make_latex_format::<true>(), call("first", 1));
    codegen.supply(Ok("1".to_string()));
    assert_eq!(codegen.make_latex_format::<true>(), missing("nowhere", 2));
}

#[test]
fn failed_import_exports_nothing() {
    let mut evaluator = Evaluator::new();
    let failing = script(1, Some(vec!["nowhere"]), Some("a"), "A");
    assert_eq!(evaluator.eval_vesti(&failing), missing("nowhere", 1));
    let importing = script(2, Some(vec!["a"]), None, "B");
    assert_eq!(evaluator.eval_vesti(&importing), missing("a", 2));
}

#[test]
fn export_is_kept_though_the_script_has_not_run_yet() {
    let mut evaluator = Evaluator::new();
    assert_eq!(evaluator.eval_vesti(&script(1, None, Some("a"), "A")), call("A", 1));
    assert_eq!(evaluator.eval_vesti(&script(2, Some(vec!["a"]), None, "B")), call("A\n\nB", 2));
}

#[test]
fn registry_starts_empty_in_every_pass() {
    let mut codegen = generator(vec![
        script(1, Some(vec!["a"]), None, "uses a"),
        script(2, None, Some("a"), "A"),
    ]);
    assert_eq!(codegen.make_latex_format::<true>(), missing("a", 1));
    assert_eq!(codegen.make_latex_format::<true>(), missing("a", 1));
}

#[test]
fn restart_empties_the_registry_and_keeps_the_results() {
    let mut evaluator = Evaluator::new();
    evaluator.supply(Ok("out".to_string()));
    assert_eq!(evaluator.eval_vesti(&script(1, None, Some("a"), "A")), Ok("out".to_string()));
    assert_eq!(evaluator.eval_vesti(&script(2, Some(vec!["a"]), None, "B")), call("A\n\nB", 2));
    evaluator.restart();
    assert_eq!(evaluator.eval_vesti(&script(2, Some(vec!["a"]), None, "B")), missing("a", 2));
    assert_eq!(evaluator.eval_vesti(&script(1, None, None, "A")), Ok("out".to_string()));
}

#[test]
fn script_inside_a_star_argument_is_run_and_its_text_dropped() {
    let mut codegen = generator(vec![Statement::LatexFunction {
        name: "\\section".to_string(),
        args: vec![
            (ArgNeed::StarArg, vec![script(1, None, Some("a"), "A")]),
            (ArgNeed::MainArg, vec![script(2, Some(vec!["a"]), None, "B")]),
        ],
    }]);
    assert_eq!(codegen.make_latex_format::<true>(), call("A", 1));
    codegen.supply(Ok("dropped".to_string()));
    assert_eq!(codegen.make_latex_format::<true>(), call("A\n\nB", 2));
    codegen.supply(Ok("kept".to_string()));
    assert_eq!(codegen.make_latex_format::<true>(), Ok("\\section*{kept}".to_string()));
}

#[test]
fn default_of_an_environment_without_arguments_is_not_rendered() {
    let mut codegen = generator(vec![Statement::EnvironmentDefine {
        is_redefine: false,
        name: "box".to_string(),
        args_num: 0,
        optional_arg: Some(vec![script(1, None, None, "never run")]),
        trim: vesti::ast::TrimWhitespace { start: false, mid: Some(false), end: false },
        begin_part: vec![],
        end_part: vec![],
    }]);
    assert_eq!(codegen.make_latex_format::<true>(), Ok("\\newenvironment{box}{}{}\n".to_string()));
}

#[test]
fn script_output_is_trimmed_with_the_body_it_stands_in() {
    let mut codegen = generator(vec![Statement::FunctionDefine {
        kind: vesti::ast::FunctionDefKind::none(),
        name: "val".to_string(),
        args: String::new(),
        trim: vesti::ast::TrimWhitespace { start: true, mid: None, end: true },
        body: vec![script(1, None, None, "print(' 42 ')")],
    }]);
    codegen.supply(Ok(" 42 \n".to_string()));
    assert_eq!(codegen.make_latex_format::<true>(), Ok("\\def\\val{%\n42%\n}\n".to_string()));
}

#[test]
fn results_beyond_the_last_script_are_left_unused() {
    let mut codegen = generator(vec![script(1, None, None, "only")]);
    codegen.supply(Ok("1".to_string()));
    codegen.supply(Ok("2".to_string()));
    assert_eq!(codegen.make_latex_format::<true>(), Ok("1".to_string()));
}
