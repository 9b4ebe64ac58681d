use vesti::ast::Statement;
use vesti::codegen::{version, Codegen, Document};
use vesti::engine::LatexEngineType;

fn document(latex: Vec<Statement>, engine: LatexEngineType) -> Codegen {
    Codegen::new(Document { latex, is_main: true }, engine)
}

#[test]
fn main_flag_is_the_documents() {
    let main = Codegen::new(Document { latex: vec![], is_main: true }, LatexEngineType::LaTeX);
    let part = Codegen::new(Document { latex: vec![], is_main: false }, LatexEngineType::LaTeX);
    assert!(main.is_main_vesti());
    assert!(!part.is_main_vesti());
}

#[test]
fn empty_document_renders_nothing_in_test_mode() {
    let mut codegen = document(vec![], LatexEngineType::PdfLaTeX);
    assert_eq!(codegen.make_latex_format::<true>(), Ok(String::new()));
}

#[test]
fn document_of_nops_renders_nothing_in_test_mode() {
    let mut codegen = document(
        vec![Statement::NopStmt, Statement::NopStmt, Statement::NopStmt],
        LatexEngineType::PdfLaTeX,
    );
    assert_eq!(codegen.make_latex_format::<true>(), Ok(String::new()));
}

#[test]
fn document_of_nops_renders_the_header_alone() {
    let mut codegen = document(vec![Statement::NopStmt, Statement::NopStmt], LatexEngineType::PdfLaTeX);
    assert_eq!(
        codegen.make_latex_format::<false>(),
        Ok("%\n%  This file was generated by vesti 0.1.0\n%  Compile this file using pdflatex engine\n%\n"
            .to_string())
    );
}

#[test]
fn header_names_the_version_and_the_engine() {
    let engines = [
        (LatexEngineType::LaTeX, "latex"),
        (LatexEngineType::PdfLaTeX, "pdflatex"),
        (LatexEngineType::XeLaTeX, "xelatex"),
        (LatexEngineType::LuaLaTeX, "lualatex"),
    ];
    for (engine, name) in engines {
        assert_eq!(engine.name(), name);
        let mut codegen = document(vec![Statement::MainText("body".to_string())], engine);
        assert_eq!(
            codegen.make_latex_format::<false>(),
            Ok(format!(
                "%\n%  This file was generated by vesti {}\n%  Compile this file using {} engine\n%\nbody",
                version(),
                name
            ))
        );
    }
}

#[test]
fn test_mode_gives_the_bare_rendering() {
    let latex = || {
        vec![
            Statement::DocumentClass { name: "article".to_string(), options: None },
            Statement::NopStmt,
            Statement::DocumentStart,
            Statement::MainText("Hello".to_string()),
            Statement::NopStmt,
            Statement::DocumentEnd,
        ]
    };
    let mut codegen = document(latex(), LatexEngineType::XeLaTeX);
    let bare = "\\documentclass{article}\n\\begin{document}\nHello\n\\end{document}\n";
    assert_eq!(codegen.make_latex_format::<true>(), Ok(bare.to_string()));
    let with_header = codegen.make_latex_format::<false>().unwrap();
    assert!(with_header.ends_with(bare));
    assert_eq!(
        with_header.len(),
        bare.len()
            + "%\n%  This file was generated by vesti 0.1.0\n%  Compile this file using xelatex engine\n%\n"
                .len()
    );
}

#[test]
fn a_pass_can_be_run_again() {
    let mut codegen = document(
        vec![Statement::MainText("a".to_string()), Statement::Integer(-5)],
        LatexEngineType::LuaLaTeX,
    );
    assert_eq!(codegen.make_latex_format::<true>(), Ok("a-5".to_string()));
    assert_eq!(codegen.make_latex_format::<true>(), Ok("a-5".to_string()));
}
