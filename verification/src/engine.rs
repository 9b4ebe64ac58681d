//! The LaTeX engines a generated file can be meant for.

use vstd::prelude::*;

verus! {

/// The engine that is to compile the generated file.
#[derive(Clone, Copy, Debug, PartialEq, Eq)]
pub enum LatexEngineType {
    LaTeX,
    PdfLaTeX,
    XeLaTeX,
    LuaLaTeX,
}

impl LatexEngineType {
    /// The engine's name as the file header gives it.
    pub open spec fn name_spec(self) -> Seq<char> {
        match self {
            LatexEngineType::LaTeX => "latex"@,
            LatexEngineType::PdfLaTeX => "pdflatex"@,
            LatexEngineType::XeLaTeX => "xelatex"@,
            LatexEngineType::LuaLaTeX => "lualatex"@,
        }
    }

    /// The engine's name as the file header gives it.
    pub fn name(&self) -> (r: &'static str)
        ensures
            r@ == self.name_spec(),
    {
        match self {
            LatexEngineType::LaTeX => "latex",
            LatexEngineType::PdfLaTeX => "pdflatex",
            LatexEngineType::XeLaTeX => "xelatex",
            LatexEngineType::LuaLaTeX => "lualatex",
        }
    }
}

} // verus!
