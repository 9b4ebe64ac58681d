//! The tree model: what the parser hands to the generator.

use crate::location::Span;
use vstd::prelude::*;

verus! {

/// An ordered list of nodes; it renders in this order.
pub type Latex = Vec<Statement>;

/// How an argument of a function call or an environment is written.
#[derive(Clone, Copy, Debug, PartialEq, Eq)]
pub enum ArgNeed {
    /// A required argument, in braces.
    MainArg,
    /// An optional argument, in brackets.
    Optional,
    /// A star; it has no body.
    StarArg,
}

/// The two math modes.
#[derive(Clone, Copy, Debug, PartialEq, Eq)]
pub enum MathState {
    /// Math inside running text, between dollar signs.
    Text,
    /// Displayed math, between `\[` and `\]`.
    Inline,
}

/// How a delimiter inside math is sized.
#[derive(Clone, Copy, Debug, PartialEq, Eq)]
pub enum DelimiterKind {
    Default,
    LeftBig,
    RightBig,
}

/// Which whitespace a definition strips from its bodies. A macro has one
/// body and no middle switch; an environment has two bodies, and the
/// middle switch governs the end of the first and the start of the second.
#[derive(Clone, Copy, Debug, PartialEq, Eq)]
pub struct TrimWhitespace {
    pub start: bool,
    pub mid: Option<bool>,
    pub end: bool,
}

/// The flags of a macro definition, as a set of bits.
#[derive(Clone, Copy, Debug, PartialEq, Eq)]
pub struct FunctionDefKind {
    pub bits: u8,
}

impl FunctionDefKind {
    /// No flag.
    pub open spec fn spec_none() -> FunctionDefKind {
        FunctionDefKind { bits: 0 }
    }

    /// The macro's arguments may span paragraphs.
    pub open spec fn spec_long() -> FunctionDefKind {
        FunctionDefKind { bits: 1 }
    }

    /// The macro may not appear inside arguments.
    pub open spec fn spec_outer() -> FunctionDefKind {
        FunctionDefKind { bits: 2 }
    }

    /// The body is expanded when the macro is defined.
    pub open spec fn spec_expand() -> FunctionDefKind {
        FunctionDefKind { bits: 4 }
    }

    /// The definition outlives the group it stands in.
    pub open spec fn spec_global() -> FunctionDefKind {
        FunctionDefKind { bits: 8 }
    }

    /// The flags of either set.
    pub open spec fn spec_union(self, rhs: FunctionDefKind) -> FunctionDefKind {
        FunctionDefKind { bits: self.bits | rhs.bits }
    }

    /// Whether every flag of `rhs` is set.
    pub open spec fn spec_has_property(&self, rhs: FunctionDefKind) -> bool {
        self.bits & rhs.bits == rhs.bits
    }

    /// No flag.
    #[verifier::when_used_as_spec(spec_none)]
    pub fn none() -> (r: FunctionDefKind)
        ensures
            r == FunctionDefKind::spec_none(),
    {
        FunctionDefKind { bits: 0 }
    }

    /// The macro's arguments may span paragraphs.
    #[verifier::when_used_as_spec(spec_long)]
    pub fn long() -> (r: FunctionDefKind)
        ensures
            r == FunctionDefKind::spec_long(),
    {
        FunctionDefKind { bits: 1 }
    }

    /// The macro may not appear inside arguments.
    #[verifier::when_used_as_spec(spec_outer)]
    pub fn outer() -> (r: FunctionDefKind)
        ensures
            r == FunctionDefKind::spec_outer(),
    {
        FunctionDefKind { bits: 2 }
    }

    /// The body is expanded when the macro is defined.
    #[verifier::when_used_as_spec(spec_expand)]
    pub fn expand() -> (r: FunctionDefKind)
        ensures
            r == FunctionDefKind::spec_expand(),
    {
        FunctionDefKind { bits: 4 }
    }

    /// The definition outlives the group it stands in.
    #[verifier::when_used_as_spec(spec_global)]
    pub fn global() -> (r: FunctionDefKind)
        ensures
            r == FunctionDefKind::spec_global(),
    {
        FunctionDefKind { bits: 8 }
    }

    /// The flags of either set.
    #[verifier::when_used_as_spec(spec_union)]
    pub fn union(self, rhs: FunctionDefKind) -> (r: FunctionDefKind)
        ensures
            r == self.spec_union(rhs),
    {
        FunctionDefKind { bits: self.bits | rhs.bits }
    }

    /// Whether every flag of `rhs` is set.
    #[verifier::when_used_as_spec(spec_has_property)]
    pub fn has_property(&self, rhs: FunctionDefKind) -> (b: bool)
        ensures
            b == self.spec_has_property(rhs),
    {
        (self.bits & rhs.bits) == rhs.bits
    }
}

/// One parsed construct.
#[allow(inconsistent_fields)]
#[derive(Debug, PartialEq)]
pub enum Statement {
    /// Nothing at all.
    NopStmt,
    NonStopMode,
    ImportExpl3Pkg,
    MakeAtLetter,
    MakeAtOther,
    Latex3On,
    Latex3Off,
    DocumentClass { name: String, options: Option<Vec<Latex>> },
    Usepackage { name: String, options: Option<Vec<Latex>> },
    /// Several packages at once; entries other than `Usepackage` are passed over.
    MultiUsepackages { pkgs: Vec<Statement> },
    /// Another source file, by the name to `\input` it under.
    ImportVesti { filename: String },
    /// A file name, written out as it is.
    FilePath { filename: String },
    DocumentStart,
    DocumentEnd,
    MainText(String),
    BracedStmt(Latex),
    MathDelimiter { delimiter: String, kind: DelimiterKind },
    Fraction { numerator: Latex, denominator: Latex },
    /// Text inside math. The two switches ask for a space inside the
    /// braces, before and after the text.
    PlainTextInMath { remove_front_space: bool, remove_back_space: bool, text: Latex },
    Integer(i64),
    /// A number with a fraction, as its decimal text.
    Float(String),
    RawLatex(String),
    MathText { state: MathState, text: Vec<Statement> },
    LatexFunction { name: String, args: Vec<(ArgNeed, Vec<Statement>)> },
    Environment { name: String, args: Vec<(ArgNeed, Vec<Statement>)>, text: Latex },
    /// The opening half of an environment that is not closed in the same
    /// group.
    BeginPhantomEnvironment {
        name: String,
        args: Vec<(ArgNeed, Vec<Statement>)>,
        add_newline: bool,
    },
    /// The closing half of such an environment.
    EndPhantomEnvironment { name: String },
    FunctionDefine {
        kind: FunctionDefKind,
        name: String,
        args: String,
        trim: TrimWhitespace,
        body: Latex,
    },
    EnvironmentDefine {
        is_redefine: bool,
        name: String,
        args_num: u8,
        optional_arg: Option<Latex>,
        trim: TrimWhitespace,
        begin_part: Latex,
        end_part: Latex,
    },
    /// A script for the interpreter. It may take in the sources exported
    /// under the labels of `pycode_import`, and put its own source under
    /// the label `pycode_export`.
    PythonCode {
        pycode_span: Span,
        pycode_import: Option<Vec<String>>,
        pycode_export: Option<String>,
        code: String,
    },
}

} // verus!
