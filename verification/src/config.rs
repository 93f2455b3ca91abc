//! The parser's result type: the validated configuration, the mode selector
//! and the structured diagnostics.

use vstd::prelude::*;

verus! {

/// The operation selected by the mode flags, accumulated flag by flag.
#[derive(Clone, Copy, Debug, PartialEq, Eq, Structural)]
pub enum Mode {
    /// No mode flag was seen.
    Unset,
    /// Only compression was requested.
    Compress,
    /// Only decompression was requested.
    Decompress,
    /// Both compression and decompression were requested.
    Conflict,
}

impl Mode {
    /// How a further mode request combines with what was seen so far:
    /// repeating the same mode is idempotent, two different concrete modes
    /// conflict, and a conflict is never undone.
    pub open spec fn spec_combine(self, other: Mode) -> Mode {
        match (self, other) {
            (Mode::Unset, m) => m,
            (m, Mode::Unset) => m,
            (Mode::Conflict, _) => Mode::Conflict,
            (_, Mode::Conflict) => Mode::Conflict,
            (a, b) => if a == b {
                a
            } else {
                Mode::Conflict
            },
        }
    }

    /// Combine two mode selections.
    pub fn combine(self, other: Mode) -> (r: Mode)
        ensures
            r == self.spec_combine(other),
    {
        match (self, other) {
            (Mode::Unset, m) => m,
            (m, Mode::Unset) => m,
            (Mode::Conflict, _) => Mode::Conflict,
            (_, Mode::Conflict) => Mode::Conflict,
            (a, b) => if a == b {
                a
            } else {
                Mode::Conflict
            },
        }
    }

    /// The integer encoding of a final mode value: -1 when no mode was
    /// selected, 1 for compress, 2 for decompress, 3 when both were given.
    pub open spec fn spec_code(self) -> int {
        match self {
            Mode::Unset => -1,
            Mode::Compress => 1,
            Mode::Decompress => 2,
            Mode::Conflict => 3,
        }
    }

    /// The integer encoding of this mode value.
    pub fn code(self) -> (c: i32)
        ensures
            c as int == self.spec_code(),
    {
        match self {
            Mode::Unset => -1,
            Mode::Compress => 1,
            Mode::Decompress => 2,
            Mode::Conflict => 3,
        }
    }
}

/// Everything the parser can report.  All kinds but `UnexpectedPositional`
/// are fatal: they make the configuration invalid.
#[derive(Clone, Copy, Debug, PartialEq, Eq, Structural)]
pub enum ErrorKind {
    /// A help flag was seen; the caller should print the usage text.
    UsageRequested,
    /// An unrecognized flag-like token.
    UnknownOption,
    /// An output flag or a mode flag arrived while a value for `--out` was
    /// still pending.
    MissingOutputValue,
    /// The output flag was given more than once.
    DuplicateOutputFlag,
    /// A positional token appeared where none was expected (a warning).
    UnexpectedPositional,
    /// No positional input path was supplied.
    MissingInputPath,
    /// The token stream ended while a value for `--out` was still pending.
    MissingOutputFollowValue,
    /// Neither compress nor decompress was requested.
    NoModeSelected,
    /// Both compress and decompress were requested.
    ConflictingModes,
}

/// One diagnostic: its kind and, for diagnostics raised at a token, the
/// offending token.
#[derive(Clone, Debug, PartialEq, Eq)]
pub struct Diagnostic {
    /// What went wrong.
    pub kind: ErrorKind,
    /// The token at which it was detected, if it was detected at one.
    pub token: Option<String>,
}

/// The mathematical image of a `Diagnostic`.
#[verifier::ext_equal]
pub struct DiagnosticView {
    /// What went wrong.
    pub kind: ErrorKind,
    /// The token at which it was detected, if it was detected at one.
    pub token: Option<Seq<char>>,
}

impl View for Diagnostic {
    type V = DiagnosticView;

    open spec fn view(&self) -> DiagnosticView {
        DiagnosticView { kind: self.kind, token: self.token.deep_view() }
    }
}

impl DeepView for Diagnostic {
    type V = DiagnosticView;

    open spec fn deep_view(&self) -> DiagnosticView {
        self.view()
    }
}

/// The parser's output: a configuration for the compression engine, valid
/// only if the whole token stream satisfied every invariant.
#[derive(Clone, Debug, PartialEq, Eq)]
pub struct Config {
    /// Whether the invocation may be acted on.
    pub valid: bool,
    /// The input file path; present on every valid configuration.
    pub input_path: Option<String>,
    /// The output file path; optional even on a valid configuration.
    pub output_path: Option<String>,
    /// The accumulated mode selection.
    pub mode: Mode,
    /// The fatal diagnostic that invalidated the configuration, if any.
    pub error: Option<Diagnostic>,
    /// Non-fatal diagnostics, in the order they arose.
    pub warnings: Vec<Diagnostic>,
}

/// The mathematical image of a `Config`.
#[verifier::ext_equal]
pub struct ConfigView {
    /// Whether the invocation may be acted on.
    pub valid: bool,
    /// The input file path.
    pub input_path: Option<Seq<char>>,
    /// The output file path.
    pub output_path: Option<Seq<char>>,
    /// The accumulated mode selection.
    pub mode: Mode,
    /// The fatal diagnostic, if any.
    pub error: Option<DiagnosticView>,
    /// Non-fatal diagnostics, in order.
    pub warnings: Seq<DiagnosticView>,
}

impl View for Config {
    type V = ConfigView;

    open spec fn view(&self) -> ConfigView {
        ConfigView {
            valid: self.valid,
            input_path: self.input_path.deep_view(),
            output_path: self.output_path.deep_view(),
            mode: self.mode,
            error: self.error.deep_view(),
            warnings: self.warnings.deep_view(),
        }
    }
}

impl Config {
    /// The integer encoding of the selected mode: -1 when no mode was
    /// selected, 1 for compress, 2 for decompress, 3 when both were given.
    pub fn mode_code(&self) -> (c: i32)
        ensures
            c as int == self.mode.spec_code(),
    {
        self.mode.code()
    }

    /// Whether the help flag short-circuited the parse, so that the caller
    /// owes the user the usage text.
    pub fn usage_requested(&self) -> (r: bool)
        ensures
            r == (self@.error matches Some(d) && d.kind == ErrorKind::UsageRequested),
    {
        match &self.error {
            Some(d) => d.kind == ErrorKind::UsageRequested,
            None => false,
        }
    }
}

} // verus!
