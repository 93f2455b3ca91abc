//! The argument parser: a single left-to-right scan over the invocation
//! tokens, specified as a pure state machine and proved to implement it.
//!
//! The zeroth token is the program's own path; it is consumed as a positional
//! placeholder.  A fatal diagnostic halts the scan at once; the finalization
//! checks run only when the scan completed normally.

use vstd::prelude::*;
use crate::config::{Config, ConfigView, Diagnostic, DiagnosticView, ErrorKind, Mode};
use crate::token::{classify, spec_classify, TokenKind};

verus! {

/// What kind of token the scan expects next in a positional slot.
#[derive(Clone, Copy, Debug, PartialEq, Eq, Structural)]
pub enum Cursor {
    /// The program's own path, always the zeroth token.
    ExpectExecutable,
    /// The input file path.
    ExpectInput,
    /// The value of a pending `--out` flag.
    ExpectOutputValue,
    /// No further positional token is expected.
    ExpectNone,
}

/// The full state of the scan: the configuration built so far, the cursor,
/// and whether a fatal diagnostic halted the scan.
pub struct ScanState {
    /// The configuration built so far.
    pub config: ConfigView,
    /// The positional slot expected next.
    pub cursor: Cursor,
    /// Whether the scan has stopped early.
    pub halted: bool,
}

/// The state in which the scan of every token sequence begins.
pub open spec fn init_state() -> ScanState {
    ScanState {
        config: ConfigView {
            valid: true,
            input_path: None,
            output_path: None,
            mode: Mode::Unset,
            error: None,
            warnings: Seq::empty(),
        },
        cursor: Cursor::ExpectExecutable,
        halted: false,
    }
}

/// Record the fatal diagnostic `kind` at token `tok` and halt the scan.
pub open spec fn halt_with(st: ScanState, kind: ErrorKind, tok: Seq<char>) -> ScanState {
    ScanState {
        config: ConfigView {
            valid: false,
            error: Some(DiagnosticView { kind, token: Some(tok) }),
            ..st.config
        },
        cursor: st.cursor,
        halted: true,
    }
}

/// A mode flag: fold the requested mode in; if a value for `--out` was
/// pending, the flag cannot satisfy it and the scan halts.
pub open spec fn mode_step(st: ScanState, m: Mode, tok: Seq<char>) -> ScanState {
    let folded = ScanState {
        config: ConfigView { mode: st.config.mode.spec_combine(m), ..st.config },
        ..st
    };
    if st.cursor == Cursor::ExpectOutputValue {
        halt_with(folded, ErrorKind::MissingOutputValue, tok)
    } else {
        folded
    }
}

/// A positional token, assigned according to the cursor.
pub open spec fn positional_step(st: ScanState, tok: Seq<char>) -> ScanState {
    match st.cursor {
        Cursor::ExpectExecutable => ScanState { cursor: Cursor::ExpectInput, ..st },
        Cursor::ExpectInput => ScanState {
            config: ConfigView { input_path: Some(tok), ..st.config },
            cursor: Cursor::ExpectNone,
            ..st
        },
        Cursor::ExpectOutputValue => ScanState {
            config: ConfigView { output_path: Some(tok), ..st.config },
            cursor: if st.config.input_path is None {
                Cursor::ExpectInput
            } else {
                Cursor::ExpectNone
            },
            ..st
        },
        Cursor::ExpectNone => ScanState {
            config: ConfigView {
                warnings: st.config.warnings.push(
                    DiagnosticView { kind: ErrorKind::UnexpectedPositional, token: Some(tok) },
                ),
                ..st.config
            },
            ..st
        },
    }
}

/// One transition of the scan: how the state changes at one token.
pub open spec fn step(st: ScanState, tok: Seq<char>) -> ScanState {
    if st.halted {
        st
    } else {
        match spec_classify(tok) {
            TokenKind::Help => halt_with(st, ErrorKind::UsageRequested, tok),
            TokenKind::UnknownFlag => halt_with(st, ErrorKind::UnknownOption, tok),
            TokenKind::OutputFlag => {
                if st.cursor == Cursor::ExpectOutputValue {
                    halt_with(st, ErrorKind::MissingOutputValue, tok)
                } else if st.config.output_path is Some {
                    halt_with(st, ErrorKind::DuplicateOutputFlag, tok)
                } else {
                    ScanState { cursor: Cursor::ExpectOutputValue, ..st }
                }
            },
            TokenKind::CompressFlag => mode_step(st, Mode::Compress, tok),
            TokenKind::DecompressFlag => mode_step(st, Mode::Decompress, tok),
            TokenKind::Positional => positional_step(st, tok),
        }
    }
}

/// The scan of a whole token sequence, one `step` per token.
pub open spec fn scan(st: ScanState, toks: Seq<Seq<char>>) -> ScanState
    decreases toks.len(),
{
    if toks.len() == 0 {
        st
    } else {
        scan(step(st, toks[0]), toks.drop_first())
    }
}

/// Mark the configuration invalid with a diagnostic that is tied to no
/// single token.
pub open spec fn invalid_with(c: ConfigView, kind: ErrorKind) -> ConfigView {
    ConfigView { valid: false, error: Some(DiagnosticView { kind, token: None }), ..c }
}

/// The post-scan validation pass.  It runs only when the scan completed
/// normally, and stops at the first violated invariant: a still-pending
/// positional slot, then a missing mode, then conflicting modes.
pub open spec fn finalize(st: ScanState) -> ConfigView {
    if st.halted {
        st.config
    } else if st.cursor != Cursor::ExpectNone {
        if st.config.input_path is None {
            invalid_with(st.config, ErrorKind::MissingInputPath)
        } else {
            invalid_with(st.config, ErrorKind::MissingOutputFollowValue)
        }
    } else if st.config.mode == Mode::Unset {
        invalid_with(st.config, ErrorKind::NoModeSelected)
    } else if st.config.mode == Mode::Conflict {
        invalid_with(st.config, ErrorKind::ConflictingModes)
    } else {
        st.config
    }
}

/// What parsing a token sequence yields: the scan from the initial state,
/// then the validation pass.
pub open spec fn spec_parse(toks: Seq<Seq<char>>) -> ConfigView {
    finalize(scan(init_state(), toks))
}

/// A halted state absorbs every further token.
pub proof fn lemma_scan_halted(st: ScanState, toks: Seq<Seq<char>>)
    requires
        st.halted,
    ensures
        scan(st, toks) == st,
    decreases toks.len(),
{
    if toks.len() > 0 {
        lemma_scan_halted(st, toks.drop_first());
    }
}

/// A step that halts at token `i` decides the whole scan.
pub proof fn lemma_halting_step_decides_scan(pre: ScanState, toks: Seq<Seq<char>>, i: int)
    requires
        0 <= i < toks.len(),
        scan(pre, toks.skip(i)) == scan(init_state(), toks),
        step(pre, toks[i]).halted,
    ensures
        scan(init_state(), toks) == step(pre, toks[i]),
{
    assert(toks.skip(i)[0] == toks[i]);
    assert(toks.skip(i).drop_first() =~= toks.skip(i + 1));
    lemma_scan_halted(step(pre, toks[i]), toks.skip(i + 1));
}

/// Scanning a concatenation scans the two parts in order.
pub proof fn lemma_scan_append(st: ScanState, a: Seq<Seq<char>>, b: Seq<Seq<char>>)
    ensures
        scan(st, a + b) == scan(scan(st, a), b),
    decreases a.len(),
{
    if a.len() == 0 {
        assert(a + b =~= b);
    } else {
        assert((a + b)[0] == a[0]);
        assert((a + b).drop_first() =~= a.drop_first() + b);
        lemma_scan_append(step(st, a[0]), a.drop_first(), b);
    }
}

/// Parse a full token sequence, the program's own path included, into a
/// validated configuration.  The result is exactly what the specification
/// state machine computes from the token sequence alone, so parsing is a
/// pure function of its input.
pub fn parse(tokens: &Vec<String>) -> (r: Config)
    ensures
        r@ == spec_parse(tokens.deep_view()),
{
    let ghost toks = tokens.deep_view();
    let mut config = Config {
        valid: true,
        input_path: None,
        output_path: None,
        mode: Mode::Unset,
        error: None,
        warnings: Vec::new(),
    };
    let mut cursor = Cursor::ExpectExecutable;
    let mut i: usize = 0;
    proof {
        assert(config@ =~= init_state().config);
        assert(toks.skip(0) =~= toks);
    }
    while i < tokens.len()
        invariant
            i <= tokens.len(),
            toks == tokens.deep_view(),
            toks.len() == tokens@.len(),
            scan(ScanState { config: config@, cursor, halted: false }, toks.skip(i as int))
                == scan(init_state(), toks),
        decreases tokens.len() - i,
    {
        let ghost pre = ScanState { config: config@, cursor, halted: false };
        proof {
            assert(toks.skip(i as int)[0] == toks[i as int]);
            assert(toks.skip(i as int).drop_first() =~= toks.skip(i as int + 1));
            assert(toks[i as int] == tokens@[i as int]@);
        }
        let arg = &tokens[i];
        match classify(arg.as_str()) {
            TokenKind::Help => {
                config.valid = false;
                config.error = Some(
                    Diagnostic { kind: ErrorKind::UsageRequested, token: Some(arg.clone()) },
                );
                proof {
                    assert(config@ =~= step(pre, toks[i as int]).config);
                    lemma_halting_step_decides_scan(pre, toks, i as int);
                }
                return config;
            },
            TokenKind::UnknownFlag => {
                config.valid = false;
                config.error = Some(
                    Diagnostic { kind: ErrorKind::UnknownOption, token: Some(arg.clone()) },
                );
                proof {
                    assert(config@ =~= step(pre, toks[i as int]).config);
                    lemma_halting_step_decides_scan(pre, toks, i as int);
                }
                return config;
            },
            TokenKind::OutputFlag => {
                if cursor == Cursor::ExpectOutputValue {
                    config.valid = false;
                    config.error = Some(
                        Diagnostic { kind: ErrorKind::MissingOutputValue, token: Some(arg.clone()) },
                    );
                    proof {
                        assert(config@ =~= step(pre, toks[i as int]).config);
                        lemma_halting_step_decides_scan(pre, toks, i as int);
                    }
                    return config;
                }
                if config.output_path.is_some() {
                    config.valid = false;
                    config.error = Some(
                        Diagnostic { kind: ErrorKind::DuplicateOutputFlag, token: Some(arg.clone()) },
                    );
                    proof {
                        assert(config@ =~= step(pre, toks[i as int]).config);
                        lemma_halting_step_decides_scan(pre, toks, i as int);
                    }
                    return config;
                }
                cursor = Cursor::ExpectOutputValue;
            },
            TokenKind::CompressFlag => {
                config.mode = config.mode.combine(Mode::Compress);
                if cursor == Cursor::ExpectOutputValue {
                    config.valid = false;
                    config.error = Some(
                        Diagnostic { kind: ErrorKind::MissingOutputValue, token: Some(arg.clone()) },
                    );
                    proof {
                        assert(config@ =~= step(pre, toks[i as int]).config);
                        lemma_halting_step_decides_scan(pre, toks, i as int);
                    }
                    return config;
                }
            },
            TokenKind::DecompressFlag => {
                config.mode = config.mode.combine(Mode::Decompress);
                if cursor == Cursor::ExpectOutputValue {
                    config.valid = false;
                    config.error = Some(
                        Diagnostic { kind: ErrorKind::MissingOutputValue, token: Some(arg.clone()) },
                    );
                    proof {
                        assert(config@ =~= step(pre, toks[i as int]).config);
                        lemma_halting_step_decides_scan(pre, toks, i as int);
                    }
                    return config;
                }
            },
            TokenKind::Positional => {
                match cursor {
                    Cursor::ExpectExecutable => {
                        cursor = Cursor::ExpectInput;
                    },
                    Cursor::ExpectInput => {
                        config.input_path = Some(arg.clone());
                        cursor = Cursor::ExpectNone;
                    },
                    Cursor::ExpectOutputValue => {
                        config.output_path = Some(arg.clone());
                        cursor = if config.input_path.is_none() {
                            Cursor::ExpectInput
                        } else {
                            Cursor::ExpectNone
                        };
                    },
                    Cursor::ExpectNone => {
                        config.warnings.push(
                            Diagnostic {
                                kind: ErrorKind::UnexpectedPositional,
                                token: Some(arg.clone()),
                            },
                        );
                        proof {
                            assert(config.warnings.deep_view() =~= pre.config.warnings.push(
                                DiagnosticView {
                                    kind: ErrorKind::UnexpectedPositional,
                                    token: Some(toks[i as int]),
                                },
                            ));
                        }
                    },
                }
            },
        }
        proof {
            assert(config@ =~= step(pre, toks[i as int]).config);
            assert(ScanState { config: config@, cursor, halted: false }
                == step(pre, toks[i as int]));
        }
        i = i + 1;
    }
    proof {
        assert(toks.skip(i as int) =~= Seq::<Seq<char>>::empty());
        assert(scan(init_state(), toks)
            == ScanState { config: config@, cursor, halted: false });
    }
    if cursor != Cursor::ExpectNone {
        config.valid = false;
        if config.input_path.is_none() {
            config.error = Some(Diagnostic { kind: ErrorKind::MissingInputPath, token: None });
        } else {
            config.error = Some(
                Diagnostic { kind: ErrorKind::MissingOutputFollowValue, token: None },
            );
        }
    } else if config.mode == Mode::Unset {
        config.valid = false;
        config.error = Some(Diagnostic { kind: ErrorKind::NoModeSelected, token: None });
    } else if config.mode == Mode::Conflict {
        config.valid = false;
        config.error = Some(Diagnostic { kind: ErrorKind::ConflictingModes, token: None });
    }
    config
}

} // verus!
