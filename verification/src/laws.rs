//! Laws of the parser: what holds of whole families of invocations.
//!
//! Each lemma quantifies over the tokens of an invocation shape and states
//! what `spec_parse` yields for it; the contract of [`crate::parser::parse`]
//! carries these facts over to the executable parser.

use vstd::prelude::*;
use crate::config::{ConfigView, DiagnosticView, ErrorKind, Mode};
use crate::parser::{
    init_state, lemma_scan_append, lemma_scan_halted, scan, spec_parse, step, Cursor, ScanState,
};
use crate::token::{spec_classify, TokenKind};

verus! {

/// Law: a help token that the scan reaches makes the whole result invalid,
/// and the one fatal diagnostic is the usage request at that token, so the
/// usage text is owed exactly once.
pub proof fn lemma_help_requests_usage(toks: Seq<Seq<char>>, i: int)
    requires
        0 <= i < toks.len(),
        spec_classify(toks[i]) == TokenKind::Help,
        !scan(init_state(), toks.take(i)).halted,
    ensures
        !spec_parse(toks).valid,
        spec_parse(toks).error == Some(
            DiagnosticView { kind: ErrorKind::UsageRequested, token: Some(toks[i]) },
        ),
{
    let pre = scan(init_state(), toks.take(i));
    assert(toks =~= toks.take(i) + toks.skip(i));
    lemma_scan_append(init_state(), toks.take(i), toks.skip(i));
    assert(toks.skip(i)[0] == toks[i]);
    assert(toks.skip(i).drop_first() =~= toks.skip(i + 1));
    let h = step(pre, toks[i]);
    lemma_scan_halted(h, toks.skip(i + 1));
}

/// Law: an invocation of the shape `[prog, path, compress-flag]` is valid,
/// selects compression (integer code 1), takes `path` as the input path and
/// leaves the output path unset.
pub proof fn lemma_compress_invocation(prog: Seq<char>, path: Seq<char>, flag: Seq<char>)
    requires
        spec_classify(prog) == TokenKind::Positional,
        spec_classify(path) == TokenKind::Positional,
        spec_classify(flag) == TokenKind::CompressFlag,
    ensures
        ({
            let r = spec_parse(seq![prog, path, flag]);
            r.valid && r.input_path == Some(path) && r.output_path is None && r.mode
                == Mode::Compress && r.mode.spec_code() == 1 && r.error is None
        }),
{
    let toks = seq![prog, path, flag];
    assert(toks.drop_first() =~= seq![path, flag]);
    assert(seq![path, flag].drop_first() =~= seq![flag]);
    assert(seq![flag].drop_first() =~= Seq::<Seq<char>>::empty());
    reveal_with_fuel(scan, 5);
}

/// Law: an invocation of the shape `[prog, path, decompress-flag]` is valid
/// and selects decompression (integer code 2).
pub proof fn lemma_decompress_invocation(prog: Seq<char>, path: Seq<char>, flag: Seq<char>)
    requires
        spec_classify(prog) == TokenKind::Positional,
        spec_classify(path) == TokenKind::Positional,
        spec_classify(flag) == TokenKind::DecompressFlag,
    ensures
        ({
            let r = spec_parse(seq![prog, path, flag]);
            r.valid && r.input_path == Some(path) && r.output_path is None && r.mode
                == Mode::Decompress && r.mode.spec_code() == 2 && r.error is None
        }),
{
    let toks = seq![prog, path, flag];
    assert(toks.drop_first() =~= seq![path, flag]);
    assert(seq![path, flag].drop_first() =~= seq![flag]);
    assert(seq![flag].drop_first() =~= Seq::<Seq<char>>::empty());
    reveal_with_fuel(scan, 5);
}

/// Law: giving both concrete modes, in either order, invalidates the
/// configuration with `ConflictingModes`.
pub proof fn lemma_conflicting_modes(prog: Seq<char>, path: Seq<char>, f1: Seq<char>, f2: Seq<char>)
    requires
        spec_classify(prog) == TokenKind::Positional,
        spec_classify(path) == TokenKind::Positional,
        spec_classify(f1) == TokenKind::CompressFlag && spec_classify(f2)
            == TokenKind::DecompressFlag || spec_classify(f1) == TokenKind::DecompressFlag
            && spec_classify(f2) == TokenKind::CompressFlag,
    ensures
        ({
            let r = spec_parse(seq![prog, path, f1, f2]);
            !r.valid && r.mode == Mode::Conflict && r.error == Some(
                DiagnosticView { kind: ErrorKind::ConflictingModes, token: None },
            )
        }),
{
    let toks = seq![prog, path, f1, f2];
    assert(toks.drop_first() =~= seq![path, f1, f2]);
    assert(seq![path, f1, f2].drop_first() =~= seq![f1, f2]);
    assert(seq![f1, f2].drop_first() =~= seq![f2]);
    assert(seq![f2].drop_first() =~= Seq::<Seq<char>>::empty());
    reveal_with_fuel(scan, 6);
}

/// Law: the output flag may precede the input path: an invocation of the
/// shape `[prog, out-flag, out, path, compress-flag]` is valid with `path`
/// as input path and `out` as output path.
pub proof fn lemma_output_flag_first(
    prog: Seq<char>,
    oflag: Seq<char>,
    out: Seq<char>,
    path: Seq<char>,
    cflag: Seq<char>,
)
    requires
        spec_classify(prog) == TokenKind::Positional,
        spec_classify(oflag) == TokenKind::OutputFlag,
        spec_classify(out) == TokenKind::Positional,
        spec_classify(path) == TokenKind::Positional,
        spec_classify(cflag) == TokenKind::CompressFlag,
    ensures
        ({
            let r = spec_parse(seq![prog, oflag, out, path, cflag]);
            r.valid && r.input_path == Some(path) && r.output_path == Some(out) && r.mode
                == Mode::Compress && r.error is None
        }),
{
    let toks = seq![prog, oflag, out, path, cflag];
    assert(toks.drop_first() =~= seq![oflag, out, path, cflag]);
    assert(seq![oflag, out, path, cflag].drop_first() =~= seq![out, path, cflag]);
    assert(seq![out, path, cflag].drop_first() =~= seq![path, cflag]);
    assert(seq![path, cflag].drop_first() =~= seq![cflag]);
    assert(seq![cflag].drop_first() =~= Seq::<Seq<char>>::empty());
    reveal_with_fuel(scan, 7);
}

/// Law: a token stream that ends while a value for the output flag is still
/// pending is invalid with `MissingOutputFollowValue`.
pub proof fn lemma_missing_output_follow_value(prog: Seq<char>, path: Seq<char>, oflag: Seq<char>)
    requires
        spec_classify(prog) == TokenKind::Positional,
        spec_classify(path) == TokenKind::Positional,
        spec_classify(oflag) == TokenKind::OutputFlag,
    ensures
        ({
            let r = spec_parse(seq![prog, path, oflag]);
            !r.valid && r.input_path == Some(path) && r.error == Some(
                DiagnosticView { kind: ErrorKind::MissingOutputFollowValue, token: None },
            )
        }),
{
    let toks = seq![prog, path, oflag];
    assert(toks.drop_first() =~= seq![path, oflag]);
    assert(seq![path, oflag].drop_first() =~= seq![oflag]);
    assert(seq![oflag].drop_first() =~= Seq::<Seq<char>>::empty());
    reveal_with_fuel(scan, 5);
}

/// Law: a second output flag is rejected at the token where it appears:
/// `[prog, path, out-flag, a, out-flag, b, compress-flag]` is invalid with
/// `DuplicateOutputFlag` at the second output flag.
pub proof fn lemma_duplicate_output_flag(
    prog: Seq<char>,
    path: Seq<char>,
    o1: Seq<char>,
    a: Seq<char>,
    o2: Seq<char>,
    b: Seq<char>,
    cflag: Seq<char>,
)
    requires
        spec_classify(prog) == TokenKind::Positional,
        spec_classify(path) == TokenKind::Positional,
        spec_classify(o1) == TokenKind::OutputFlag,
        spec_classify(a) == TokenKind::Positional,
        spec_classify(o2) == TokenKind::OutputFlag,
    ensures
        ({
            let r = spec_parse(seq![prog, path, o1, a, o2, b, cflag]);
            !r.valid && r.error == Some(
                DiagnosticView { kind: ErrorKind::DuplicateOutputFlag, token: Some(o2) },
            )
        }),
{
    let toks = seq![prog, path, o1, a, o2, b, cflag];
    assert(toks.drop_first() =~= seq![path, o1, a, o2, b, cflag]);
    assert(seq![path, o1, a, o2, b, cflag].drop_first() =~= seq![o1, a, o2, b, cflag]);
    assert(seq![o1, a, o2, b, cflag].drop_first() =~= seq![a, o2, b, cflag]);
    assert(seq![a, o2, b, cflag].drop_first() =~= seq![o2, b, cflag]);
    assert(seq![o2, b, cflag].drop_first() =~= seq![b, cflag]);
    assert(seq![b, cflag].drop_first() =~= seq![cflag]);
    assert(seq![cflag].drop_first() =~= Seq::<Seq<char>>::empty());
    reveal_with_fuel(scan, 9);
}

/// Law: an invocation without any positional path, `[prog, compress-flag]`,
/// is invalid with `MissingInputPath`.
pub proof fn lemma_missing_input_path(prog: Seq<char>, cflag: Seq<char>)
    requires
        spec_classify(prog) == TokenKind::Positional,
        spec_classify(cflag) == TokenKind::CompressFlag,
    ensures
        ({
            let r = spec_parse(seq![prog, cflag]);
            !r.valid && r.input_path is None && r.error == Some(
                DiagnosticView { kind: ErrorKind::MissingInputPath, token: None },
            )
        }),
{
    let toks = seq![prog, cflag];
    assert(toks.drop_first() =~= seq![cflag]);
    assert(seq![cflag].drop_first() =~= Seq::<Seq<char>>::empty());
    reveal_with_fuel(scan, 4);
}

/// Law: an invocation without any mode flag, `[prog, path]`, is invalid
/// with `NoModeSelected`.
pub proof fn lemma_no_mode_selected(prog: Seq<char>, path: Seq<char>)
    requires
        spec_classify(prog) == TokenKind::Positional,
        spec_classify(path) == TokenKind::Positional,
    ensures
        ({
            let r = spec_parse(seq![prog, path]);
            !r.valid && r.input_path == Some(path) && r.mode == Mode::Unset && r.error == Some(
                DiagnosticView { kind: ErrorKind::NoModeSelected, token: None },
            )
        }),
{
    let toks = seq![prog, path];
    assert(toks.drop_first() =~= seq![path]);
    assert(seq![path].drop_first() =~= Seq::<Seq<char>>::empty());
    reveal_with_fuel(scan, 4);
}

/// Law: an unrecognized flag-like token halts the scan where it stands:
/// `[prog, bogus, path, compress-flag]` is invalid with `UnknownOption` at
/// `bogus`, and the later tokens are never consumed.
pub proof fn lemma_unknown_option(
    prog: Seq<char>,
    bogus: Seq<char>,
    path: Seq<char>,
    cflag: Seq<char>,
)
    requires
        spec_classify(prog) == TokenKind::Positional,
        spec_classify(bogus) == TokenKind::UnknownFlag,
    ensures
        ({
            let r = spec_parse(seq![prog, bogus, path, cflag]);
            !r.valid && r.input_path is None && r.mode == Mode::Unset && r.error == Some(
                DiagnosticView { kind: ErrorKind::UnknownOption, token: Some(bogus) },
            )
        }),
{
    let toks = seq![prog, bogus, path, cflag];
    assert(toks.drop_first() =~= seq![bogus, path, cflag]);
    assert(seq![bogus, path, cflag].drop_first() =~= seq![path, cflag]);
    assert(seq![path, cflag].drop_first() =~= seq![cflag]);
    assert(seq![cflag].drop_first() =~= Seq::<Seq<char>>::empty());
    reveal_with_fuel(scan, 6);
}

/// What holds of every state the scan can reach: a halted scan has already
/// invalidated the configuration; before the scan halts the configuration
/// is still valid and error-free, and once no positional token is expected
/// the input path has been filled.
spec fn scan_inv(st: ScanState) -> bool {
    &&& st.halted ==> !st.config.valid
    &&& !st.halted ==> st.config.valid && st.config.error is None && (st.cursor
        == Cursor::ExpectNone ==> st.config.input_path is Some)
}

proof fn lemma_scan_preserves_inv(st: ScanState, toks: Seq<Seq<char>>)
    requires
        scan_inv(st),
    ensures
        scan_inv(scan(st, toks)),
    decreases toks.len(),
{
    if toks.len() > 0 {
        assert(scan_inv(step(st, toks[0])));
        lemma_scan_preserves_inv(step(st, toks[0]), toks.drop_first());
    }
}

/// Law: a valid configuration is fit for the compression engine: whatever
/// the token sequence was, it carries an input path, exactly one concrete
/// mode, and no fatal diagnostic.
pub proof fn lemma_valid_config_is_actionable(toks: Seq<Seq<char>>)
    ensures
        ({
            let r = spec_parse(toks);
            r.valid ==> r.input_path is Some && (r.mode == Mode::Compress || r.mode
                == Mode::Decompress) && r.error is None
        }),
{
    lemma_scan_preserves_inv(init_state(), toks);
}

/// Law: parsing is a pure function of the token sequence: the contract of
/// `parse` allows exactly one result view for a given input, so repeated
/// calls on identical input yield identical configurations.
pub proof fn lemma_parse_deterministic(
    toks1: Seq<Seq<char>>,
    toks2: Seq<Seq<char>>,
    r1: ConfigView,
    r2: ConfigView,
)
    requires
        toks1 == toks2,
        r1 == spec_parse(toks1),
        r2 == spec_parse(toks2),
    ensures
        r1 == r2,
{
}

} // verus!
