use cmpr::config::{Config, Diagnostic, ErrorKind, Mode};
use cmpr::parser::parse;
use cmpr::token::{classify, TokenKind};

fn toks(xs: &[&str]) -> Vec<String> {
    xs.iter().map(|s| s.to_string()).collect()
}

fn parsed(xs: &[&str]) -> Config {
    parse(&toks(xs))
}

fn error_kind(c: &Config) -> Option<ErrorKind> {
    c.error.as_ref().map(|d| d.kind)
}

#[test]
fn classify_recognizes_every_flag_spelling() {
    assert_eq!(classify("--help"), TokenKind::Help);
    assert_eq!(classify("-h"), TokenKind::Help);
    assert_eq!(classify("--out"), TokenKind::OutputFlag);
    assert_eq!(classify("-o"), TokenKind::OutputFlag);
    assert_eq!(classify("--compress"), TokenKind::CompressFlag);
    assert_eq!(classify("-c"), TokenKind::CompressFlag);
    assert_eq!(classify("--decompress"), TokenKind::DecompressFlag);
    assert_eq!(classify("-d"), TokenKind::DecompressFlag);
    assert_eq!(classify("--bogus"), TokenKind::UnknownFlag);
    assert_eq!(classify("-x"), TokenKind::UnknownFlag);
    assert_eq!(classify("-"), TokenKind::UnknownFlag);
    assert_eq!(classify("file.txt"), TokenKind::Positional);
    assert_eq!(classify(""), TokenKind::Positional);
}

#[test]
fn mode_codes_are_the_documented_encoding() {
    assert_eq!(Mode::Unset.code(), -1);
    assert_eq!(Mode::Compress.code(), 1);
    assert_eq!(Mode::Decompress.code(), 2);
    assert_eq!(Mode::Conflict.code(), 3);
}

#[test]
fn mode_combine_is_idempotent_and_conflicts() {
    assert_eq!(Mode::Unset.combine(Mode::Compress), Mode::Compress);
    assert_eq!(Mode::Compress.combine(Mode::Compress), Mode::Compress);
    assert_eq!(Mode::Decompress.combine(Mode::Decompress), Mode::Decompress);
    assert_eq!(Mode::Compress.combine(Mode::Decompress), Mode::Conflict);
    assert_eq!(Mode::Decompress.combine(Mode::Compress), Mode::Conflict);
    assert_eq!(Mode::Conflict.combine(Mode::Compress), Mode::Conflict);
}

#[test]
fn help_flag_requests_usage() {
    let c = parsed(&["cmpr", "--help"]);
    assert!(!c.valid);
    assert!(c.usage_requested());
    assert_eq!(
        c.error,
        Some(Diagnostic { kind: ErrorKind::UsageRequested, token: Some("--help".to_string()) })
    );
}

#[test]
fn short_help_flag_requests_usage_mid_stream() {
    let c = parsed(&["cmpr", "file.txt", "-c", "-h"]);
    assert!(!c.valid);
    assert!(c.usage_requested());
    assert_eq!(
        c.error,
        Some(Diagnostic { kind: ErrorKind::UsageRequested, token: Some("-h".to_string()) })
    );
}

#[test]
fn help_after_a_terminating_error_is_not_reached() {
    let c = parsed(&["cmpr", "--bogus", "--help"]);
    assert!(!c.valid);
    assert!(!c.usage_requested());
    assert_eq!(error_kind(&c), Some(ErrorKind::UnknownOption));
}

#[test]
fn compress_invocation_is_valid() {
    let c = parsed(&["cmpr", "file.txt", "-c"]);
    assert!(c.valid);
    assert_eq!(c.input_path, Some("file.txt".to_string()));
    assert_eq!(c.output_path, None);
    assert_eq!(c.mode, Mode::Compress);
    assert_eq!(c.mode_code(), 1);
    assert_eq!(c.error, None);
    assert!(c.warnings.is_empty());
}

#[test]
fn long_compress_flag_works_too() {
    let c = parsed(&["cmpr", "file.txt", "--compress"]);
    assert!(c.valid);
    assert_eq!(c.mode_code(), 1);
}

#[test]
fn decompress_invocation_is_valid() {
    let c = parsed(&["cmpr", "file.txt", "-d"]);
    assert!(c.valid);
    assert_eq!(c.input_path, Some("file.txt".to_string()));
    assert_eq!(c.mode, Mode::Decompress);
    assert_eq!(c.mode_code(), 2);
}

#[test]
fn both_modes_conflict_in_either_order() {
    let c1 = parsed(&["cmpr", "file.txt", "-c", "-d"]);
    assert!(!c1.valid);
    assert_eq!(error_kind(&c1), Some(ErrorKind::ConflictingModes));
    assert_eq!(c1.mode_code(), 3);
    let c2 = parsed(&["cmpr", "file.txt", "-d", "-c"]);
    assert!(!c2.valid);
    assert_eq!(error_kind(&c2), Some(ErrorKind::ConflictingModes));
    assert_eq!(c2.mode_code(), 3);
}

#[test]
fn repeating_the_same_mode_flag_is_idempotent() {
    let c = parsed(&["cmpr", "file.txt", "-c", "-c"]);
    assert!(c.valid);
    assert_eq!(c.mode_code(), 1);
    let d = parsed(&["cmpr", "file.txt", "--decompress", "-d"]);
    assert!(d.valid);
    assert_eq!(d.mode_code(), 2);
}

#[test]
fn output_flag_may_precede_the_input_path() {
    let c = parsed(&["cmpr", "-o", "out.bin", "file.txt", "-c"]);
    assert!(c.valid);
    assert_eq!(c.input_path, Some("file.txt".to_string()));
    assert_eq!(c.output_path, Some("out.bin".to_string()));
    assert_eq!(c.mode_code(), 1);
}

#[test]
fn output_flag_after_the_input_path_also_works() {
    let c = parsed(&["cmpr", "file.txt", "-o", "out.bin", "-c"]);
    assert!(c.valid);
    assert_eq!(c.input_path, Some("file.txt".to_string()));
    assert_eq!(c.output_path, Some("out.bin".to_string()));
}

#[test]
fn output_flag_without_a_following_value_is_rejected() {
    let c = parsed(&["cmpr", "file.txt", "-o"]);
    assert!(!c.valid);
    assert_eq!(error_kind(&c), Some(ErrorKind::MissingOutputFollowValue));
}

#[test]
fn output_flag_answered_by_another_output_flag_is_rejected() {
    let c = parsed(&["cmpr", "file.txt", "-o", "-o"]);
    assert!(!c.valid);
    assert_eq!(
        c.error,
        Some(Diagnostic { kind: ErrorKind::MissingOutputValue, token: Some("-o".to_string()) })
    );
}

#[test]
fn output_flag_answered_by_a_mode_flag_is_rejected() {
    let c = parsed(&["cmpr", "file.txt", "-o", "-c"]);
    assert!(!c.valid);
    assert_eq!(
        c.error,
        Some(Diagnostic { kind: ErrorKind::MissingOutputValue, token: Some("-c".to_string()) })
    );
}

#[test]
fn duplicate_output_flag_is_detected_at_the_second_one() {
    let c = parsed(&["cmpr", "file.txt", "-o", "a", "-o", "b", "-c"]);
    assert!(!c.valid);
    assert_eq!(
        c.error,
        Some(Diagnostic { kind: ErrorKind::DuplicateOutputFlag, token: Some("-o".to_string()) })
    );
    assert_eq!(c.output_path, Some("a".to_string()));
}

#[test]
fn missing_input_path_is_reported() {
    let c = parsed(&["cmpr", "-c"]);
    assert!(!c.valid);
    assert_eq!(error_kind(&c), Some(ErrorKind::MissingInputPath));
    assert_eq!(c.input_path, None);
}

#[test]
fn no_mode_flag_is_reported() {
    let c = parsed(&["cmpr", "file.txt"]);
    assert!(!c.valid);
    assert_eq!(error_kind(&c), Some(ErrorKind::NoModeSelected));
    assert_eq!(c.mode_code(), -1);
}

#[test]
fn unknown_option_halts_the_scan() {
    let c = parsed(&["cmpr", "--bogus", "file.txt", "-c"]);
    assert!(!c.valid);
    assert_eq!(
        c.error,
        Some(Diagnostic { kind: ErrorKind::UnknownOption, token: Some("--bogus".to_string()) })
    );
    assert_eq!(c.input_path, None);
    assert_eq!(c.mode_code(), -1);
}

#[test]
fn empty_token_sequence_is_invalid() {
    let c = parsed(&[]);
    assert!(!c.valid);
    assert_eq!(error_kind(&c), Some(ErrorKind::MissingInputPath));
}

#[test]
fn unexpected_positional_is_a_warning_only() {
    let c = parsed(&["cmpr", "file.txt", "extra", "-c"]);
    assert!(c.valid);
    assert_eq!(c.input_path, Some("file.txt".to_string()));
    assert_eq!(c.warnings.len(), 1);
    assert_eq!(c.warnings[0].kind, ErrorKind::UnexpectedPositional);
    assert_eq!(c.warnings[0].token, Some("extra".to_string()));
}

#[test]
fn parsing_is_idempotent() {
    let input = toks(&["cmpr", "-o", "out.bin", "file.txt", "-c"]);
    let first = parse(&input);
    let second = parse(&input);
    assert_eq!(first, second);
    let bad = toks(&["cmpr", "--bogus"]);
    assert_eq!(parse(&bad), parse(&bad));
}

#[test]
fn help_as_the_zeroth_token_still_requests_usage() {
    let c = parsed(&["--help"]);
    assert!(!c.valid);
    assert!(c.usage_requested());
}
