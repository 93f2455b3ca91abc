//! Token classification: deciding what kind of command-line token a string is.

use vstd::prelude::*;
use vstd::string::StrSliceExecFns;

verus! {

/// The classes of command-line tokens the parser distinguishes.
#[derive(Clone, Copy, Debug, PartialEq, Eq, Structural)]
pub enum TokenKind {
    /// `--help` or `-h`.
    Help,
    /// `--out` or `-o`: the next token names the output file.
    OutputFlag,
    /// `--compress` or `-c`.
    CompressFlag,
    /// `--decompress` or `-d`.
    DecompressFlag,
    /// Any other token that begins with `-`.
    UnknownFlag,
    /// Any other token: a positional value.
    Positional,
}

/// The class of a token, as a pure function of its character sequence.
pub open spec fn spec_classify(t: Seq<char>) -> TokenKind {
    if t == "--help"@ || t == "-h"@ {
        TokenKind::Help
    } else if t == "--out"@ || t == "-o"@ {
        TokenKind::OutputFlag
    } else if t == "--compress"@ || t == "-c"@ {
        TokenKind::CompressFlag
    } else if t == "--decompress"@ || t == "-d"@ {
        TokenKind::DecompressFlag
    } else if t.len() > 0 && t[0] == '-' {
        TokenKind::UnknownFlag
    } else {
        TokenKind::Positional
    }
}

/// Character-by-character string equality.
fn str_eq(a: &str, b: &str) -> (r: bool)
    ensures
        r == (a@ == b@),
{
    let n: usize = a.unicode_len();
    if n != b.unicode_len() {
        return false;
    }
    let mut i: usize = 0;
    while i < n
        invariant
            n == a@.len(),
            n == b@.len(),
            i <= n,
            forall|j: int| 0 <= j < i ==> a@[j] == b@[j],
        decreases n - i,
    {
        if a.get_char(i) != b.get_char(i) {
            return false;
        }
        i = i + 1;
    }
    proof {
        assert(a@ =~= b@);
    }
    true
}

/// Whether the token begins with the flag-prefix character `-`.
fn starts_with_dash(t: &str) -> (r: bool)
    ensures
        r == (t@.len() > 0 && t@[0] == '-'),
{
    if t.unicode_len() == 0 {
        false
    } else {
        t.get_char(0) == '-'
    }
}

/// Classify one raw token.
pub fn classify(t: &str) -> (k: TokenKind)
    ensures
        k == spec_classify(t@),
{
    if str_eq(t, "--help") || str_eq(t, "-h") {
        TokenKind::Help
    } else if str_eq(t, "--out") || str_eq(t, "-o") {
        TokenKind::OutputFlag
    } else if str_eq(t, "--compress") || str_eq(t, "-c") {
        TokenKind::CompressFlag
    } else if str_eq(t, "--decompress") || str_eq(t, "-d") {
        TokenKind::DecompressFlag
    } else if starts_with_dash(t) {
        TokenKind::UnknownFlag
    } else {
        TokenKind::Positional
    }
}

} // verus!
