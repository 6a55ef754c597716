//! Severities, the fixed total order on them, and the level filter.

use vstd::prelude::*;

verus! {

/// A log severity, from most verbose (`Trace`) to most severe (`Error`).
#[derive(Clone, Copy, Debug, PartialEq, Eq, Structural)]
pub enum Severity {
    Trace,
    Debug,
    Info,
    Warn,
    Error,
}

/// Position of a severity in the fixed total order; a larger rank is more severe.
pub open spec fn rank(s: Severity) -> int {
    match s {
        Severity::Trace => 0,
        Severity::Debug => 1,
        Severity::Info => 2,
        Severity::Warn => 3,
        Severity::Error => 4,
    }
}

/// The level filter: an event of severity `severity` passes a threshold
/// `threshold` exactly when it is at least as severe.
pub open spec fn spec_passes(threshold: Severity, severity: Severity) -> bool {
    rank(severity) >= rank(threshold)
}

/// Rank of a severity as a machine integer.
pub fn severity_rank(s: Severity) -> (r: u8)
    ensures
        r as int == rank(s),
{
    match s {
        Severity::Trace => 0,
        Severity::Debug => 1,
        Severity::Info => 2,
        Severity::Warn => 3,
        Severity::Error => 4,
    }
}

/// True exactly when `severity` is at least as severe as `threshold`.
pub fn passes(threshold: Severity, severity: Severity) -> (r: bool)
    ensures
        r == spec_passes(threshold, severity),
{
    severity_rank(severity) >= severity_rank(threshold)
}

/// Canonical upper-case label of a severity, as it appears in a formatted line.
pub open spec fn spec_label(s: Severity) -> Seq<char> {
    match s {
        Severity::Trace => "TRACE"@,
        Severity::Debug => "DEBUG"@,
        Severity::Info => "INFO"@,
        Severity::Warn => "WARN"@,
        Severity::Error => "ERROR"@,
    }
}

/// Canonical upper-case label of a severity.
pub fn label(s: Severity) -> (r: &'static str)
    ensures
        r@ == spec_label(s),
{
    match s {
        Severity::Trace => "TRACE",
        Severity::Debug => "DEBUG",
        Severity::Info => "INFO",
        Severity::Warn => "WARN",
        Severity::Error => "ERROR",
    }
}

/// ASCII lower-casing of one character; anything but `'A'..='Z'` is unchanged.
pub open spec fn lower_char(c: char) -> char {
    match c {
        'A' => 'a',
        'B' => 'b',
        'C' => 'c',
        'D' => 'd',
        'E' => 'e',
        'F' => 'f',
        'G' => 'g',
        'H' => 'h',
        'I' => 'i',
        'J' => 'j',
        'K' => 'k',
        'L' => 'l',
        'M' => 'm',
        'N' => 'n',
        'O' => 'o',
        'P' => 'p',
        'Q' => 'q',
        'R' => 'r',
        'S' => 's',
        'T' => 't',
        'U' => 'u',
        'V' => 'v',
        'W' => 'w',
        'X' => 'x',
        'Y' => 'y',
        'Z' => 'z',
        _ => c,
    }
}

/// ASCII lower-casing of a whole character sequence.
pub open spec fn spec_lower(s: Seq<char>) -> Seq<char> {
    s.map_values(|c: char| lower_char(c))
}

/// The severity a free-text level name stands for: the recognized names,
/// compared without regard to ASCII case, and `Error` for everything else
/// (fail open toward visibility, never toward silence).
pub open spec fn spec_severity_of(name: Seq<char>) -> Severity {
    if spec_lower(name) == "debug"@ {
        Severity::Debug
    } else if spec_lower(name) == "error"@ {
        Severity::Error
    } else if spec_lower(name) == "warn"@ {
        Severity::Warn
    } else if spec_lower(name) == "info"@ {
        Severity::Info
    } else if spec_lower(name) == "trace"@ {
        Severity::Trace
    } else {
        Severity::Error
    }
}

/// ASCII lower-casing of one character.
fn to_lower(c: char) -> (r: char)
    ensures
        r == lower_char(c),
{
    match c {
        'A' => 'a',
        'B' => 'b',
        'C' => 'c',
        'D' => 'd',
        'E' => 'e',
        'F' => 'f',
        'G' => 'g',
        'H' => 'h',
        'I' => 'i',
        'J' => 'j',
        'K' => 'k',
        'L' => 'l',
        'M' => 'm',
        'N' => 'n',
        'O' => 'o',
        'P' => 'p',
        'Q' => 'q',
        'R' => 'r',
        'S' => 's',
        'T' => 't',
        'U' => 'u',
        'V' => 'v',
        'W' => 'w',
        'X' => 'x',
        'Y' => 'y',
        'Z' => 'z',
        _ => c,
    }
}

/// True exactly when `s`, lower-cased, is the word `word`.
fn matches_lower(s: &str, word: &str) -> (r: bool)
    ensures
        r == (spec_lower(s@) == word@),
{
    let n = s.unicode_len();
    if n != word.unicode_len() {
        proof {
            assert(spec_lower(s@).len() == s@.len());
        }
        return false;
    }
    let mut i: usize = 0;
    while i < n
        invariant
            i <= n,
            n == s@.len(),
            n == word@.len(),
            forall|j: int| 0 <= j < i ==> spec_lower(s@)[j] == word@[j],
        decreases n - i,
    {
        let c = to_lower(s.get_char(i));
        if c != word.get_char(i) {
            proof {
                assert(spec_lower(s@)[i as int] != word@[i as int]);
            }
            return false;
        }
        i = i + 1;
    }
    proof {
        assert(spec_lower(s@) =~= word@);
    }
    true
}

/// Maps a free-text level name to its severity; an unrecognized name maps to
/// `Error` rather than failing.
pub fn severity_from_name(name: &str) -> (r: Severity)
    ensures
        r == spec_severity_of(name@),
{
    if matches_lower(name, "debug") {
        Severity::Debug
    } else if matches_lower(name, "error") {
        Severity::Error
    } else if matches_lower(name, "warn") {
        Severity::Warn
    } else if matches_lower(name, "info") {
        Severity::Info
    } else if matches_lower(name, "trace") {
        Severity::Trace
    } else {
        Severity::Error
    }
}

} // verus!
