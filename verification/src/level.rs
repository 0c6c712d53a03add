//! The ordered severity level: six variants, `Error` the most severe and
//! `Trace` the least, with ordinal and name conversions and the run-time
//! emission gate.
//!
//! Gating is run-time only: every level is compiled in, and `level_enabled`
//! is the sole gate. No level is excluded from the built artifact, so the
//! zero-cost exclusion a build-time selection would give is not provided.

use vstd::prelude::*;

verus! {

/// Log severity. Declaration order fixes the ordinal: `Error` is 0 and
/// `Trace` is 5. A smaller ordinal means a more severe level.
#[derive(Clone, Copy, PartialEq, Eq, Structural, Debug, Hash, PartialOrd, Ord)]
pub enum Level {
    Error,
    Warn,
    Info,
    Verb,
    Debug,
    Trace,
}

impl Level {
    /// Position of the variant in declaration order.
    pub open spec fn ordinal(self) -> nat {
        match self {
            Level::Error => 0,
            Level::Warn => 1,
            Level::Info => 2,
            Level::Verb => 3,
            Level::Debug => 4,
            Level::Trace => 5,
        }
    }

    /// The ordinal as an executable value.
    pub fn as_ordinal(&self) -> (n: usize)
        ensures
            n == self.ordinal(),
    {
        match self {
            Level::Error => 0,
            Level::Warn => 1,
            Level::Info => 2,
            Level::Verb => 3,
            Level::Debug => 4,
            Level::Trace => 5,
        }
    }
}

/// The level with a given ordinal, if any.
pub open spec fn level_from_ordinal(n: nat) -> Option<Level> {
    if n == 0 {
        Some(Level::Error)
    } else if n == 1 {
        Some(Level::Warn)
    } else if n == 2 {
        Some(Level::Info)
    } else if n == 3 {
        Some(Level::Verb)
    } else if n == 4 {
        Some(Level::Debug)
    } else if n == 5 {
        Some(Level::Trace)
    } else {
        None
    }
}

impl Level {
    /// Exact match against each variant's ordinal; `None` for out-of-range
    /// input.
    pub fn from_ordinal(n: usize) -> (r: Option<Level>)
        ensures
            r == level_from_ordinal(n as nat),
    {
        if n == 0 {
            Some(Level::Error)
        } else if n == 1 {
            Some(Level::Warn)
        } else if n == 2 {
            Some(Level::Info)
        } else if n == 3 {
            Some(Level::Verb)
        } else if n == 4 {
            Some(Level::Debug)
        } else if n == 5 {
            Some(Level::Trace)
        } else {
            None
        }
    }
}

/// Ordinal conversion round-trips: every level is recovered from its own
/// ordinal, and every ordinal below six maps to a level that carries it.
pub proof fn lemma_from_ordinal_roundtrip(l: Level, n: nat)
    ensures
        level_from_ordinal(l.ordinal()) == Some(l),
        n < 6 ==> (level_from_ordinal(n) matches Some(m) && m.ordinal() == n),
        n >= 6 ==> level_from_ordinal(n) is None,
{
}

impl Level {
    /// Canonical capitalized name of the variant.
    pub open spec fn name_chars(self) -> Seq<char> {
        match self {
            Level::Error => seq!['E', 'r', 'r', 'o', 'r'],
            Level::Warn => seq!['W', 'a', 'r', 'n'],
            Level::Info => seq!['I', 'n', 'f', 'o'],
            Level::Verb => seq!['V', 'e', 'r', 'b'],
            Level::Debug => seq!['D', 'e', 'b', 'u', 'g'],
            Level::Trace => seq!['T', 'r', 'a', 'c', 'e'],
        }
    }

    /// Lowercase name of the variant, the key for case-insensitive parsing.
    pub open spec fn lower_name_chars(self) -> Seq<char> {
        match self {
            Level::Error => seq!['e', 'r', 'r', 'o', 'r'],
            Level::Warn => seq!['w', 'a', 'r', 'n'],
            Level::Info => seq!['i', 'n', 'f', 'o'],
            Level::Verb => seq!['v', 'e', 'r', 'b'],
            Level::Debug => seq!['d', 'e', 'b', 'u', 'g'],
            Level::Trace => seq!['t', 'r', 'a', 'c', 'e'],
        }
    }

    /// Canonical capitalized name (e.g. `"Error"`).
    pub fn to_display_string(&self) -> (r: String)
        ensures
            r@ == self.name_chars(),
    {
        match self {
            Level::Error => {
                proof {
                    reveal_strlit("Error");
                    assert("Error"@ =~= Level::Error.name_chars());
                }
                String::from_str("Error")
            },
            Level::Warn => {
                proof {
                    reveal_strlit("Warn");
                    assert("Warn"@ =~= Level::Warn.name_chars());
                }
                String::from_str("Warn")
            },
            Level::Info => {
                proof {
                    reveal_strlit("Info");
                    assert("Info"@ =~= Level::Info.name_chars());
                }
                String::from_str("Info")
            },
            Level::Verb => {
                proof {
                    reveal_strlit("Verb");
                    assert("Verb"@ =~= Level::Verb.name_chars());
                }
                String::from_str("Verb")
            },
            Level::Debug => {
                proof {
                    reveal_strlit("Debug");
                    assert("Debug"@ =~= Level::Debug.name_chars());
                }
                String::from_str("Debug")
            },
            Level::Trace => {
                proof {
                    reveal_strlit("Trace");
                    assert("Trace"@ =~= Level::Trace.name_chars());
                }
                String::from_str("Trace")
            },
        }
    }

    /// All six levels in declaration order.
    pub fn all_variants() -> (r: Vec<Level>)
        ensures
            r@ == seq![
                Level::Error,
                Level::Warn,
                Level::Info,
                Level::Verb,
                Level::Debug,
                Level::Trace,
            ],
    {
        let mut v: Vec<Level> = Vec::new();
        v.push(Level::Error);
        v.push(Level::Warn);
        v.push(Level::Info);
        v.push(Level::Verb);
        v.push(Level::Debug);
        v.push(Level::Trace);
        proof {
            assert(v@ =~= seq![
                Level::Error,
                Level::Warn,
                Level::Info,
                Level::Verb,
                Level::Debug,
                Level::Trace,
            ]);
        }
        v
    }
}

impl Default for Level {
    /// The default threshold is `Warn`.
    fn default() -> (r: Self)
        ensures
            r == Level::Warn,
    {
        Level::Warn
    }
}

/// `c` equals `d` up to letter case, where `d` is a lowercase ASCII letter
/// or any other character: either the characters are equal, or `c` is the
/// uppercase form of the lowercase letter `d`.
pub open spec fn char_matches_ci(c: char, d: char) -> bool {
    c == d || (97 <= d as u32 <= 122 && c as u32 == d as u32 - 32)
}

/// `s` spells `name` up to ASCII letter case, position by position.
pub open spec fn name_matches_ci(s: Seq<char>, name: Seq<char>) -> bool {
    s.len() == name.len() && forall|i: int|
        0 <= i < s.len() ==> char_matches_ci(s[i], name[i])
}

/// The level whose name `s` spells, ignoring ASCII letter case.
pub open spec fn level_from_name(s: Seq<char>) -> Option<Level> {
    if name_matches_ci(s, Level::Error.lower_name_chars()) {
        Some(Level::Error)
    } else if name_matches_ci(s, Level::Warn.lower_name_chars()) {
        Some(Level::Warn)
    } else if name_matches_ci(s, Level::Info.lower_name_chars()) {
        Some(Level::Info)
    } else if name_matches_ci(s, Level::Verb.lower_name_chars()) {
        Some(Level::Verb)
    } else if name_matches_ci(s, Level::Debug.lower_name_chars()) {
        Some(Level::Debug)
    } else if name_matches_ci(s, Level::Trace.lower_name_chars()) {
        Some(Level::Trace)
    } else {
        None
    }
}

/// Whether `s` equals the lowercase ASCII word `lower` up to letter case.
fn matches_ci(s: &str, lower: &str) -> (r: bool)
    ensures
        r == name_matches_ci(s@, lower@),
{
    let n = s.unicode_len();
    let m = lower.unicode_len();
    if n != m {
        return false;
    }
    let mut i: usize = 0;
    while i < n
        invariant
            n == s@.len(),
            n == lower@.len(),
            i <= n,
            forall|j: int| 0 <= j < i ==> char_matches_ci(s@[j], lower@[j]),
        decreases n - i,
    {
        let c = s.get_char(i);
        let d = lower.get_char(i);
        let cu = c as u32;
        let du = d as u32;
        if !(c == d || (97 <= du && du <= 122 && cu == du - 32)) {
            return false;
        }
        i += 1;
    }
    true
}

impl Level {
    /// Case-insensitive exact match against the variant names; `None` for
    /// any other string.
    pub fn from_name(s: &str) -> (r: Option<Level>)
        ensures
            r == level_from_name(s@),
    {
        proof {
            reveal_strlit("error");
            reveal_strlit("warn");
            reveal_strlit("info");
            reveal_strlit("verb");
            reveal_strlit("debug");
            reveal_strlit("trace");
            assert("error"@ =~= Level::Error.lower_name_chars());
            assert("warn"@ =~= Level::Warn.lower_name_chars());
            assert("info"@ =~= Level::Info.lower_name_chars());
            assert("verb"@ =~= Level::Verb.lower_name_chars());
            assert("debug"@ =~= Level::Debug.lower_name_chars());
            assert("trace"@ =~= Level::Trace.lower_name_chars());
        }
        if matches_ci(s, "error") {
            Some(Level::Error)
        } else if matches_ci(s, "warn") {
            Some(Level::Warn)
        } else if matches_ci(s, "info") {
            Some(Level::Info)
        } else if matches_ci(s, "verb") {
            Some(Level::Verb)
        } else if matches_ci(s, "debug") {
            Some(Level::Debug)
        } else if matches_ci(s, "trace") {
            Some(Level::Trace)
        } else {
            None
        }
    }
}

/// Name parsing is exact: a string maps to a level if and only if it spells
/// that level's name up to ASCII letter case, and to no other level.
pub proof fn lemma_from_name_exact(s: Seq<char>, l: Level)
    ensures
        level_from_name(s) == Some(l) <==> name_matches_ci(s, l.lower_name_chars()),
{
    if name_matches_ci(s, l.lower_name_chars()) {
        assert forall|m: Level| m != l implies !name_matches_ci(
            s,
            m.lower_name_chars(),
        ) by {
            if name_matches_ci(s, m.lower_name_chars()) {
                assert(char_matches_ci(s[0], l.lower_name_chars()[0]));
                assert(char_matches_ci(s[0], m.lower_name_chars()[0]));
            }
        }
    }
}

/// `Error` is more severe than `Warn`, and so on down to `Trace`: a smaller
/// ordinal means a more severe level.
pub open spec fn more_severe(a: Level, b: Level) -> bool {
    a.ordinal() < b.ordinal()
}

/// Severity is a strict total order: any two distinct levels are comparable
/// in exactly one direction, and the order is transitive.
pub proof fn lemma_severity_strict_total_order(a: Level, b: Level, c: Level)
    ensures
        more_severe(a, b) || more_severe(b, a) || a == b,
        !(more_severe(a, b) && more_severe(b, a)),
        more_severe(a, b) && more_severe(b, c) ==> more_severe(a, c),
        a == b ==> !more_severe(a, b),
{
}

/// The full severity chain over the six levels.
pub proof fn lemma_severity_chain()
    ensures
        more_severe(Level::Error, Level::Warn),
        more_severe(Level::Warn, Level::Info),
        more_severe(Level::Info, Level::Verb),
        more_severe(Level::Verb, Level::Debug),
        more_severe(Level::Debug, Level::Trace),
{
}

/// A message at `level` passes the run-time gate for threshold `threshold`
/// exactly when it is at least as severe as the threshold.
pub open spec fn emits(threshold: Level, level: Level) -> bool {
    level.ordinal() <= threshold.ordinal()
}

/// The run-time gate: whether a message at `level` is emitted under the
/// configured threshold.
pub fn level_enabled(threshold: Level, level: Level) -> (r: bool)
    ensures
        r == emits(threshold, level),
{
    level.as_ordinal() <= threshold.as_ordinal()
}

/// An `Error` message passes the run-time gate under every threshold.
pub proof fn lemma_error_always_emits(threshold: Level)
    ensures
        emits(threshold, Level::Error),
{
}

} // verus!
