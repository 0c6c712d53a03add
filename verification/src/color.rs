//! ANSI colorization of level names: each level maps to a fixed color, and
//! the escape wrapper has a fixed byte overhead that the prefix width logic
//! compensates for.

use vstd::prelude::*;
use crate::level::Level;

verus! {

/// A rendered string together with the number of characters of embedded
/// ANSI color-control sequences, so that width and alignment logic can
/// count only visible characters.
pub struct ColorizedText {
    pub text: String,
    pub color_code_length: usize,
}

/// The ANSI start sequence of the fixed color assigned to each level:
/// red for `Error`, yellow for `Warn`, green for `Info`, magenta for
/// `Verb`, blue for `Debug`, cyan for `Trace`.
pub open spec fn color_start_chars(l: Level) -> Seq<char> {
    match l {
        Level::Error => seq!['\u{1b}', '[', '3', '1', 'm'],
        Level::Warn => seq!['\u{1b}', '[', '3', '3', 'm'],
        Level::Info => seq!['\u{1b}', '[', '3', '2', 'm'],
        Level::Verb => seq!['\u{1b}', '[', '3', '5', 'm'],
        Level::Debug => seq!['\u{1b}', '[', '3', '4', 'm'],
        Level::Trace => seq!['\u{1b}', '[', '3', '6', 'm'],
    }
}

/// The ANSI yellow start sequence, used for line-ending bytes in hex dumps.
pub open spec fn yellow_start_chars() -> Seq<char> {
    seq!['\u{1b}', '[', '3', '3', 'm']
}

/// The ANSI reset sequence that closes every colorized stretch.
pub open spec fn color_reset_chars() -> Seq<char> {
    seq!['\u{1b}', '[', '0', 'm']
}

/// A level name wrapped in its color's escape sequences.
pub open spec fn colorized_level_chars(l: Level) -> Seq<char> {
    color_start_chars(l) + l.name_chars() + color_reset_chars()
}

/// The level's capitalized name wrapped in that level's fixed color. The
/// escape wrapper always costs exactly nine characters, which is what
/// `color_code_length` reports.
pub fn log_level_to_string_colorized(level: Level) -> (r: ColorizedText)
    ensures
        r.text@ == colorized_level_chars(level),
        r.color_code_length == 9,
{
    proof {
        reveal_strlit("\u{1b}[31m");
        reveal_strlit("\u{1b}[33m");
        reveal_strlit("\u{1b}[32m");
        reveal_strlit("\u{1b}[35m");
        reveal_strlit("\u{1b}[34m");
        reveal_strlit("\u{1b}[36m");
        reveal_strlit("\u{1b}[0m");
        assert("\u{1b}[31m"@ =~= color_start_chars(Level::Error));
        assert("\u{1b}[33m"@ =~= color_start_chars(Level::Warn));
        assert("\u{1b}[32m"@ =~= color_start_chars(Level::Info));
        assert("\u{1b}[35m"@ =~= color_start_chars(Level::Verb));
        assert("\u{1b}[34m"@ =~= color_start_chars(Level::Debug));
        assert("\u{1b}[36m"@ =~= color_start_chars(Level::Trace));
        assert("\u{1b}[0m"@ =~= color_reset_chars());
    }
    let mut text = String::new();
    match level {
        Level::Error => text.append("\u{1b}[31m"),
        Level::Warn => text.append("\u{1b}[33m"),
        Level::Info => text.append("\u{1b}[32m"),
        Level::Verb => text.append("\u{1b}[35m"),
        Level::Debug => text.append("\u{1b}[34m"),
        Level::Trace => text.append("\u{1b}[36m"),
    }
    let name = level.to_display_string();
    text.append(name.as_str());
    text.append("\u{1b}[0m");
    proof {
        assert(text@ =~= colorized_level_chars(level));
    }
    ColorizedText { text, color_code_length: 9 }
}

/// Every colorized level text is its name plus exactly nine characters of
/// escape sequences; with names of four or five characters it is never
/// longer than the fourteen-character color field.
pub proof fn lemma_colorized_len(l: Level)
    ensures
        colorized_level_chars(l).len() == l.name_chars().len() + 9,
        13 <= colorized_level_chars(l).len() <= 14,
{
}

} // verus!
