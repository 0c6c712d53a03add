//! One formattable logging event: level, message, captured timestamp and
//! configuration snapshot, rendered into a single prefixed line.

use vstd::prelude::*;
use crate::color::colorized_level_chars;
use crate::color::log_level_to_string_colorized;
use crate::config::Config;
use crate::level::Level;
use crate::textfmt::aligned_chars;
use crate::textfmt::format_log_message_prefix;
use crate::textfmt::format_with_options;
use crate::textfmt::prefix_chars;
use crate::textfmt::Alignment;

verus! {

/// Relies on `time::OffsetDateTime::from_unix_timestamp` and
/// `time::OffsetDateTime::format` with the ISO-8601 well-known description:
/// a UTC timestamp for the moment of the call, or the empty string where
/// the clock lies outside the crate's representable date range (both calls
/// return `Result`; nothing here can abort) or formatting fails. The result
/// depends on the clock, so nothing is promised of it.
#[verifier::external_body]
pub fn new_time_string() -> String {
    let secs = match std::time::SystemTime::now().duration_since(std::time::UNIX_EPOCH) {
        Ok(d) => i64::try_from(d.as_secs()).unwrap_or(i64::MAX),
        Err(_) => return String::new(),
    };
    match time::OffsetDateTime::from_unix_timestamp(secs) {
        Ok(now) => now.format(
            &time::format_description::well_known::Iso8601::DEFAULT,
        ).unwrap_or_default(),
        Err(_) => String::new(),
    }
}

/// An ephemeral logging event: created at the moment of emission, rendered
/// once, then discarded.
pub struct Log {
    pub config: Config,
    pub message: String,
    pub level: Level,
    pub time: String,
}

impl Log {
    /// The line this event renders to: the prefix for its timestamp and
    /// level — colorized when the configuration calls for color — followed
    /// by the message.
    pub open spec fn rendered_chars(self) -> Seq<char> {
        if self.config.colored_output {
            prefix_chars(self.time@, colorized_level_chars(self.level), true) + self.message@
        } else {
            prefix_chars(self.time@, self.level.name_chars(), false) + self.message@
        }
    }

    /// A new event for `text` at `level`, stamped with the current time.
    pub fn new(config: Config, text: &str, level: Level) -> (r: Log)
        ensures
            r.config == config,
            r.level == level,
            r.message@ == text@,
    {
        Log { level, message: String::from_str(text), config, time: new_time_string() }
    }

    /// Renders the event into its one output line.
    pub fn render(&self) -> (r: String)
        ensures
            r@ == self.rendered_chars(),
    {
        let level_text: String = if self.config.colored_output {
            log_level_to_string_colorized(self.level).text
        } else {
            self.level.to_display_string()
        };
        let prefix = format_log_message_prefix(
            self.time.as_str(),
            level_text.as_str(),
            self.config.colored_output,
        );
        prefix.concat(self.message.as_str())
    }

    /// Renders the event and applies a caller-requested field width and
    /// alignment to the whole line, so a record can take part in wider
    /// padded output.
    pub fn render_with_options(&self, width: Option<usize>, alignment: Alignment) -> (r:
        String)
        ensures
            width is None ==> r@ == self.rendered_chars(),
            width matches Some(w) ==> r@ == aligned_chars(
                self.rendered_chars(),
                w as nat,
                alignment,
            ),
    {
        let line = self.render();
        format_with_options(line.as_str(), width, alignment)
    }
}

/// The plain-mode prefix has the same length for every level — the level
/// field is always padded to five characters — and the colorized prefix
/// exceeds it by exactly the nine invisible escape characters, so the
/// visible width is the same in both modes: the timestamp plus ten.
pub proof fn lemma_prefix_width_constant(time: Seq<char>, l: Level)
    ensures
        prefix_chars(time, l.name_chars(), false).len() == time.len() + 10,
        prefix_chars(time, colorized_level_chars(l), true).len() == time.len() + 19,
{
    crate::color::lemma_colorized_len(l);
}

} // verus!
