//! The configuration snapshot consumed by an emission, and the
//! terminal-color decision policy.

use vstd::prelude::*;
use crate::level::Level;

verus! {

/// An immutable per-call snapshot of the settings the engine consults: the
/// emission threshold, the user's color preference, and the override that
/// bypasses terminal detection.
#[derive(Clone, Copy, PartialEq, Eq, Structural, Debug)]
pub struct Config {
    pub log_level: Level,
    pub colored_output: bool,
    pub colored_output_forced: bool,
}

impl Default for Config {
    /// `Warn` threshold, color off, no forcing.
    fn default() -> (r: Self)
        ensures
            r == (Config {
                log_level: Level::Warn,
                colored_output: false,
                colored_output_forced: false,
            }),
    {
        Config { log_level: Level::Warn, colored_output: false, colored_output_forced: false }
    }
}

/// Relies on `std::io::stdout` and `std::io::IsTerminal::is_terminal`:
/// whether the process's standard output is attached to a terminal. The
/// answer depends on how the process was started, so nothing is promised of
/// it.
#[verifier::external_body]
fn stdout_is_terminal() -> bool {
    std::io::IsTerminal::is_terminal(&std::io::stdout())
}

/// Relies on `std::io::stderr` and `std::io::IsTerminal::is_terminal`:
/// whether the process's standard error is attached to a terminal. The
/// answer depends on how the process was started, so nothing is promised of
/// it.
#[verifier::external_body]
fn stderr_is_terminal() -> bool {
    std::io::IsTerminal::is_terminal(&std::io::stderr())
}

/// The color decision proper: forcing wins unconditionally; otherwise color
/// needs the user's preference and both standard streams attached to a
/// terminal, since one rendered line may be sent to either stream.
pub fn resolve_color(
    colored_output_forced: bool,
    colored_output: bool,
    stdout_tty: bool,
    stderr_tty: bool,
) -> (r: bool)
    ensures
        r == (colored_output_forced || (colored_output && stdout_tty && stderr_tty)),
{
    if colored_output_forced {
        true
    } else {
        colored_output && stdout_tty && stderr_tty
    }
}

/// Whether ANSI color may be used for this emission. Forcing always enables
/// color; without the user's preference color is never used; otherwise the
/// answer depends on terminal attachment, of which nothing more can be said
/// here.
pub fn enable_terminal_colors(config: Config) -> (r: bool)
    ensures
        config.colored_output_forced ==> r,
        !config.colored_output_forced && !config.colored_output ==> !r,
        r ==> config.colored_output_forced || config.colored_output,
{
    let stdout_tty = stdout_is_terminal();
    let stderr_tty = stderr_is_terminal();
    resolve_color(config.colored_output_forced, config.colored_output, stdout_tty, stderr_tty)
}

/// A copy of `config` with the color preference withdrawn when the policy
/// refuses color; the threshold and the forcing flag are kept, and a forced
/// configuration is returned unchanged.
pub fn find_tty_and_update_from(config: Config) -> (r: Config)
    ensures
        r.log_level == config.log_level,
        r.colored_output_forced == config.colored_output_forced,
        r.colored_output ==> config.colored_output,
        !config.colored_output ==> !r.colored_output,
        config.colored_output_forced ==> r == config,
{
    let mut config = config;
    if !enable_terminal_colors(config) {
        config.colored_output = false;
    }
    config
}

} // verus!
