use levlog::color::log_level_to_string_colorized;
use levlog::config::{enable_terminal_colors, find_tty_and_update_from, resolve_color, Config};
use levlog::hex::{highlighted_hex_dump, highlighted_hex_vec, write_formatted_eol_byte};
use levlog::level::{level_enabled, Level};
use levlog::record::Log;
use levlog::textfmt::{
    dec_string, format_log_message_prefix, format_with_options, num_digits, zero_padded_dec_string,
    Alignment,
};

fn plain_config() -> Config {
    Config {
        log_level: Level::Warn,
        colored_output: false,
        colored_output_forced: false,
    }
}

#[test]
fn from_ordinal_round_trips() {
    let expected = [
        Level::Error,
        Level::Warn,
        Level::Info,
        Level::Verb,
        Level::Debug,
        Level::Trace,
    ];
    for (n, lvl) in expected.iter().enumerate() {
        let got = Level::from_ordinal(n).unwrap();
        assert_eq!(got, *lvl);
        assert_eq!(got.as_ordinal(), n);
    }
}

#[test]
fn from_ordinal_rejects_out_of_range() {
    assert_eq!(Level::from_ordinal(6), None);
    assert_eq!(Level::from_ordinal(100), None);
    assert_eq!(Level::from_ordinal(usize::MAX), None);
}

#[test]
fn from_name_any_letter_case() {
    assert_eq!(Level::from_name("error"), Some(Level::Error));
    assert_eq!(Level::from_name("ERROR"), Some(Level::Error));
    assert_eq!(Level::from_name("ErRoR"), Some(Level::Error));
    assert_eq!(Level::from_name("Warn"), Some(Level::Warn));
    assert_eq!(Level::from_name("WARN"), Some(Level::Warn));
    assert_eq!(Level::from_name("info"), Some(Level::Info));
    assert_eq!(Level::from_name("InFo"), Some(Level::Info));
    assert_eq!(Level::from_name("verb"), Some(Level::Verb));
    assert_eq!(Level::from_name("VERB"), Some(Level::Verb));
    assert_eq!(Level::from_name("Debug"), Some(Level::Debug));
    assert_eq!(Level::from_name("trace"), Some(Level::Trace));
    assert_eq!(Level::from_name("TRACE"), Some(Level::Trace));
}

#[test]
fn from_name_rejects_other_strings() {
    assert_eq!(Level::from_name(""), None);
    assert_eq!(Level::from_name("err"), None);
    assert_eq!(Level::from_name("errors"), None);
    assert_eq!(Level::from_name("warning"), None);
    assert_eq!(Level::from_name(" error"), None);
    assert_eq!(Level::from_name("err\u{f6}r"), None);
    assert_eq!(Level::from_name("\u{130}nfo"), None);
}

#[test]
fn severity_order_is_total() {
    let chain = [
        Level::Error,
        Level::Warn,
        Level::Info,
        Level::Verb,
        Level::Debug,
        Level::Trace,
    ];
    for i in 0..chain.len() {
        for j in 0..chain.len() {
            // A smaller ordinal means a more severe level.
            assert_eq!(
                chain[i].as_ordinal() < chain[j].as_ordinal(),
                i < j
            );
        }
    }
}

#[test]
fn default_level_is_warn() {
    assert_eq!(Level::default(), Level::Warn);
}

#[test]
fn all_variants_in_declared_order() {
    let v = Level::all_variants();
    assert_eq!(
        v,
        vec![
            Level::Error,
            Level::Warn,
            Level::Info,
            Level::Verb,
            Level::Debug,
            Level::Trace,
        ]
    );
}

#[test]
fn display_names() {
    assert_eq!(Level::Error.to_display_string(), "Error");
    assert_eq!(Level::Warn.to_display_string(), "Warn");
    assert_eq!(Level::Info.to_display_string(), "Info");
    assert_eq!(Level::Verb.to_display_string(), "Verb");
    assert_eq!(Level::Debug.to_display_string(), "Debug");
    assert_eq!(Level::Trace.to_display_string(), "Trace");
}

#[test]
fn forced_color_always_resolves_true() {
    for colored in [false, true] {
        for out_tty in [false, true] {
            for err_tty in [false, true] {
                assert!(resolve_color(true, colored, out_tty, err_tty));
            }
        }
    }
    let mut cfg = plain_config();
    cfg.colored_output_forced = true;
    cfg.colored_output = false;
    assert!(enable_terminal_colors(cfg));
}

#[test]
fn color_needs_preference_and_both_ttys() {
    assert!(!resolve_color(false, false, true, true));
    assert!(!resolve_color(false, true, false, true));
    assert!(!resolve_color(false, true, true, false));
    assert!(resolve_color(false, true, true, true));
    let cfg = plain_config();
    assert!(!enable_terminal_colors(cfg));
}

#[test]
fn find_tty_keeps_threshold_and_forcing() {
    let mut cfg = plain_config();
    cfg.log_level = Level::Debug;
    let updated = find_tty_and_update_from(cfg);
    assert_eq!(updated.log_level, Level::Debug);
    assert!(!updated.colored_output_forced);
    assert!(!updated.colored_output);

    let mut forced = plain_config();
    forced.colored_output_forced = true;
    forced.colored_output = true;
    let updated = find_tty_and_update_from(forced);
    assert_eq!(updated, forced);
}

#[test]
fn width_aligner_no_width_is_identity() {
    assert_eq!(format_with_options("hello", None, Alignment::Left), "hello");
    assert_eq!(format_with_options("", None, Alignment::Center), "");
}

#[test]
fn width_aligner_pads_per_alignment() {
    assert_eq!(format_with_options("ab", Some(5), Alignment::Left), "ab   ");
    assert_eq!(format_with_options("ab", Some(5), Alignment::Right), "   ab");
    assert_eq!(format_with_options("ab", Some(5), Alignment::Center), " ab  ");
    assert_eq!(format_with_options("ab", Some(6), Alignment::Center), "  ab  ");
}

#[test]
fn width_aligner_never_truncates() {
    assert_eq!(format_with_options("abcdef", Some(3), Alignment::Right), "abcdef");
    assert_eq!(format_with_options("abc", Some(3), Alignment::Center), "abc");
}

#[test]
fn right_alignment_is_justified() {
    let out = format_with_options("xy", Some(7), Alignment::Right);
    assert!(out.len() >= 7);
    assert!(out.ends_with("xy"));
    assert!(out.starts_with("     "));
}

#[test]
fn default_alignment_is_left() {
    assert_eq!(Alignment::default(), Alignment::Left);
}

#[test]
fn num_digits_counts_decimal_digits() {
    assert_eq!(num_digits(0), 1);
    assert_eq!(num_digits(9), 1);
    assert_eq!(num_digits(10), 2);
    assert_eq!(num_digits(12345), 5);
    assert_eq!(num_digits(usize::MAX), usize::MAX.to_string().len());
}

#[test]
fn decimal_rendering() {
    assert_eq!(dec_string(0), "0");
    assert_eq!(dec_string(7), "7");
    assert_eq!(dec_string(12345), "12345");
    assert_eq!(zero_padded_dec_string(7, 3), "007");
    assert_eq!(zero_padded_dec_string(123, 2), "123");
    assert_eq!(zero_padded_dec_string(0, 1), "0");
}

#[test]
fn plain_prefix_exact_shape() {
    assert_eq!(format_log_message_prefix("T", "Error", false), "[T Error]: ");
    assert_eq!(format_log_message_prefix("T", "Warn", false), "[T Warn ]: ");
    assert_eq!(format_log_message_prefix("T", "Info", false), "[T Info ]: ");
}

#[test]
fn plain_prefix_width_constant_across_levels() {
    let time = "Thu, 01 Jan 2024 00:00:00";
    let widths: Vec<usize> = Level::all_variants()
        .into_iter()
        .map(|l| format_log_message_prefix(time, &l.to_display_string(), false).len())
        .collect();
    for w in &widths {
        assert_eq!(*w, widths[0]);
        assert_eq!(*w, time.len() + 10);
    }
}

#[test]
fn color_prefix_reserves_wider_field() {
    let colorized = log_level_to_string_colorized(Level::Warn);
    let prefix = format_log_message_prefix("T", &colorized.text, true);
    // 14 visible-plus-invisible columns for the level field.
    assert_eq!(prefix.chars().count() - colorized.color_code_length, "T".len() + 10);
}

#[test]
fn colorized_level_text() {
    let c = log_level_to_string_colorized(Level::Error);
    assert_eq!(c.text, "\u{1b}[31mError\u{1b}[0m");
    assert_eq!(c.color_code_length, 9);
    let c = log_level_to_string_colorized(Level::Trace);
    assert_eq!(c.text, "\u{1b}[36mTrace\u{1b}[0m");
    assert_eq!(c.color_code_length, 9);
}

#[test]
fn record_renders_plain_line() {
    let log = Log {
        config: plain_config(),
        message: "disk almost full".to_string(),
        level: Level::Warn,
        time: "T".to_string(),
    };
    assert_eq!(log.render(), "[T Warn ]: disk almost full");
}

#[test]
fn record_renders_colorized_line() {
    let mut cfg = plain_config();
    cfg.colored_output = true;
    let log = Log {
        config: cfg,
        message: "boom".to_string(),
        level: Level::Error,
        time: "T".to_string(),
    };
    assert_eq!(log.render(), "[T \u{1b}[31mError\u{1b}[0m]: boom");
}

#[test]
fn record_participates_in_wider_fields() {
    let log = Log {
        config: plain_config(),
        message: "x".to_string(),
        level: Level::Warn,
        time: "T".to_string(),
    };
    assert_eq!(log.render_with_options(None, Alignment::Left), "[T Warn ]: x");
    assert_eq!(
        log.render_with_options(Some(15), Alignment::Right),
        "   [T Warn ]: x"
    );
}

#[test]
fn record_new_captures_fields() {
    let cfg = plain_config();
    let log = Log::new(cfg, "hello", Level::Info);
    assert_eq!(log.config, cfg);
    assert_eq!(log.level, Level::Info);
    assert_eq!(log.message, "hello");
    let line = log.render();
    assert!(line.starts_with('['));
    assert!(line.ends_with("]: hello"));
}

#[test]
fn eol_bytes_render_as_escapes() {
    assert_eq!(write_formatted_eol_byte(0x0D, false), "\\r");
    assert_eq!(write_formatted_eol_byte(0x0A, false), "\\n");
    assert_eq!(write_formatted_eol_byte(0x41, false), "41");
    assert_eq!(write_formatted_eol_byte(0x00, false), "00");
    assert_eq!(write_formatted_eol_byte(0xFF, false), "ff");
    assert_eq!(write_formatted_eol_byte(0x0D, true), "\u{1b}[33m\\r\u{1b}[0m");
    assert_eq!(write_formatted_eol_byte(0x0A, true), "\u{1b}[33m\\n\u{1b}[0m");
    assert_eq!(write_formatted_eol_byte(0x0D, true), "\u{1b}[33m\\r\u{1b}[0m");
    assert_eq!(write_formatted_eol_byte(0x41, true), "41");
}

#[test]
fn hex_dump_empty_is_bracket() {
    assert_eq!(highlighted_hex_vec(&[], 0, plain_config()), "[");
    assert_eq!(highlighted_hex_dump(&[], 0, 4, false), "[");
}

#[test]
fn hex_dump_first_group_escapes_then_hex() {
    let out = highlighted_hex_dump(&[0x0D, 0x0A, 0x41], 0, 2, false);
    assert_eq!(out, "[\n  0 = \\r \\n 41");
}

#[test]
fn hex_dump_wraps_every_eight_bytes() {
    let bytes: Vec<u8> = (0x20..0x30).collect();
    let out = highlighted_hex_dump(&bytes, 0, 0, false);
    // Bytes are separated within a line only: no space stands before the
    // newline that opens the second group.
    assert_eq!(
        out,
        "[\n00 = 20 21 22 23 24 25 26 27\n08 = 28 29 2a 2b 2c 2d 2e 2f"
    );
}

#[test]
fn hex_dump_honors_index_offset() {
    let out = highlighted_hex_dump(&[0x00, 0x00, 0x00], 9, 0, false);
    assert_eq!(out, "[\n09 = 00 00 00");
}

#[test]
fn hex_dump_colorizes_line_endings() {
    let out = highlighted_hex_dump(&[0x0D, 0x41], 0, 0, true);
    assert_eq!(out, "[\n0 = \u{1b}[33m\\r\u{1b}[0m 41");
}

#[test]
fn hex_vec_aligns_under_trace_prefix() {
    let out = highlighted_hex_vec(&[0x0D, 0x0A, 0x41], 0, plain_config());
    assert!(out.starts_with("[\n"));
    assert!(out.ends_with("0 = \\r \\n 41"));
    // Between the opening bracket and the index stands only the indentation,
    // which is the visible trace-prefix width: the timestamp length plus ten.
    let indent = out.len() - "[\n".len() - "0 = \\r \\n 41".len();
    assert!(out["[\n".len()..].starts_with(&" ".repeat(indent)));
    assert!(indent >= 10);
}

#[test]
fn runtime_gate_suppresses_info_under_warn() {
    assert!(!level_enabled(Level::Warn, Level::Info));
    assert!(!level_enabled(Level::Warn, Level::Verb));
    assert!(!level_enabled(Level::Warn, Level::Debug));
    assert!(!level_enabled(Level::Warn, Level::Trace));
    assert!(level_enabled(Level::Warn, Level::Warn));
}

#[test]
fn runtime_gate_always_passes_error() {
    for threshold in Level::all_variants() {
        assert!(level_enabled(threshold, Level::Error));
    }
}

#[test]
fn default_config_is_quiet_warn() {
    let cfg = Config::default();
    assert_eq!(cfg.log_level, Level::Warn);
    assert!(!cfg.colored_output);
    assert!(!cfg.colored_output_forced);
}
