//! The hex highlighter: a bracketed, line-wrapped hex dump of a byte
//! buffer, eight bytes per line, each line indented under the prefix a
//! trace record would carry and led by its zero-padded running index.
//! Carriage returns and line feeds render as their two-character escapes,
//! yellow when color is on.

use vstd::prelude::*;
use vstd::slice::slice_index_get;
use crate::color::color_reset_chars;
use crate::color::log_level_to_string_colorized;
use crate::color::yellow_start_chars;
use crate::config::Config;
use crate::config::enable_terminal_colors;
use crate::level::Level;
use crate::record::new_time_string;
use crate::textfmt::digit_char;
use crate::textfmt::format_log_message_prefix;
use crate::textfmt::num_digits;
use crate::textfmt::num_digits_spec;
use crate::textfmt::spaces;
use crate::textfmt::zero_padded_dec;
use crate::textfmt::zero_padded_dec_string;

verus! {

/// The hexadecimal digit `d` as a character, lowercase, for `d` below
/// sixteen.
pub open spec fn hex_digit_char(d: nat) -> char {
    if d < 10 {
        digit_char(d)
    } else if d == 10 {
        'a'
    } else if d == 11 {
        'b'
    } else if d == 12 {
        'c'
    } else if d == 13 {
        'd'
    } else if d == 14 {
        'e'
    } else {
        'f'
    }
}

/// A byte as two lowercase hex digits.
pub open spec fn byte_hex_chars(b: u8) -> Seq<char> {
    seq![hex_digit_char(b as nat / 16), hex_digit_char(b as nat % 16)]
}

/// How one byte of the dump renders: carriage return and line feed as the
/// literal escapes `\r` and `\n` — wrapped in yellow when color is on —
/// and every other byte as two lowercase hex digits.
pub open spec fn eol_byte_chars(b: u8, colored: bool) -> Seq<char> {
    if b == 13 {
        if colored {
            yellow_start_chars() + seq!['\\', 'r'] + color_reset_chars()
        } else {
            seq!['\\', 'r']
        }
    } else if b == 10 {
        if colored {
            yellow_start_chars() + seq!['\\', 'n'] + color_reset_chars()
        } else {
            seq!['\\', 'n']
        }
    } else {
        byte_hex_chars(b)
    }
}

/// The hexadecimal digit `d` as a one-character string, for `d` below
/// sixteen.
fn hex_digit_str(d: u8) -> (r: &'static str)
    requires
        d < 16,
    ensures
        r@ =~= seq![hex_digit_char(d as nat)],
{
    proof {
        reveal_strlit("0");
        reveal_strlit("1");
        reveal_strlit("2");
        reveal_strlit("3");
        reveal_strlit("4");
        reveal_strlit("5");
        reveal_strlit("6");
        reveal_strlit("7");
        reveal_strlit("8");
        reveal_strlit("9");
        reveal_strlit("a");
        reveal_strlit("b");
        reveal_strlit("c");
        reveal_strlit("d");
        reveal_strlit("e");
        reveal_strlit("f");
    }
    match d {
        0 => "0",
        1 => "1",
        2 => "2",
        3 => "3",
        4 => "4",
        5 => "5",
        6 => "6",
        7 => "7",
        8 => "8",
        9 => "9",
        10 => "a",
        11 => "b",
        12 => "c",
        13 => "d",
        14 => "e",
        _ => "f",
    }
}

/// Renders one byte of the dump: `\r` or `\n` for the line-ending bytes —
/// yellow when `colored` is set — and two lowercase hex digits otherwise.
pub fn write_formatted_eol_byte(byte: u8, colored: bool) -> (r: String)
    ensures
        r@ == eol_byte_chars(byte, colored),
{
    proof {
        reveal_strlit("\\r");
        reveal_strlit("\\n");
        reveal_strlit("\u{1b}[33m");
        reveal_strlit("\u{1b}[0m");
        assert("\\r"@ =~= seq!['\\', 'r']);
        assert("\\n"@ =~= seq!['\\', 'n']);
        assert("\u{1b}[33m"@ =~= yellow_start_chars());
        assert("\u{1b}[0m"@ =~= color_reset_chars());
    }
    if byte == 13 || byte == 10 {
        let mut out = String::new();
        if colored {
            out.append("\u{1b}[33m");
        }
        if byte == 13 {
            out.append("\\r");
        } else {
            out.append("\\n");
        }
        if colored {
            out.append("\u{1b}[0m");
        }
        proof {
            assert(out@ =~= eol_byte_chars(byte, colored));
        }
        out
    } else {
        let mut out = String::from_str(hex_digit_str(byte / 16));
        out.append(hex_digit_str(byte % 16));
        proof {
            assert(out@ =~= eol_byte_chars(byte, colored));
        }
        out
    }
}

/// The header that opens each eight-byte line: a newline, the indentation
/// that aligns the line under a trace prefix, the zero-padded running
/// index, and ` = `.
pub open spec fn group_header_chars(idx: nat, indent: nat, digits: nat) -> Seq<char> {
    seq!['\n'] + spaces(indent) + zero_padded_dec(idx, digits) + seq![' ', '=', ' ']
}

/// What byte `i` contributes to the dump: a line header at each multiple of
/// eight, a separating space before every other byte — bytes are separated
/// within a line only, so a line never ends in a space — then the byte's
/// own rendering.
pub open spec fn hex_chunk_chars(
    bytes: Seq<u8>,
    i: int,
    offset: nat,
    indent: nat,
    digits: nat,
    colored: bool,
) -> Seq<char> {
    (if i % 8 != 0 {
        seq![' ']
    } else {
        Seq::<char>::empty()
    }) + (if i % 8 == 0 {
        group_header_chars((offset + i) as nat, indent, digits)
    } else {
        Seq::<char>::empty()
    }) + eol_byte_chars(bytes[i], colored)
}

/// The dump of the first `n` bytes: the opening bracket followed by each
/// byte's contribution in order.
pub open spec fn hex_dump_upto(
    bytes: Seq<u8>,
    offset: nat,
    indent: nat,
    digits: nat,
    colored: bool,
    n: int,
) -> Seq<char>
    decreases n,
{
    if n <= 0 {
        seq!['[']
    } else {
        hex_dump_upto(bytes, offset, indent, digits, colored, n - 1) + hex_chunk_chars(
            bytes,
            n - 1,
            offset,
            indent,
            digits,
            colored,
        )
    }
}

/// The whole dump, with index fields wide enough for the index one past the
/// last byte. No closing bracket is appended; the opening bracket is purely
/// visual.
pub open spec fn hex_dump_chars(
    bytes: Seq<u8>,
    offset: nat,
    indent: nat,
    colored: bool,
) -> Seq<char> {
    hex_dump_upto(
        bytes,
        offset,
        indent,
        num_digits_spec(offset + bytes.len()),
        colored,
        bytes.len() as int,
    )
}

/// Renders the dump for a given indentation and color decision: eight
/// bytes per line, each line led by its zero-padded running index, bytes
/// space-separated, line-ending bytes escaped.
pub fn highlighted_hex_dump(vec: &[u8], index_offset: usize, indent: usize, colored: bool) -> (r:
    String)
    requires
        index_offset + vec@.len() <= usize::MAX,
    ensures
        r@ == hex_dump_chars(vec@, index_offset as nat, indent as nat, colored),
{
    proof {
        reveal_strlit("[");
        reveal_strlit(" ");
        reveal_strlit("\n");
        reveal_strlit(" = ");
        assert("["@ =~= seq!['[']);
        assert(" "@ =~= seq![' ']);
        assert("\n"@ =~= seq!['\n']);
        assert(" = "@ =~= seq![' ', '=', ' ']);
    }
    let mut output = String::from_str("[");
    let digits = num_digits(index_offset + vec.len());
    let ghost digits_n = digits as nat;
    let ghost off_n = index_offset as nat;
    let ghost ind_n = indent as nat;
    let mut index: usize = 0;
    while index < vec.len()
        invariant
            index <= vec@.len(),
            index_offset + vec@.len() <= usize::MAX,
            digits == num_digits_spec((index_offset + vec@.len()) as nat),
            digits_n == digits as nat,
            off_n == index_offset as nat,
            ind_n == indent as nat,
            "["@ =~= seq!['['],
            " "@ =~= seq![' '],
            "\n"@ =~= seq!['\n'],
            " = "@ =~= seq![' ', '=', ' '],
            output@ =~= hex_dump_upto(vec@, off_n, ind_n, digits_n, colored, index as int),
        decreases vec@.len() - index,
    {
        let ghost i0 = index as int;
        let ghost base = hex_dump_upto(vec@, off_n, ind_n, digits_n, colored, i0);
        let ghost sep: Seq<char> = if index % 8 != 0 {
            seq![' ']
        } else {
            Seq::<char>::empty()
        };
        if index % 8 != 0 {
            output.append(" ");
        }
        proof {
            assert(output@ =~= base + sep);
        }
        if index % 8 == 0 {
            output.append("\n");
            proof {
                assert(output@ =~= base + sep + seq!['\n'] + spaces(0nat));
            }
            let mut pad: usize = 0;
            while pad < indent
                invariant
                    pad <= indent,
                    " "@ =~= seq![' '],
                    output@ =~= base + sep + seq!['\n'] + spaces(pad as nat),
                decreases indent - pad,
            {
                output.append(" ");
                pad += 1;
                proof {
                    assert(output@ =~= base + sep + seq!['\n'] + spaces(pad as nat));
                }
            }
            let current_index = index + index_offset;
            let idx_str = zero_padded_dec_string(current_index, digits);
            output.append(idx_str.as_str());
            output.append(" = ");
            proof {
                assert(output@ =~= base + sep + group_header_chars(
                    (off_n + i0) as nat,
                    ind_n,
                    digits_n,
                ));
            }
        }
        let b = *slice_index_get(vec, index);
        let rendered = write_formatted_eol_byte(b, colored);
        output.append(rendered.as_str());
        proof {
            assert(output@ =~= base + hex_chunk_chars(
                vec@,
                i0,
                off_n,
                ind_n,
                digits_n,
                colored,
            ));
            assert(output@ =~= hex_dump_upto(
                vec@,
                off_n,
                ind_n,
                digits_n,
                colored,
                i0 + 1,
            ));
        }
        index += 1;
    }
    output
}

/// Renders a byte buffer as a trace-level hex dump: the color decision is
/// resolved once from the configuration, and each eight-byte line is
/// indented by the visible length of the prefix a trace record stamped now
/// would carry. An empty buffer yields exactly the opening bracket.
pub fn highlighted_hex_vec(vec: &[u8], index_offset: usize, config: Config) -> (r: String)
    requires
        index_offset + vec@.len() <= usize::MAX,
    ensures
        exists|indent: nat, colored: bool|
            indent >= 10 && r@ == hex_dump_chars(vec@, index_offset as nat, indent, colored),
        vec@.len() == 0 ==> r@ =~= seq!['['],
        config.colored_output_forced ==> exists|indent: nat|
            indent >= 10 && r@ == hex_dump_chars(vec@, index_offset as nat, indent, true),
        !config.colored_output_forced && !config.colored_output ==> exists|indent: nat|
            indent >= 10 && r@ == hex_dump_chars(vec@, index_offset as nat, indent, false),
{
    let colored = enable_terminal_colors(config);
    let time = new_time_string();
    let colorized_text = log_level_to_string_colorized(Level::Trace);
    let prefix = format_log_message_prefix(
        time.as_str(),
        colorized_text.text.as_str(),
        config.colored_output,
    );
    proof {
        crate::record::lemma_prefix_width_constant(time@, Level::Trace);
        crate::color::lemma_colorized_len(Level::Trace);
    }
    let prefix_visible_len = prefix.as_str().unicode_len() - colorized_text.color_code_length;
    let r = highlighted_hex_dump(vec, index_offset, prefix_visible_len, colored);
    proof {
        let indent = prefix_visible_len as nat;
        assert(r@ == hex_dump_chars(vec@, index_offset as nat, indent, colored));
    }
    r
}

} // verus!
