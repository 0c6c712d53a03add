//! Width and alignment formatting: padding an already-rendered value to a
//! requested column count, counting decimal digits, and building the
//! bracketed message prefix.

use vstd::prelude::*;

verus! {

/// `n` copies of the character `c`.
pub open spec fn repeat_char(c: char, n: nat) -> Seq<char> {
    Seq::new(n, |i: int| c)
}

/// `n` spaces.
pub open spec fn spaces(n: nat) -> Seq<char> {
    repeat_char(' ', n)
}

/// Where a padded value's slack goes: padding on the right, on the left, or
/// split around the value.
#[derive(Clone, Copy, PartialEq, Eq, Structural, Debug)]
pub enum Alignment {
    Left,
    Right,
    Center,
}

impl Default for Alignment {
    /// Values are left-aligned unless a caller asks otherwise.
    fn default() -> (r: Self)
        ensures
            r == Alignment::Left,
    {
        Alignment::Left
    }
}

/// `s` padded with spaces to width `w` under alignment `a`; a value at least
/// `w` long is returned unchanged, never truncated. Centering puts the odd
/// space on the right.
pub open spec fn aligned_chars(s: Seq<char>, w: nat, a: Alignment) -> Seq<char> {
    if s.len() >= w {
        s
    } else {
        let pad = (w - s.len()) as nat;
        match a {
            Alignment::Left => s + spaces(pad),
            Alignment::Right => spaces(pad) + s,
            Alignment::Center => spaces(pad / 2) + s + spaces((pad - pad / 2) as nat),
        }
    }
}

/// Appends `n` spaces to `out`.
fn push_spaces(out: &mut String, n: usize)
    ensures
        final(out)@ == old(out)@ + spaces(n as nat),
{
    proof {
        reveal_strlit(" ");
    }
    let mut i: usize = 0;
    while i < n
        invariant
            i <= n,
            " "@ =~= seq![' '],
            out@ =~= old(out)@ + spaces(i as nat),
        decreases n - i,
    {
        out.append(" ");
        i += 1;
        proof {
            assert(out@ =~= old(out)@ + spaces(i as nat));
        }
    }
    proof {
        assert(out@ =~= old(out)@ + spaces(n as nat));
    }
}

/// Applies a caller-requested field width and alignment to an
/// already-rendered value: with no width the value is returned unchanged,
/// otherwise it is padded with spaces (never truncated) to the requested
/// column count.
pub fn format_with_options(value: &str, width: Option<usize>, alignment: Alignment) -> (r:
    String)
    ensures
        width is None ==> r@ == value@,
        width matches Some(w) ==> r@ == aligned_chars(value@, w as nat, alignment),
{
    match width {
        None => String::from_str(value),
        Some(w) => {
            let len = value.unicode_len();
            if len >= w {
                String::from_str(value)
            } else {
                let pad = w - len;
                let mut out = String::new();
                match alignment {
                    Alignment::Left => {
                        out.append(value);
                        push_spaces(&mut out, pad);
                    },
                    Alignment::Right => {
                        push_spaces(&mut out, pad);
                        out.append(value);
                    },
                    Alignment::Center => {
                        push_spaces(&mut out, pad / 2);
                        out.append(value);
                        push_spaces(&mut out, pad - pad / 2);
                    },
                }
                proof {
                    assert(out@ =~= aligned_chars(value@, w as nat, alignment));
                }
                out
            }
        },
    }
}

/// A right-aligned value fills at least the requested width, and the
/// original content stands unchanged at the end of the result.
pub proof fn lemma_right_aligned_justified(s: Seq<char>, w: nat)
    ensures
        aligned_chars(s, w, Alignment::Right).len() >= w,
        aligned_chars(s, w, Alignment::Right).len() == if s.len() >= w {
            s.len()
        } else {
            w
        },
        aligned_chars(s, w, Alignment::Right).skip(
            aligned_chars(s, w, Alignment::Right).len() - s.len(),
        ) =~= s,
{
}

/// The number of decimal digits of `n`: one for values below ten, and one
/// more for each further division by ten.
pub open spec fn num_digits_spec(n: nat) -> nat
    decreases n,
{
    if n < 10 {
        1
    } else {
        1 + num_digits_spec(n / 10)
    }
}

/// Counts the decimal digits of `n`; zero has one digit.
pub fn num_digits(n: usize) -> (r: usize)
    ensures
        r == num_digits_spec(n as nat),
{
    let mut m: usize = n;
    let mut count: usize = 1;
    while m >= 10
        invariant
            1 <= count,
            count + m <= n + 1,
            num_digits_spec(n as nat) == (count - 1) + num_digits_spec(m as nat),
        decreases m,
    {
        m = m / 10;
        count = count + 1;
    }
    count
}

/// The decimal digit `d` as a character, for `d` below ten.
pub open spec fn digit_char(d: nat) -> char {
    if d == 0 {
        '0'
    } else if d == 1 {
        '1'
    } else if d == 2 {
        '2'
    } else if d == 3 {
        '3'
    } else if d == 4 {
        '4'
    } else if d == 5 {
        '5'
    } else if d == 6 {
        '6'
    } else if d == 7 {
        '7'
    } else if d == 8 {
        '8'
    } else {
        '9'
    }
}

/// The decimal rendering of `n`, most significant digit first.
pub open spec fn dec_digits(n: nat) -> Seq<char>
    decreases n,
{
    if n < 10 {
        seq![digit_char(n)]
    } else {
        dec_digits(n / 10).push(digit_char(n % 10))
    }
}

/// The decimal rendering of `n` has exactly `num_digits_spec(n)` characters.
pub proof fn lemma_dec_digits_len(n: nat)
    ensures
        dec_digits(n).len() == num_digits_spec(n),
    decreases n,
{
    if n >= 10 {
        lemma_dec_digits_len(n / 10);
    }
}

/// The decimal digit `d` as a one-character string, for `d` below ten.
fn digit_str(d: usize) -> (r: &'static str)
    requires
        d < 10,
    ensures
        r@ =~= seq![digit_char(d as nat)],
{
    proof {
        reveal_strlit("0");
        reveal_strlit("1");
        reveal_strlit("2");
        reveal_strlit("3");
        reveal_strlit("4");
        reveal_strlit("5");
        reveal_strlit("6");
        reveal_strlit("7");
        reveal_strlit("8");
        reveal_strlit("9");
    }
    match d {
        0 => "0",
        1 => "1",
        2 => "2",
        3 => "3",
        4 => "4",
        5 => "5",
        6 => "6",
        7 => "7",
        8 => "8",
        _ => "9",
    }
}

/// Renders `n` in decimal.
pub fn dec_string(n: usize) -> (r: String)
    ensures
        r@ == dec_digits(n as nat),
    decreases n,
{
    if n < 10 {
        String::from_str(digit_str(n))
    } else {
        let mut s = dec_string(n / 10);
        s.append(digit_str(n % 10));
        proof {
            assert(s@ =~= dec_digits(n as nat));
        }
        s
    }
}

/// The decimal rendering of `n`, left-padded with zeros to width `w`; a
/// rendering at least `w` long is kept as it is.
pub open spec fn zero_padded_dec(n: nat, w: nat) -> Seq<char> {
    if dec_digits(n).len() >= w {
        dec_digits(n)
    } else {
        repeat_char('0', (w - dec_digits(n).len()) as nat) + dec_digits(n)
    }
}

/// Renders `n` in decimal, zero-padded on the left to width `w`.
pub fn zero_padded_dec_string(n: usize, w: usize) -> (r: String)
    ensures
        r@ == zero_padded_dec(n as nat, w as nat),
{
    proof {
        lemma_dec_digits_len(n as nat);
        reveal_strlit("0");
    }
    let d = num_digits(n);
    let mut out = String::new();
    if d < w {
        let mut i: usize = 0;
        let pad = w - d;
        while i < pad
            invariant
                i <= pad,
                "0"@ =~= seq!['0'],
                out@ =~= repeat_char('0', i as nat),
            decreases pad - i,
        {
            out.append("0");
            i += 1;
            proof {
                assert(out@ =~= repeat_char('0', i as nat));
            }
        }
    }
    let digits = dec_string(n);
    out.append(digits.as_str());
    proof {
        assert(out@ =~= zero_padded_dec(n as nat, w as nat));
    }
    out
}

/// The bracketed message prefix `[<time> <level><pad>]: `. In color mode the
/// level text carries invisible escape bytes, so its field is padded to 14
/// characters; in plain mode to 5, the longest bare level name.
pub open spec fn prefix_chars(
    time: Seq<char>,
    level_text: Seq<char>,
    contains_ansi_color: bool,
) -> Seq<char> {
    seq!['['] + time + seq![' '] + aligned_chars(
        level_text,
        if contains_ansi_color {
            14
        } else {
            5
        },
        Alignment::Left,
    ) + seq![']', ':', ' ']
}

/// Builds the message prefix `[<time> <level><pad>]: `, padding the level
/// field to 14 characters when it carries ANSI color bytes and to 5 when it
/// is plain text.
pub fn format_log_message_prefix(time: &str, level: &str, contains_ansi_color: bool) -> (r:
    String)
    ensures
        r@ == prefix_chars(time@, level@, contains_ansi_color),
{
    proof {
        reveal_strlit("[");
        reveal_strlit(" ");
        reveal_strlit("]: ");
    }
    let mut out = String::new();
    out.append("[");
    out.append(time);
    out.append(" ");
    let w: usize = if contains_ansi_color {
        14
    } else {
        5
    };
    let aligned = format_with_options(level, Some(w), Alignment::Left);
    out.append(aligned.as_str());
    out.append("]: ");
    proof {
        assert(out@ =~= prefix_chars(time@, level@, contains_ansi_color));
    }
    out
}

} // verus!
