//! The width classes the interface lays itself out for, and the pure text
//! formatting the drawing code puts on screen.

use vstd::prelude::*;
use vstd::string::StringExecFns;

verus! {

/// How wide the terminal is, in the classes the layout distinguishes.
#[derive(Clone, Copy, Debug, PartialEq, Eq, Structural)]
pub enum UiWidth {
    Compact,
    Small,
    Medium,
    Big,
}

/// The width class a terminal of `width` columns falls in.
pub open spec fn spec_width_class(width: u16) -> UiWidth {
    if width <= 27 {
        UiWidth::Small
    } else if width <= 60 {
        UiWidth::Medium
    } else {
        UiWidth::Big
    }
}

/// Classifies the terminal width before each draw.
pub fn width_class(width: u16) -> (r: UiWidth)
    ensures
        r == spec_width_class(width),
{
    if width <= 27 {
        UiWidth::Small
    } else if width <= 60 {
        UiWidth::Medium
    } else {
        UiWidth::Big
    }
}

/// The character for one decimal digit.
pub open spec fn spec_digit_char(d: nat) -> char {
    if d == 0 {
        '0'
    } else if d == 1 {
        '1'
    } else if d == 2 {
        '2'
    } else if d == 3 {
        '3'
    } else if d == 4 {
        '4'
    } else if d == 5 {
        '5'
    } else if d == 6 {
        '6'
    } else if d == 7 {
        '7'
    } else if d == 8 {
        '8'
    } else {
        '9'
    }
}

/// The decimal digits of `n`, most significant first, with no leading
/// zeroes but at least one digit.
pub open spec fn spec_digits(n: nat) -> Seq<char>
    decreases n,
{
    if n < 10 {
        seq![spec_digit_char(n)]
    } else {
        spec_digits(n / 10).push(spec_digit_char(n % 10))
    }
}

/// The decimal digits of `n`, zero-padded on the left to at least two.
pub open spec fn spec_pad2(n: nat) -> Seq<char> {
    if n < 10 {
        seq!['0'] + spec_digits(n)
    } else {
        spec_digits(n)
    }
}

/// The decimal digits of `n`, zero-padded on the left to at least three.
pub open spec fn spec_pad3(n: nat) -> Seq<char> {
    if n < 100 {
        seq!['0'] + spec_pad2(n)
    } else {
        spec_digits(n)
    }
}

/// The clock rendering of a duration of `millis` milliseconds:
/// two-digit hours, minutes and seconds separated by colons, then a comma
/// and either the three-digit milliseconds or stars when they are hidden.
pub open spec fn spec_format_duration(millis: nat, show_millis: bool) -> Seq<char> {
    let secs = millis / 1000;
    let mins = secs / 60;
    let hours = mins / 60;
    spec_pad2(hours) + seq![':'] + spec_pad2(mins % 60) + seq![':'] + spec_pad2(secs % 60)
        + seq![','] + (if show_millis {
        spec_pad3(millis % 1000)
    } else {
        seq!['*', '*', '*']
    })
}

fn digit_char(d: u64) -> (r: char)
    requires
        d < 10,
    ensures
        r == spec_digit_char(d as nat),
{
    if d == 0 {
        '0'
    } else if d == 1 {
        '1'
    } else if d == 2 {
        '2'
    } else if d == 3 {
        '3'
    } else if d == 4 {
        '4'
    } else if d == 5 {
        '5'
    } else if d == 6 {
        '6'
    } else if d == 7 {
        '7'
    } else if d == 8 {
        '8'
    } else {
        '9'
    }
}

fn push_digits(out: &mut String, n: u64)
    ensures
        final(out)@ == old(out)@ + spec_digits(n as nat),
    decreases n,
{
    if n < 10 {
        out.push(digit_char(n));
        proof {
            assert(out@ =~= old(out)@ + spec_digits(n as nat));
        }
    } else {
        push_digits(out, n / 10);
        out.push(digit_char(n % 10));
        proof {
            assert(out@ =~= old(out)@ + spec_digits(n as nat));
        }
    }
}

fn push_pad2(out: &mut String, n: u64)
    ensures
        final(out)@ == old(out)@ + spec_pad2(n as nat),
{
    if n < 10 {
        out.push('0');
    }
    push_digits(out, n);
    proof {
        assert(out@ =~= old(out)@ + spec_pad2(n as nat));
    }
}

fn push_pad3(out: &mut String, n: u64)
    ensures
        final(out)@ == old(out)@ + spec_pad3(n as nat),
{
    if n < 100 {
        out.push('0');
        push_pad2(out, n);
        proof {
            assert(out@ =~= old(out)@ + spec_pad3(n as nat));
        }
    } else {
        push_digits(out, n);
    }
}

/// Renders a duration of `millis` milliseconds as a clock time, with the
/// milliseconds shown or starred out.
pub fn format_duration(millis: u64, show_millis: bool) -> (r: String)
    ensures
        r@ == spec_format_duration(millis as nat, show_millis),
{
    let secs = millis / 1000;
    let mins = secs / 60;
    let hours = mins / 60;
    let mut out = String::new();
    push_pad2(&mut out, hours);
    out.push(':');
    push_pad2(&mut out, mins % 60);
    out.push(':');
    push_pad2(&mut out, secs % 60);
    out.push(',');
    if show_millis {
        push_pad3(&mut out, millis % 1000);
    } else {
        out.push('*');
        out.push('*');
        out.push('*');
    }
    proof {
        assert(out@ =~= spec_format_duration(millis as nat, show_millis));
    }
    out
}

/// Sets a text on its own line for a paragraph, by putting a line break
/// in front of it.
pub fn format_paragraph(text: &str) -> (r: String)
    ensures
        r@ == seq!['\n'] + text@,
{
    let out = String::from_str("\n").concat(text);
    proof {
        reveal_strlit("\n");
        assert(out@ =~= seq!['\n'] + text@);
    }
    out
}

} // verus!
