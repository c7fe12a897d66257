//! The integer decisions of drawing: how many pixels the visible range spans,
//! which grid lines are drawn brighter, and the text of the status line.

use vstd::prelude::*;
use vstd::string::*;

verus! {

/// `m / 2` rounded toward zero, as integer division of Rust computes it.
pub open spec fn half_toward_zero(m: int) -> int {
    if m >= 0 {
        m / 2
    } else {
        -((-m) / 2)
    }
}

/// Half the smaller of the two extents of a window, rounded toward zero.
pub open spec fn spec_max_pixel_from_center(window_width: int, window_height: int) -> int {
    half_toward_zero(
        if window_height <= window_width {
            window_height
        } else {
            window_width
        },
    )
}

/// The number of pixels from the centre of the window to the nearer edge: half
/// of the smaller extent of the window, which counts as the visible range.
pub fn max_pixel_from_center(window_width: i32, window_height: i32) -> (pixels: i32)
    ensures
        pixels == half_toward_zero(
            if window_height <= window_width {
                window_height as int
            } else {
                window_width as int
            },
        ),
        pixels == spec_max_pixel_from_center(window_width as int, window_height as int),
{
    let smaller = if window_height <= window_width {
        window_height
    } else {
        window_width
    };
    smaller / 2
}


/// The brightness of a line of the background grid.
#[derive(Clone, Copy, Debug, PartialEq, Eq, Structural)]
pub enum GridShade {
    /// Every tenth line.
    Light,
    /// Every fifth line that is not a tenth one.
    Medium,
    /// All other lines.
    Dark,
}

/// The shade of grid line number `sub`, counted from the first line drawn.
pub open spec fn spec_line_shade(sub: int) -> GridShade {
    if sub % 10 == 0 {
        GridShade::Light
    } else if sub % 5 == 0 {
        GridShade::Medium
    } else {
        GridShade::Dark
    }
}

/// The shade of grid line number `sub`: every tenth line is light, every other
/// fifth line medium, the rest dark.
pub fn line_shade(sub: i16) -> (shade: GridShade)
    ensures
        shade == spec_line_shade(sub as int),
{
    if sub % 5 == 0 {
        if sub % 10 == 0 {
            GridShade::Light
        } else {
            GridShade::Medium
        }
    } else {
        GridShade::Dark
    }
}

/// The character of decimal digit `d`.
pub open spec fn digit_char(d: int) -> char {
    if d == 0 {
        '0'
    } else if d == 1 {
        '1'
    } else if d == 2 {
        '2'
    } else if d == 3 {
        '3'
    } else if d == 4 {
        '4'
    } else if d == 5 {
        '5'
    } else if d == 6 {
        '6'
    } else if d == 7 {
        '7'
    } else if d == 8 {
        '8'
    } else {
        '9'
    }
}

/// The decimal digits of `n`, most significant first, without leading zeros.
pub open spec fn decimal(n: nat) -> Seq<char>
    decreases n,
{
    if n < 10 {
        seq![digit_char(n as int)]
    } else {
        decimal(n / 10).push(digit_char((n % 10) as int))
    }
}

/// The text of decimal digit `d`.
fn digit_text(d: usize) -> (text: &'static str)
    requires
        d < 10,
    ensures
        text@ == seq![digit_char(d as int)],
{
    match d {
        0 => {
            proof {
                reveal_strlit("0");
            }
            "0"
        },
        1 => {
            proof {
                reveal_strlit("1");
            }
            "1"
        },
        2 => {
            proof {
                reveal_strlit("2");
            }
            "2"
        },
        3 => {
            proof {
                reveal_strlit("3");
            }
            "3"
        },
        4 => {
            proof {
                reveal_strlit("4");
            }
            "4"
        },
        5 => {
            proof {
                reveal_strlit("5");
            }
            "5"
        },
        6 => {
            proof {
                reveal_strlit("6");
            }
            "6"
        },
        7 => {
            proof {
                reveal_strlit("7");
            }
            "7"
        },
        8 => {
            proof {
                reveal_strlit("8");
            }
            "8"
        },
        _ => {
            proof {
                reveal_strlit("9");
            }
            "9"
        },
    }
}

/// Appends the decimal digits of `n` to `text`.
fn append_decimal(text: &mut String, n: usize)
    ensures
        final(text)@ == old(text)@ + decimal(n as nat),
    decreases n,
{
    if n >= 10 {
        append_decimal(text, n / 10);
    }
    text.append(digit_text(n % 10));
    proof {
        if n >= 10 {
            assert(old(text)@ + decimal(n as nat) =~= old(text)@ + decimal((n / 10) as nat) + seq![
                digit_char((n % 10) as int),
            ]);
        }
    }
}

/// The status line of the screen: the scene's text, a space, and the ring
/// slot of the positions being drawn, in decimal.
pub fn hud_text(text: &str, position_index: usize) -> (line: String)
    ensures
        line@ == text@ + " "@ + decimal(position_index as nat),
{
    let mut line = String::from_str(text);
    line.append(" ");
    append_decimal(&mut line, position_index);
    line
}


/// The visible range does not depend on which extent is the width. For a
/// window of non-negative extents it is the largest number of pixels that fits
/// twice into both the width and the height; where an extent is negative it
/// is not positive.
pub proof fn lemma_max_pixel_from_center_fits(width: int, height: int)
    ensures
        spec_max_pixel_from_center(width, height) == spec_max_pixel_from_center(height, width),
        0 <= width && 0 <= height ==> {
            let p = spec_max_pixel_from_center(width, height);
            &&& 0 <= p
            &&& 2 * p <= width
            &&& 2 * p <= height
            &&& (2 * p + 2 > width || 2 * p + 2 > height)
        },
        width < 0 || height < 0 ==> spec_max_pixel_from_center(width, height) <= 0,
{
}

/// Line `sub` is light exactly when it is a multiple of ten, medium exactly
/// when it is a multiple of five but not of ten, and dark otherwise; the
/// pattern repeats every ten lines and reads the same backwards from line 0.
pub proof fn lemma_line_shade_pattern(sub: int)
    ensures
        (spec_line_shade(sub) == GridShade::Light) <==> sub % 10 == 0,
        (spec_line_shade(sub) == GridShade::Medium) <==> (sub % 5 == 0 && sub % 10 != 0),
        (spec_line_shade(sub) == GridShade::Dark) <==> sub % 5 != 0,
        spec_line_shade(sub + 10) == spec_line_shade(sub),
        spec_line_shade(-sub) == spec_line_shade(sub),
{
    assert(sub % 10 == 0 ==> sub % 5 == 0);
    assert((sub + 10) % 10 == sub % 10);
    assert((sub + 10) % 5 == sub % 5);
    assert(sub % 10 == 0 <==> (-sub) % 10 == 0);
    assert(sub % 5 == 0 <==> (-sub) % 5 == 0);
}

/// The number that a sequence of decimal digits reads as.
pub open spec fn digits_value(digits: Seq<char>) -> int
    decreases digits.len(),
{
    if digits.len() == 0 {
        0
    } else {
        digits_value(digits.drop_last()) * 10 + (digits.last() as int - '0' as int)
    }
}

/// Whether every character of `text` is a decimal digit.
pub open spec fn all_digits(text: Seq<char>) -> bool {
    forall|k: int| 0 <= k < text.len() ==> '0' <= #[trigger] text[k] <= '9'
}

/// The decimal text of `n` consists of digits only, starts with a digit other
/// than zero unless `n` is zero, and reads back as `n`.
pub proof fn lemma_decimal_reads_back(n: nat)
    ensures
        all_digits(decimal(n)),
        decimal(n).len() >= 1,
        n > 0 ==> decimal(n)[0] != '0',
        n == 0 ==> decimal(n) == seq!['0'],
        digits_value(decimal(n)) == n,
    decreases n,
{
    let last = (n % 10) as int;
    assert(digit_char(last) as int - '0' as int == last);
    assert('0' <= digit_char(last) <= '9');
    let d = decimal(n);
    if n >= 10 {
        lemma_decimal_reads_back(n / 10);
        assert(d.drop_last() == decimal(n / 10));
        assert(d.last() == digit_char(last));
        assert(d[0] == decimal(n / 10)[0]);
        assert(digits_value(d) == (n / 10) * 10 + last);
    } else {
        assert(last == n);
        assert(d.drop_last() =~= Seq::<char>::empty());
        assert(digits_value(d) == digits_value(d.drop_last()) * 10 + (d.last() as int - '0' as int));
    }
}

/// The status line holds the text, then one space, then digits that read back
/// as the ring slot.
pub proof fn lemma_hud_text_reads_back(text: Seq<char>, position_index: nat)
    ensures
        ({
            let line = text + " "@ + decimal(position_index);
            &&& line.subrange(0, text.len() as int) == text
            &&& line[text.len() as int] == ' '
            &&& all_digits(line.subrange(text.len() + 1int, line.len() as int))
            &&& digits_value(line.subrange(text.len() + 1int, line.len() as int)) == position_index
        }),
{
    reveal_strlit(" ");
    lemma_decimal_reads_back(position_index);
    let line = text + " "@ + decimal(position_index);
    assert(line.subrange(0, text.len() as int) =~= text);
    assert(line.subrange(text.len() + 1int, line.len() as int) =~= decimal(position_index));
}

} // verus!
