//! Numbers as text: the digits of a number in a base, padded to a width.
//!
//! The dumps and the messages of the machine are built from these.

use vstd::prelude::*;

verus! {

/// The character for one digit below 16: `0`-`9`, then `A`-`F`.
pub open spec fn digit(d: int) -> char {
    if d < 10 {
        ('0' as int + d) as char
    } else {
        ('A' as int + d - 10) as char
    }
}

/// The digits of `value` in `base`, most significant first, without
/// leading zeros; zero is the single digit `0`.
pub open spec fn digits(value: nat, base: nat) -> Seq<char>
    decreases value,
    via digits_decreases
{
    if value < base || base < 2 {
        seq![digit(value as int)]
    } else {
        digits(value / base, base).push(digit((value % base) as int))
    }
}

/// The recursion of `digits` ends: every quotient is smaller.
#[via_fn]
proof fn digits_decreases(value: nat, base: nat) {
    if !(value < base || base < 2) {
        lemma_quotient_smaller(value, base);
    }
}

/// Dividing by a base of two or more makes a number that is no smaller
/// than the base smaller.
pub proof fn lemma_quotient_smaller(value: nat, base: nat)
    requires
        2 <= base <= value,
    ensures
        value / base < value,
{
    vstd::arithmetic::div_mod::lemma_div_decreases(value as int, base as int);
}

/// `text` with as many copies of `fill` in front as it takes to reach
/// `width` characters; a longer text is left alone.
pub open spec fn padded(text: Seq<char>, width: nat, fill: char) -> Seq<char> {
    if text.len() < width {
        Seq::new((width - text.len()) as nat, |i: int| fill) + text
    } else {
        text
    }
}

/// The digits of `value` in `base`, padded in front to `width` characters:
/// with zeros if `zero_fill`, else with spaces.
pub open spec fn number(value: nat, base: nat, width: nat, zero_fill: bool) -> Seq<char> {
    padded(
        digits(value, base),
        width,
        if zero_fill {
            '0'
        } else {
            ' '
        },
    )
}

/// The text of a truth value.
pub open spec fn truth(value: bool) -> Seq<char> {
    if value {
        "true"@
    } else {
        "false"@
    }
}

/// The digits of a signed number in base ten, with a minus sign in front of
/// a negative one.
pub open spec fn signed_decimal(value: int) -> Seq<char> {
    if value < 0 {
        seq!['-'] + digits((-value) as nat, 10)
    } else {
        digits(value as nat, 10)
    }
}

/// The one-character text of a digit.
fn digit_str(d: u16) -> (text: &'static str)
    requires
        d < 16,
    ensures
        text@ == seq![digit(d as int)],
{
    let text = match d {
        0 => {
            proof {
                reveal_strlit("0");
            }
            "0"
        },
        1 => {
            proof {
                reveal_strlit("1");
            }
            "1"
        },
        2 => {
            proof {
                reveal_strlit("2");
            }
            "2"
        },
        3 => {
            proof {
                reveal_strlit("3");
            }
            "3"
        },
        4 => {
            proof {
                reveal_strlit("4");
            }
            "4"
        },
        5 => {
            proof {
                reveal_strlit("5");
            }
            "5"
        },
        6 => {
            proof {
                reveal_strlit("6");
            }
            "6"
        },
        7 => {
            proof {
                reveal_strlit("7");
            }
            "7"
        },
        8 => {
            proof {
                reveal_strlit("8");
            }
            "8"
        },
        9 => {
            proof {
                reveal_strlit("9");
            }
            "9"
        },
        10 => {
            proof {
                reveal_strlit("A");
            }
            "A"
        },
        11 => {
            proof {
                reveal_strlit("B");
            }
            "B"
        },
        12 => {
            proof {
                reveal_strlit("C");
            }
            "C"
        },
        13 => {
            proof {
                reveal_strlit("D");
            }
            "D"
        },
        14 => {
            proof {
                reveal_strlit("E");
            }
            "E"
        },
        _ => {
            proof {
                reveal_strlit("F");
            }
            "F"
        },
    };
    assert(text@ =~= seq![digit(d as int)]);
    text
}

/// Appends the digits of `value` in `base`.
pub fn push_digits(out: &mut String, value: u16, base: u16)
    requires
        2 <= base <= 16,
    ensures
        final(out)@ == old(out)@ + digits(value as nat, base as nat),
    decreases value,
{
    if value >= base {
        proof {
            lemma_quotient_smaller(value as nat, base as nat);
        }
        push_digits(out, value / base, base);
    }
    let ghost front = out@;
    out.append(digit_str(value % base));
    proof {
        let last = digit((value % base) as int);
        assert(out@ == front + seq![last]);
        if value >= base {
            assert(front == old(out)@ + digits((value / base) as nat, base as nat));
            assert(digits(value as nat, base as nat) == digits(
                (value / base) as nat,
                base as nat,
            ).push(last));
            assert(out@ =~= old(out)@ + digits(value as nat, base as nat));
        } else {
            assert(value % base == value) by {
                vstd::arithmetic::div_mod::lemma_small_mod(value as nat, base as nat);
            }
            assert(digits(value as nat, base as nat) == seq![last]);
        }
    }
}

/// The number of digits that `value` has in `base`.
pub fn count_digits(value: u16, base: u16) -> (count: usize)
    requires
        2 <= base <= 16,
    ensures
        count == digits(value as nat, base as nat).len(),
        1 <= count <= value + 1,
    decreases value,
{
    if value >= base {
        proof {
            lemma_quotient_smaller(value as nat, base as nat);
        }
        count_digits(value / base, base) + 1
    } else {
        1
    }
}

/// Appends the digits of `value` in `base`, padded in front to `width`
/// characters: with zeros if `zero_fill`, else with spaces.
pub fn push_number(out: &mut String, value: u16, base: u16, width: usize, zero_fill: bool)
    requires
        2 <= base <= 16,
    ensures
        final(out)@ == old(out)@ + number(value as nat, base as nat, width as nat, zero_fill),
{
    let length = count_digits(value, base);
    let missing = if length < width {
        width - length
    } else {
        0
    };
    let ghost fill = if zero_fill {
        '0'
    } else {
        ' '
    };
    let mut written: usize = 0;
    assert(out@ =~= old(out)@ + Seq::new(0, |i: int| fill));
    while written < missing
        invariant
            written <= missing,
            fill == (if zero_fill {
                '0'
            } else {
                ' '
            }),
            out@ == old(out)@ + Seq::new(written as nat, |i: int| fill),
        decreases missing - written,
    {
        if zero_fill {
            proof {
                reveal_strlit("0");
            }
            out.append("0");
        } else {
            proof {
                reveal_strlit(" ");
            }
            out.append(" ");
        }
        written += 1;
        assert(out@ =~= old(out)@ + Seq::new(written as nat, |i: int| fill));
    }
    push_digits(out, value, base);
    assert(out@ =~= old(out)@ + number(value as nat, base as nat, width as nat, zero_fill));
}

/// Appends the text of a truth value.
pub fn push_truth(out: &mut String, value: bool)
    ensures
        final(out)@ == old(out)@ + truth(value),
{
    if value {
        out.append("true");
    } else {
        out.append("false");
    }
}

/// Appends the digits of a signed 8-bit number in base ten.
pub fn push_signed(out: &mut String, value: i8)
    ensures
        final(out)@ == old(out)@ + signed_decimal(value as int),
{
    if value < 0 {
        proof {
            reveal_strlit("-");
        }
        out.append("-");
        assert(out@ =~= old(out)@ + seq!['-']);
        let magnitude: u16 = (-(value as i16)) as u16;
        push_digits(out, magnitude, 10);
        assert(out@ =~= old(out)@ + signed_decimal(value as int));
    } else {
        push_digits(out, value as u16, 10);
    }
}

} // verus!
