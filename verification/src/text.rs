//! Verified plain-text formatting: upper-case hexadecimal bytes and
//! decimal numbers, built character by character so that the exact
//! contents of every produced string are pinned down in specifications.

use vstd::prelude::*;
use vstd::string::StringExecFns;

verus! {

/// The character for one digit value in `0..16`, upper case.
pub open spec fn digit_char(d: int) -> char {
    if d == 0 {
        '0'
    } else if d == 1 {
        '1'
    } else if d == 2 {
        '2'
    } else if d == 3 {
        '3'
    } else if d == 4 {
        '4'
    } else if d == 5 {
        '5'
    } else if d == 6 {
        '6'
    } else if d == 7 {
        '7'
    } else if d == 8 {
        '8'
    } else if d == 9 {
        '9'
    } else if d == 10 {
        'A'
    } else if d == 11 {
        'B'
    } else if d == 12 {
        'C'
    } else if d == 13 {
        'D'
    } else if d == 14 {
        'E'
    } else {
        'F'
    }
}

/// The two upper-case hex digits of one byte.
pub open spec fn byte_hex(b: u8) -> Seq<char> {
    seq![digit_char(b as int / 16), digit_char(b as int % 16)]
}

/// The decimal digits of a non-negative number, most significant first,
/// with no leading zero except for the number zero itself.
pub open spec fn decimal_digits(n: int) -> Seq<char>
    decreases n,
{
    if n < 10 {
        seq![digit_char(n)]
    } else {
        decimal_digits(n / 10) + seq![digit_char(n % 10)]
    }
}

/// Appends the character of one digit value.
fn append_digit(s: &mut String, d: u8)
    requires
        d < 16,
    ensures
        final(s)@ == old(s)@ + seq![digit_char(d as int)],
{
    match d {
        0 => {
            s.append("0");
            proof {
                reveal_strlit("0");
                assert(old(s)@ + "0"@ =~= old(s)@ + seq![digit_char(0)]);
            }
        },
        1 => {
            s.append("1");
            proof {
                reveal_strlit("1");
                assert(old(s)@ + "1"@ =~= old(s)@ + seq![digit_char(1)]);
            }
        },
        2 => {
            s.append("2");
            proof {
                reveal_strlit("2");
                assert(old(s)@ + "2"@ =~= old(s)@ + seq![digit_char(2)]);
            }
        },
        3 => {
            s.append("3");
            proof {
                reveal_strlit("3");
                assert(old(s)@ + "3"@ =~= old(s)@ + seq![digit_char(3)]);
            }
        },
        4 => {
            s.append("4");
            proof {
                reveal_strlit("4");
                assert(old(s)@ + "4"@ =~= old(s)@ + seq![digit_char(4)]);
            }
        },
        5 => {
            s.append("5");
            proof {
                reveal_strlit("5");
                assert(old(s)@ + "5"@ =~= old(s)@ + seq![digit_char(5)]);
            }
        },
        6 => {
            s.append("6");
            proof {
                reveal_strlit("6");
                assert(old(s)@ + "6"@ =~= old(s)@ + seq![digit_char(6)]);
            }
        },
        7 => {
            s.append("7");
            proof {
                reveal_strlit("7");
                assert(old(s)@ + "7"@ =~= old(s)@ + seq![digit_char(7)]);
            }
        },
        8 => {
            s.append("8");
            proof {
                reveal_strlit("8");
                assert(old(s)@ + "8"@ =~= old(s)@ + seq![digit_char(8)]);
            }
        },
        9 => {
            s.append("9");
            proof {
                reveal_strlit("9");
                assert(old(s)@ + "9"@ =~= old(s)@ + seq![digit_char(9)]);
            }
        },
        10 => {
            s.append("A");
            proof {
                reveal_strlit("A");
                assert(old(s)@ + "A"@ =~= old(s)@ + seq![digit_char(10)]);
            }
        },
        11 => {
            s.append("B");
            proof {
                reveal_strlit("B");
                assert(old(s)@ + "B"@ =~= old(s)@ + seq![digit_char(11)]);
            }
        },
        12 => {
            s.append("C");
            proof {
                reveal_strlit("C");
                assert(old(s)@ + "C"@ =~= old(s)@ + seq![digit_char(12)]);
            }
        },
        13 => {
            s.append("D");
            proof {
                reveal_strlit("D");
                assert(old(s)@ + "D"@ =~= old(s)@ + seq![digit_char(13)]);
            }
        },
        14 => {
            s.append("E");
            proof {
                reveal_strlit("E");
                assert(old(s)@ + "E"@ =~= old(s)@ + seq![digit_char(14)]);
            }
        },
        _ => {
            s.append("F");
            proof {
                reveal_strlit("F");
                assert(old(s)@ + "F"@ =~= old(s)@ + seq![digit_char(15)]);
            }
        },
    }
}

/// Appends the two upper-case hex digits of one byte.
pub fn append_byte_hex(s: &mut String, b: u8)
    ensures
        final(s)@ == old(s)@ + byte_hex(b),
{
    append_digit(s, b / 16);
    append_digit(s, b % 16);
    proof {
        assert(final(s)@ =~= old(s)@ + byte_hex(b));
    }
}

/// The digits of `digits`, which hold a number least-significant digit
/// first, read back most significant first.
spec fn reversed_digit_chars(digits: Seq<u8>) -> Seq<char> {
    Seq::new(digits.len(), |i: int| digit_char(digits[digits.len() - 1 - i] as int))
}

/// Appends the decimal rendering of `n`, most significant digit first.
pub fn append_decimal(s: &mut String, n: usize)
    ensures
        final(s)@ == old(s)@ + decimal_digits(n as int),
{
    let mut digits: Vec<u8> = Vec::new();
    let mut m: usize = n;
    digits.push((m % 10) as u8);
    m = m / 10;
    proof {
        assert(reversed_digit_chars(digits@) =~= seq![digit_char(n as int % 10)]);
        if n < 10 {
            assert(decimal_digits(n as int) =~= reversed_digit_chars(digits@));
        } else {
            assert(decimal_digits(n as int) =~= decimal_digits(m as int) + reversed_digit_chars(
                digits@,
            ));
        }
    }
    while m > 0
        invariant
            forall|j: int| 0 <= j < digits@.len() ==> digits@[j] < 10,
            digits@.len() > 0,
            decimal_digits(n as int) == (if m == 0 {
                reversed_digit_chars(digits@)
            } else {
                decimal_digits(m as int) + reversed_digit_chars(digits@)
            }),
        decreases m,
    {
        let ghost pre_digits = digits@;
        let ghost pre_m = m as int;
        digits.push((m % 10) as u8);
        m = m / 10;
        proof {
            assert(reversed_digit_chars(digits@) =~= seq![digit_char(pre_m % 10)]
                + reversed_digit_chars(pre_digits));
            if pre_m < 10 {
                assert(decimal_digits(pre_m) == seq![digit_char(pre_m)]);
                assert(decimal_digits(pre_m) + reversed_digit_chars(pre_digits)
                    =~= reversed_digit_chars(digits@));
            } else {
                assert(decimal_digits(pre_m) == decimal_digits(pre_m / 10) + seq![
                    digit_char(pre_m % 10),
                ]);
                assert(decimal_digits(pre_m) + reversed_digit_chars(pre_digits) =~= decimal_digits(
                    pre_m / 10,
                ) + reversed_digit_chars(digits@));
            }
        }
    }
    let count = digits.len();
    let mut k: usize = 0;
    while k < count
        invariant
            k <= count,
            count == digits@.len(),
            forall|j: int| 0 <= j < digits@.len() ==> digits@[j] < 10,
            s@ == old(s)@ + reversed_digit_chars(digits@).take(k as int),
        decreases count - k,
    {
        append_digit(s, digits[count - 1 - k]);
        proof {
            assert(s@ =~= old(s)@ + reversed_digit_chars(digits@).take(k + 1));
        }
        k = k + 1;
    }
    proof {
        assert(reversed_digit_chars(digits@).take(count as int) =~= reversed_digit_chars(digits@));
    }
}

/// The decimal rendering of `n` as a fresh string.
pub fn decimal_string(n: usize) -> (r: String)
    ensures
        r@ == decimal_digits(n as int),
{
    let mut s = String::new();
    append_decimal(&mut s, n);
    proof {
        assert(s@ =~= decimal_digits(n as int));
    }
    s
}

} // verus!
