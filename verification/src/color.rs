//! Button colours and the text form they are configured in.
//!
//! A colour is written as hexadecimal digits, `RRGGBB`, after any number of
//! leading `#` and then any number of leading `0x`. Text that is no such
//! number stands for black.

use vstd::prelude::*;
use vstd::string::StrSliceExecFns;

verus! {

/// A colour: red, green and blue, eight bits each, in the lower 24 bits.
#[derive(Clone, Copy, Debug, PartialEq, Eq, Structural)]
pub struct ButtonColor {
    pub rgb: u32,
}

/// `s` without every leading repetition of `prefix`.
pub open spec fn strip_all(s: Seq<char>, prefix: Seq<char>) -> Seq<char>
    decreases s.len(),
{
    if prefix.len() > 0 && prefix.is_prefix_of(s) {
        strip_all(s.skip(prefix.len() as int), prefix)
    } else {
        s
    }
}

/// The value of a hexadecimal digit, of either case.
pub open spec fn hex_digit(c: char) -> Option<nat> {
    let n = c as u32;
    if 0x30 <= n <= 0x39 {
        Some((n - 0x30) as nat)
    } else if 0x61 <= n <= 0x66 {
        Some((n - 0x61 + 10) as nat)
    } else if 0x41 <= n <= 0x46 {
        Some((n - 0x41 + 10) as nat)
    } else {
        None
    }
}

/// The number that `digits` spell in base 16, most significant digit first,
/// if every one of them is a hexadecimal digit. No digits spell zero.
pub open spec fn hex_number(digits: Seq<char>) -> Option<nat>
    decreases digits.len(),
{
    if digits.len() == 0 {
        Some(0)
    } else {
        match (hex_number(digits.drop_last()), hex_digit(digits.last())) {
            (Some(upper), Some(d)) => Some(16 * upper + d),
            _ => None,
        }
    }
}

/// The 32-bit number that `s` spells in base 16: an optional `+`, then at
/// least one digit, and a value that fits.
pub open spec fn parse_hex_u32(s: Seq<char>) -> Option<u32> {
    let digits = if s.len() > 0 && s[0] == '+' {
        s.skip(1)
    } else {
        s
    };
    if digits.len() == 0 {
        None
    } else {
        match hex_number(digits) {
            Some(v) => if v <= u32::MAX {
                Some(v as u32)
            } else {
                None
            },
            None => None,
        }
    }
}

/// The colour that the text `s` stands for.
pub open spec fn color_value(s: Seq<char>) -> u32 {
    match parse_hex_u32(strip_all(strip_all(s, seq!['#']), seq!['0', 'x'])) {
        Some(v) => v,
        None => 0,
    }
}

/// A number never gets smaller by a further digit.
proof fn lemma_hex_number_grows(digits: Seq<char>, n: int)
    requires
        0 <= n <= digits.len(),
        hex_number(digits) is Some,
    ensures
        hex_number(digits.take(n)) is Some,
        hex_number(digits.take(n))->0 <= hex_number(digits)->0,
    decreases digits.len() - n,
{
    if n == digits.len() {
        assert(digits.take(n) == digits);
    } else {
        lemma_hex_number_grows(digits, n + 1);
        assert(digits.take(n + 1).drop_last() == digits.take(n));
    }
}

/// Where a shorter run of digits spells no number, the whole run spells none.
proof fn lemma_hex_number_fails(digits: Seq<char>, n: int)
    requires
        0 <= n <= digits.len(),
        hex_number(digits.take(n)) is None,
    ensures
        hex_number(digits) is None,
{
    if hex_number(digits) is Some {
        lemma_hex_number_grows(digits, n);
    }
}

/// The value of the hexadecimal digit `c`.
fn digit_value(c: char) -> (d: Option<u32>)
    ensures
        match d {
            Some(v) => hex_digit(c) == Some(v as nat) && v < 16,
            None => hex_digit(c) is None,
        },
{
    let n = c as u32;
    if 0x30 <= n && n <= 0x39 {
        Some(n - 0x30)
    } else if 0x61 <= n && n <= 0x66 {
        Some(n - 0x61 + 10)
    } else if 0x41 <= n && n <= 0x46 {
        Some(n - 0x41 + 10)
    } else {
        None
    }
}

impl ButtonColor {
    /// Reads a colour from its text form. Any text is taken: what is no
    /// hexadecimal number of 32 bits gives black.
    pub fn parse(s: &str) -> (c: Self)
        ensures
            c.rgb == color_value(s@),
    {
        let n = s.unicode_len();
        let ghost hash = seq!['#'];
        let ghost zero_x = seq!['0', 'x'];
        let mut i: usize = 0;
        assert(s@.skip(0) =~= s@);
        while i < n && s.get_char(i) == '#'
            invariant
                n == s@.len(),
                i <= n,
                hash == seq!['#'],
                strip_all(s@, hash) == strip_all(s@.skip(i as int), hash),
            decreases n - i,
        {
            proof {
                let t = s@.skip(i as int);
                assert(t.skip(1) =~= s@.skip(i + 1));
            }
            i += 1;
        }
        proof {
            let t = s@.skip(i as int);
            if hash.is_prefix_of(t) {
                assert(t.subrange(0, 1)[0] == hash[0]);
            }
        }
        let ghost stripped = s@.skip(i as int);
        while n - i >= 2 && s.get_char(i) == '0' && s.get_char(i + 1) == 'x'
            invariant
                n == s@.len(),
                i <= n,
                zero_x == seq!['0', 'x'],
                strip_all(stripped, zero_x) == strip_all(s@.skip(i as int), zero_x),
            decreases n - i,
        {
            proof {
                let t = s@.skip(i as int);
                assert(t.skip(2) =~= s@.skip(i + 2));
            }
            i += 2;
        }
        let ghost number = s@.skip(i as int);
        if i < n && s.get_char(i) == '+' {
            i += 1;
        }
        let ghost digits = s@.skip(i as int);
        proof {
            if number.len() > 0 && number[0] == '+' {
                assert(number.skip(1) =~= digits);
            }
        }
        if i >= n {
            return ButtonColor { rgb: 0 };
        }
        let start = i;
        let mut acc: u32 = 0;
        while i < n
            invariant
                n == s@.len(),
                start <= i <= n,
                digits == s@.skip(start as int),
                hex_number(digits.take(i - start)) == Some(acc as nat),
                color_value(s@) == match hex_number(digits) {
                    Some(v) => if v <= u32::MAX {
                        v as u32
                    } else {
                        0
                    },
                    None => 0,
                },
            decreases n - i,
        {
            let ghost upto = digits.take(i - start + 1);
            proof {
                assert(upto.drop_last() == digits.take(i - start));
            }
            match digit_value(s.get_char(i)) {
                None => {
                    proof {
                        lemma_hex_number_fails(digits, i - start + 1);
                    }
                    return ButtonColor { rgb: 0 };
                },
                Some(d) => {
                    if acc > (u32::MAX - d) / 16 {
                        proof {
                            if hex_number(digits) is Some {
                                lemma_hex_number_grows(digits, i - start + 1);
                            }
                        }
                        return ButtonColor { rgb: 0 };
                    }
                    acc = acc * 16 + d;
                },
            }
            i += 1;
        }
        proof {
            assert(digits.take(i - start) == digits);
        }
        ButtonColor { rgb: acc }
    }

    /// The colour that an optional text stands for: none for no text.
    pub fn from_option_string(s: &Option<String>) -> (c: Option<Self>)
        ensures
            match *s {
                Some(text) => c == Some(ButtonColor { rgb: color_value(text@) }),
                None => c is None,
            },
    {
        match s {
            Some(text) => Some(ButtonColor::parse(text.as_str())),
            None => None,
        }
    }
}

impl std::str::FromStr for ButtonColor {
    type Err = crate::error::DeckError;

    fn from_str(s: &str) -> (r: Result<Self, Self::Err>)
        ensures
            r matches Ok(c) && c.rgb == color_value(s@),
    {
        Ok(ButtonColor::parse(s))
    }
}

} // verus!
