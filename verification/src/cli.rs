//! The options a session is started with.

use crate::chars::chars_of;
use vstd::prelude::*;

verus! {

/// The startup options. They are read once and handed to every part that
/// needs them.
#[derive(Clone, Debug, PartialEq, Eq)]
pub struct Cli {
    /// Keep the scroll offset where it is when output arrives.
    pub no_scroll: bool,
    /// The shell that runs each command.
    pub shell: String,
    /// The number of lines one tick of the mouse wheel scrolls.
    pub scroll_speed: u8,
}

/// The shell used where none is named.
pub open spec fn default_shell() -> Seq<char> {
    "bash"@
}

/// The scroll speed used where none is named.
pub const DEFAULT_SCROLL_SPEED: u8 = 3;

impl Default for Cli {
    fn default() -> (cli: Cli)
        ensures
            !cli.no_scroll,
            cli.shell@ == default_shell(),
            cli.scroll_speed == DEFAULT_SCROLL_SPEED,
    {
        Cli { no_scroll: false, shell: "bash".to_string(), scroll_speed: DEFAULT_SCROLL_SPEED }
    }
}

/// Whether `c` is one of the ten decimal digits.
pub open spec fn is_digit(c: char) -> bool {
    '0' <= c <= '9'
}

/// The number that the digit `c` stands for.
pub open spec fn digit_value(c: char) -> nat {
    (c as u32 - '0' as u32) as nat
}

/// Whether `s` holds digits only.
pub open spec fn all_digits(s: Seq<char>) -> bool {
    forall|i: int| 0 <= i < s.len() ==> is_digit(#[trigger] s[i])
}

/// The number that the digits `s` write in base ten; zero for no digits.
pub open spec fn decimal_value(s: Seq<char>) -> nat
    decreases s.len(),
{
    if s.len() == 0 {
        0
    } else {
        decimal_value(s.drop_last()) * 10 + digit_value(s.last())
    }
}

/// `s` without the plus sign that may stand at its start.
pub open spec fn unsigned_part(s: Seq<char>) -> Seq<char> {
    if s.len() > 0 && s[0] == '+' {
        s.drop_first()
    } else {
        s
    }
}

/// The scroll speed that `text` writes: a number from 0 to 255 in decimal
/// digits, with leading zeros or one plus sign before it if any, and
/// nothing else. Any other text writes none.
pub open spec fn speed_of(text: Seq<char>) -> Option<u8> {
    let digits = unsigned_part(text);
    if digits.len() > 0 && all_digits(digits) && decimal_value(digits) <= u8::MAX {
        Some(decimal_value(digits) as u8)
    } else {
        None
    }
}

/// Reads a scroll speed.
pub fn parse_scroll_speed(text: &str) -> (speed: Option<u8>)
    ensures
        speed == speed_of(text@),
{
    let chars: Vec<char> = chars_of(text);
    let start: usize = if chars.len() > 0 && chars[0] == '+' {
        1
    } else {
        0
    };
    let ghost digits = unsigned_part(text@);
    assert(digits =~= chars@.subrange(start as int, chars.len() as int));
    let mut value: u32 = 0;
    let mut i: usize = start;
    assert(digits.take(0) =~= Seq::empty());
    while i < chars.len()
        invariant
            start <= i <= chars.len(),
            digits == chars@.subrange(start as int, chars.len() as int),
            digits == unsigned_part(text@),
            all_digits(digits.take(i - start)),
            value <= 256,
            value == if decimal_value(digits.take(i - start)) <= 255 {
                decimal_value(digits.take(i - start))
            } else {
                256
            },
        decreases chars.len() - i,
    {
        let c: char = chars[i];
        if !('0' <= c && c <= '9') {
            assert(!is_digit(digits[i - start]));
            return None;
        }
        let digit: u32 = c as u32 - '0' as u32;
        proof {
            let longer = digits.take(i - start + 1);
            assert(longer.drop_last() =~= digits.take(i - start));
            assert(longer.last() == c);
            assert forall|k: int| 0 <= k < longer.len() implies is_digit(#[trigger] longer[k]) by {
                if k < i - start {
                    assert(longer[k] == digits.take(i - start)[k]);
                }
            }
        }
        value = if value * 10 + digit > 255 {
            256
        } else {
            value * 10 + digit
        };
        i += 1;
    }
    assert(digits.take(i - start) =~= digits);
    if i == start || value > 255 {
        None
    } else {
        Some(value as u8)
    }
}

impl Cli {
    /// The options that the given values stand for: whether `--no-scroll`
    /// was given, the shell's name, and the scroll speed as it was written.
    /// There are none where the speed is not a number from 0 to 255.
    pub fn from_values(no_scroll: bool, shell: &str, scroll_speed: &str) -> (cli: Option<Cli>)
        ensures
            cli is Some <==> speed_of(scroll_speed@) is Some,
            cli is Some ==> cli->0.no_scroll == no_scroll && cli->0.shell@ == shell@
                && cli->0.scroll_speed == speed_of(scroll_speed@)->0,
    {
        match parse_scroll_speed(scroll_speed) {
            Some(speed) => Some(Cli { no_scroll, shell: shell.to_string(), scroll_speed: speed }),
            None => None,
        }
    }
}

} // verus!
