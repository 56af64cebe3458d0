//! Small helpers on text and flags.

use vstd::prelude::*;
use vstd::string::*;

verus! {

/// The text without one trailing line terminator: `"\r\n"` is looked for
/// first, then `"\n"`; at most one terminator is taken away.
pub open spec fn stripped(s: Seq<char>) -> Seq<char> {
    if s.len() >= 2 && s[s.len() - 2] == '\r' && s[s.len() - 1] == '\n' {
        s.subrange(0, s.len() - 2)
    } else if s.len() >= 1 && s[s.len() - 1] == '\n' {
        s.subrange(0, s.len() - 1)
    } else {
        s
    }
}

/// Copies `s` without its trailing line terminator, if it has one.
pub fn strip_trailing_newline(s: &str) -> (res: String)
    ensures
        res@ == stripped(s@),
{
    let n: usize = s.unicode_len();
    if n >= 2 && s.get_char(n - 2) == '\r' && s.get_char(n - 1) == '\n' {
        s.substring_char(0, n - 2).to_owned()
    } else if n >= 1 && s.get_char(n - 1) == '\n' {
        s.substring_char(0, n - 1).to_owned()
    } else {
        s.to_owned()
    }
}

/// Whether something changed: the flag as it stands, or a changed item.
///
/// `check_fn` is asked about the items in order, and only while nothing
/// changed has been found; it is not asked at all when `current_val` is set.
pub fn check_dirty<T, F>(current_val: &bool, items: &[T], check_fn: F) -> (dirty: bool) where
    F: FnMut(&T) -> bool,

    requires
        !*current_val ==> forall|i: int|
            0 <= i < items@.len() ==> call_requires(check_fn, (&#[trigger] items@[i],)),
    ensures
        dirty ==> *current_val || exists|i: int|
            0 <= i < items@.len() && call_ensures(check_fn, (&#[trigger] items@[i],), true),
        !dirty ==> !*current_val && forall|i: int|
            0 <= i < items@.len() ==> call_ensures(check_fn, (&#[trigger] items@[i],), false),
{
    broadcast use vstd::function::group_function_axioms;

    if *current_val {
        return true;
    }
    let mut ask = check_fn;
    let mut k: usize = 0;
    while k < items.len()
        invariant
            k <= items@.len(),
            ask == check_fn,
            forall|i: int|
                0 <= i < items@.len() ==> call_requires(check_fn, (&#[trigger] items@[i],)),
            forall|i: int| 0 <= i < k ==> call_ensures(check_fn, (&#[trigger] items@[i],), false),
        decreases items@.len() - k,
    {
        if ask(&items[k]) {
            assert(call_ensures(check_fn, (&items@[k as int],), true));
            return true;
        }
        k += 1;
    }
    false
}

/// The character that stands for a digit from 0 to 9.
pub open spec fn digit_char(digit: nat) -> char {
    if digit == 0 {
        '0'
    } else if digit == 1 {
        '1'
    } else if digit == 2 {
        '2'
    } else if digit == 3 {
        '3'
    } else if digit == 4 {
        '4'
    } else if digit == 5 {
        '5'
    } else if digit == 6 {
        '6'
    } else if digit == 7 {
        '7'
    } else if digit == 8 {
        '8'
    } else {
        '9'
    }
}

/// A number written in base ten, without leading zeros.
pub open spec fn decimal(n: nat) -> Seq<char>
    decreases n,
{
    if n < 10 {
        seq![digit_char(n)]
    } else {
        decimal(n / 10).push(digit_char(n % 10))
    }
}

fn digit_text(digit: u128) -> (text: &'static str)
    requires
        digit < 10,
    ensures
        text@ == seq![digit_char(digit as nat)],
{
    proof {
        reveal_strlit("0");
        reveal_strlit("1");
        reveal_strlit("2");
        reveal_strlit("3");
        reveal_strlit("4");
        reveal_strlit("5");
        reveal_strlit("6");
        reveal_strlit("7");
        reveal_strlit("8");
        reveal_strlit("9");
    }
    let text = if digit == 0 {
        "0"
    } else if digit == 1 {
        "1"
    } else if digit == 2 {
        "2"
    } else if digit == 3 {
        "3"
    } else if digit == 4 {
        "4"
    } else if digit == 5 {
        "5"
    } else if digit == 6 {
        "6"
    } else if digit == 7 {
        "7"
    } else if digit == 8 {
        "8"
    } else {
        "9"
    };
    assert(text@ =~= seq![digit_char(digit as nat)]);
    text
}

/// Writes a number in base ten.
pub fn decimal_text(n: u128) -> (text: String)
    ensures
        text@ == decimal(n as nat),
    decreases n,
{
    if n < 10 {
        digit_text(n).to_owned()
    } else {
        let mut text = decimal_text(n / 10);
        text.append(digit_text(n % 10));
        assert(text@ =~= decimal(n as nat));
        text
    }
}

/// The value of a hexadecimal digit, in either case.
pub open spec fn hex_digit(c: char) -> Option<nat> {
    if '0' <= c <= '9' {
        Some((c as nat - '0' as nat) as nat)
    } else if 'a' <= c <= 'f' {
        Some((c as nat - 'a' as nat + 10) as nat)
    } else if 'A' <= c <= 'F' {
        Some((c as nat - 'A' as nat + 10) as nat)
    } else {
        None
    }
}

/// The value of two characters read as one byte in hexadecimal: two digits,
/// or a plus sign and one digit.
pub open spec fn hex_pair(high: char, low: char) -> Option<nat> {
    if high == '+' {
        hex_digit(low)
    } else {
        match (hex_digit(high), hex_digit(low)) {
            (Some(h), Some(l)) => Some(16 * h + l),
            _ => None,
        }
    }
}

/// The value of the pair of characters at a position counted in pairs.
pub open spec fn hex_pair_at(text: Seq<char>, k: int) -> Option<nat> {
    hex_pair(text[2 * k], text[2 * k + 1])
}

/// Whether a text is made of pairs that each read as one byte.
pub open spec fn is_hex_text(text: Seq<char>) -> bool {
    &&& text.len() % 2 == 0
    &&& forall|k: int| 0 <= k < text.len() / 2 ==> #[trigger] hex_pair_at(text, k) is Some
}

fn hex_digit_value(c: char) -> (value: Option<u8>)
    ensures
        match value {
            Some(v) => hex_digit(c) == Some(v as nat),
            None => hex_digit(c) is None,
        },
{
    if '0' <= c && c <= '9' {
        Some((c as u32 - '0' as u32) as u8)
    } else if 'a' <= c && c <= 'f' {
        Some((c as u32 - 'a' as u32 + 10) as u8)
    } else if 'A' <= c && c <= 'F' {
        Some((c as u32 - 'A' as u32 + 10) as u8)
    } else {
        None
    }
}

fn hex_pair_value(high: char, low: char) -> (value: u8)
    requires
        hex_pair(high, low) is Some,
    ensures
        hex_pair(high, low) == Some(value as nat),
{
    let l = hex_digit_value(low).unwrap();
    if high == '+' {
        l
    } else {
        let h = hex_digit_value(high).unwrap();
        16 * h + l
    }
}

/// Whether [`hex_to_rgb`] can read the text: it is made of pairs that read
/// as bytes, and holds three of them at least.
pub fn is_hex_colour(hex: &str) -> (readable: bool)
    ensures
        readable == (is_hex_text(hex@) && hex@.len() >= 6),
{
    let n: usize = hex.unicode_len();
    if n % 2 != 0 || n < 6 {
        return false;
    }
    let mut k: usize = 0;
    while k < n / 2
        invariant
            n == hex@.len(),
            n % 2 == 0,
            k <= n / 2,
            forall|i: int| 0 <= i < k ==> #[trigger] hex_pair_at(hex@, i) is Some,
        decreases n / 2 - k,
    {
        let high = hex.get_char(2 * k);
        let low = hex.get_char(2 * k + 1);
        let read = if high == '+' {
            hex_digit_value(low).is_some()
        } else {
            hex_digit_value(high).is_some() && hex_digit_value(low).is_some()
        };
        if !read {
            assert(hex_pair_at(hex@, k as int) is None);
            return false;
        }
        assert(hex_pair_at(hex@, k as int) is Some);
        k += 1;
    }
    true
}

/// Reads a colour written as hexadecimal text: the red, green and blue
/// bytes are the first three pairs of characters. The whole text has to be
/// made of pairs that read as bytes, and to hold three of them at least.
pub fn hex_to_rgb(hex: &str) -> (rgb: (u8, u8, u8))
    requires
        is_hex_text(hex@),
        hex@.len() >= 6,
    ensures
        hex_pair_at(hex@, 0) == Some(rgb.0 as nat),
        hex_pair_at(hex@, 1) == Some(rgb.1 as nat),
        hex_pair_at(hex@, 2) == Some(rgb.2 as nat),
{
    assert(hex_pair_at(hex@, 0) is Some && hex_pair_at(hex@, 1) is Some && hex_pair_at(hex@, 2)
        is Some);
    let red = hex_pair_value(hex.get_char(0), hex.get_char(1));
    let green = hex_pair_value(hex.get_char(2), hex.get_char(3));
    let blue = hex_pair_value(hex.get_char(4), hex.get_char(5));
    (red, green, blue)
}

} // verus!
