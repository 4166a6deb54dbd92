//! Text that attributes are rendered as: decimal numbers, hexadecimal trace
//! identifiers and the visible text of a header value.

use vstd::prelude::*;

verus! {

/// `String::push` of the standard library: the character is appended.
#[verifier::external_body]
fn push_char(text: &mut String, c: char)
    ensures
        final(text)@ == old(text)@.push(c),
{
    text.push(c)
}

/// Whether two texts hold the same characters.
pub fn same_text(a: &str, b: &str) -> (same: bool)
    ensures
        same == (a@ == b@),
{
    a.to_owned() == b.to_owned()
}

/// The character of a digit below sixteen, lower case from ten on.
pub open spec fn digit_char(d: int) -> char {
    if d < 10 {
        (48 + d) as u8 as char
    } else {
        (87 + d) as u8 as char
    }
}

/// The decimal digits of `n`, without leading zeros.
pub open spec fn decimal(n: nat) -> Seq<char>
    decreases n,
{
    if n < 10 {
        seq![digit_char(n as int)]
    } else {
        decimal(n / 10).push(digit_char((n % 10) as int))
    }
}

/// The `width` lowest hexadecimal digits of `n`, highest first.
pub open spec fn hex(n: nat, width: nat) -> Seq<char>
    decreases width,
{
    if width == 0 {
        Seq::empty()
    } else {
        hex(n / 16, (width - 1) as nat).push(digit_char((n % 16) as int))
    }
}

fn digit(d: u8) -> (c: char)
    requires
        d < 16,
    ensures
        c == digit_char(d as int),
{
    if d < 10 {
        (48 + d) as char
    } else {
        (87 + d) as char
    }
}

/// Appends the decimal digits of `n` to `text`.
pub fn push_decimal(text: &mut String, n: u64)
    ensures
        final(text)@ == old(text)@ + decimal(n as nat),
    decreases n,
{
    if n >= 10 {
        push_decimal(text, n / 10);
    }
    push_char(text, digit((n % 10) as u8));
}

/// The decimal digits of `n`.
pub fn decimal_text(n: u64) -> (text: String)
    ensures
        text@ == decimal(n as nat),
{
    let mut text = String::new();
    push_decimal(&mut text, n);
    text
}

fn push_hex(text: &mut String, n: u128, width: u8)
    ensures
        final(text)@ == old(text)@ + hex(n as nat, width as nat),
    decreases width,
{
    if width > 0 {
        push_hex(text, n / 16, width - 1);
        push_char(text, digit((n % 16) as u8));
    }
}

/// A 128-bit identifier as 32 lower-case hexadecimal digits.
pub fn hex_text(id: u128) -> (text: String)
    ensures
        text@ == hex(id as nat, 32),
{
    let mut text = String::new();
    push_hex(&mut text, id, 32);
    text
}

/// Whether a byte of a header value is visible text: a printable ASCII
/// character or a tab.
pub open spec fn visible(b: u8) -> bool {
    32 <= b < 127 || b == 9
}

/// The text of a header value: its bytes read as ASCII characters, if every
/// one of them is visible.
pub open spec fn visible_text(bytes: Seq<u8>) -> Option<Seq<char>> {
    if forall|i: int| 0 <= i < bytes.len() ==> visible(#[trigger] bytes[i]) {
        Some(Seq::new(bytes.len(), |i: int| bytes[i] as char))
    } else {
        None
    }
}

/// Reads a header value as text.
pub fn header_text(bytes: &Vec<u8>) -> (text: Option<String>)
    ensures
        match text {
            Some(t) => visible_text(bytes@) == Some(t@),
            None => visible_text(bytes@) is None,
        },
{
    let mut text = String::new();
    let mut i: usize = 0;
    while i < bytes.len()
        invariant
            i <= bytes.len(),
            forall|j: int| 0 <= j < i ==> visible(#[trigger] bytes[j]),
            text@ == Seq::new(i as nat, |j: int| bytes[j] as char),
        decreases bytes.len() - i,
    {
        let b = bytes[i];
        if !(32 <= b && b < 127 || b == 9) {
            return None;
        }
        push_char(&mut text, b as char);
        i += 1;
    }
    Some(text)
}

} // verus!
