//! Text rendering of the values that headers carry: decimal and hexadecimal
//! numbers, truth values, dotted addresses.

use vstd::prelude::*;

verus! {

/// The character of a single digit, `0..=9` as `'0'..='9'` and `10..=15` as
/// `'a'..='f'` or `'A'..='F'`.
pub open spec fn digit_char(d: int, upper: bool) -> char {
    if d < 10 {
        (48 + d) as char
    } else if upper {
        (55 + d) as char
    } else {
        (87 + d) as char
    }
}

/// Decimal text of `n`: its digits, most significant first, without leading
/// zeros; zero is the single digit `0`.
pub open spec fn decimal(n: nat) -> Seq<char>
    decreases n,
{
    if n < 10 {
        seq![digit_char(n as int, false)]
    } else {
        decimal(n / 10).push(digit_char((n % 10) as int, false))
    }
}

/// Upper-case hexadecimal digits of `n`, most significant first, without
/// leading zeros.
pub open spec fn upper_hex(n: nat) -> Seq<char>
    decreases n,
{
    if n < 16 {
        seq![digit_char(n as int, true)]
    } else {
        upper_hex(n / 16).push(digit_char((n % 16) as int, true))
    }
}

/// Upper-case hexadecimal text of `n` with the prefix `0x`.
pub open spec fn prefixed_hex(n: nat) -> Seq<char> {
    seq!['0', 'x'] + upper_hex(n)
}

/// Two lower-case hexadecimal digits of a byte.
pub open spec fn hex_pair(b: u8) -> Seq<char> {
    seq![digit_char(b as int / 16, false), digit_char(b as int % 16, false)]
}

/// The text `true` or `false`.
pub open spec fn truth(b: bool) -> Seq<char> {
    if b {
        seq!['t', 'r', 'u', 'e']
    } else {
        seq!['f', 'a', 'l', 's', 'e']
    }
}

/// Four bytes as a dotted decimal address.
pub open spec fn dotted_quad(a: u8, b: u8, c: u8, d: u8) -> Seq<char> {
    decimal(a as nat) + seq!['.'] + decimal(b as nat) + seq!['.'] + decimal(c as nat) + seq!['.']
        + decimal(d as nat)
}

/// The bytes of `s` as characters, each byte as the character of its value.
pub open spec fn bytes_text(s: Seq<u8>) -> Seq<char> {
    Seq::new(s.len(), |i: int| s[i] as char)
}

/// The names of a list of fields, in order.
pub open spec fn field_names(fields: Seq<(Seq<char>, Seq<char>)>) -> Seq<Seq<char>> {
    Seq::new(fields.len(), |i: int| fields[i].0)
}

/// The number that a text of decimal digits stands for.
pub open spec fn decimal_value(digits: Seq<char>) -> nat
    decreases digits.len(),
{
    if digits.len() == 0 {
        0
    } else {
        (decimal_value(digits.drop_last()) * 10 + (digits.last() as int - 48)) as nat
    }
}

/// A list of named fields as a mathematical value: the name and the value of
/// each field, in order.
pub open spec fn fields_view(fields: Seq<(String, String)>) -> Seq<(Seq<char>, Seq<char>)> {
    Seq::new(fields.len(), |i: int| (fields[i].0@, fields[i].1@))
}

/// Appends one character with `String::push`, which adds the character at
/// the end of the string and leaves the rest as it was.
#[verifier::external_body]
pub(crate) fn push_char(s: &mut String, c: char)
    ensures
        final(s)@ == old(s)@.push(c),
{
    s.push(c);
}

/// The character of a digit below sixteen.
fn digit_of(d: u8, upper: bool) -> (c: char)
    requires
        d < 16,
    ensures
        c == digit_char(d as int, upper),
{
    let code: u8 = if d < 10 {
        48 + d
    } else if upper {
        55 + d
    } else {
        87 + d
    };
    code as char
}

/// Appends the decimal text of `n` to `s`.
pub fn push_decimal(s: &mut String, n: u64)
    ensures
        final(s)@ == old(s)@ + decimal(n as nat),
    decreases n,
{
    if n >= 10 {
        push_decimal(s, n / 10);
    }
    let d: u64 = n % 10;
    push_char(s, digit_of(d as u8, false));
}

/// Appends the upper-case hexadecimal digits of `n` to `s`.
fn push_upper_hex(s: &mut String, n: u64)
    ensures
        final(s)@ == old(s)@ + upper_hex(n as nat),
    decreases n,
{
    if n >= 16 {
        push_upper_hex(s, n / 16);
    }
    let d: u64 = n % 16;
    push_char(s, digit_of(d as u8, true));
}

/// Appends the upper-case hexadecimal text of `n`, prefixed with `0x`, to `s`.
pub fn push_prefixed_hex(s: &mut String, n: u64)
    ensures
        final(s)@ == old(s)@ + prefixed_hex(n as nat),
{
    push_char(s, '0');
    push_char(s, 'x');
    push_upper_hex(s, n);
}

/// Appends `true` or `false` to `s`.
pub fn push_truth(s: &mut String, b: bool)
    ensures
        final(s)@ == old(s)@ + truth(b),
{
    if b {
        push_char(s, 't');
        push_char(s, 'r');
        push_char(s, 'u');
        push_char(s, 'e');
    } else {
        push_char(s, 'f');
        push_char(s, 'a');
        push_char(s, 'l');
        push_char(s, 's');
        push_char(s, 'e');
    }
}

/// Appends four bytes as a dotted decimal address to `s`.
pub fn push_dotted_quad(s: &mut String, a: u8, b: u8, c: u8, d: u8)
    ensures
        final(s)@ == old(s)@ + dotted_quad(a, b, c, d),
{
    push_decimal(s, a as u64);
    push_char(s, '.');
    push_decimal(s, b as u64);
    push_char(s, '.');
    push_decimal(s, c as u64);
    push_char(s, '.');
    push_decimal(s, d as u64);
}

/// Appends each byte of `bytes` as the character of its value to `s`.
pub fn push_bytes(s: &mut String, bytes: &Vec<u8>)
    ensures
        final(s)@ == old(s)@ + bytes_text(bytes@),
{
    let mut i: usize = 0;
    while i < bytes.len()
        invariant
            i <= bytes@.len(),
            s@ == old(s)@ + bytes_text(bytes@.subrange(0, i as int)),
        decreases bytes@.len() - i,
    {
        push_char(s, bytes[i] as char);
        i = i + 1;
    }
}

/// Appends the field `name` with `value` to a list of fields.
pub fn push_field(fields: &mut Vec<(String, String)>, name: &str, value: String)
    ensures
        fields_view(final(fields)@) == fields_view(old(fields)@).push((name@, value@)),
{
    fields.push((String::from_str(name), value));
}

/// The decimal text of `n`.
pub fn decimal_text(n: u64) -> (s: String)
    ensures
        s@ == decimal(n as nat),
{
    let mut s = String::new();
    push_decimal(&mut s, n);
    s
}

/// The text `true` or `false`.
pub fn truth_text(b: bool) -> (s: String)
    ensures
        s@ == truth(b),
{
    let mut s = String::new();
    push_truth(&mut s, b);
    s
}

/// The decimal text of a number stands for that number, and has at least
/// one digit.
pub proof fn decimal_value_of_decimal(n: nat)
    ensures
        decimal_value(decimal(n)) == n,
        decimal(n).len() >= 1,
    decreases n,
{
    if n < 10 {
        assert(decimal_value(decimal(n).drop_last()) == 0);
    } else {
        decimal_value_of_decimal(n / 10);
        assert(decimal(n).drop_last() =~= decimal(n / 10));
    }
}

/// Different numbers have different decimal texts.
pub proof fn decimal_is_injective(a: nat, b: nat)
    ensures
        decimal(a) == decimal(b) ==> a == b,
{
    decimal_value_of_decimal(a);
    decimal_value_of_decimal(b);
}

} // verus!
