//! Building blocks for emitted source text: numbers in hexadecimal and
//! decimal, and names converted to the target's conventions.
use vstd::prelude::*;
use vstd::string::StringSliceAdditionalSpecFns;
use vstd::utf8::encode_utf8;

use crate::naming::{ascii_text, converted, to_lower_camel_case, to_upper_camel_case, to_upper_case, NamingStyle};

verus! {

/// The upper-case hexadecimal digit of `d < 16`.
pub open spec fn hex_digit(d: nat) -> char {
    if d < 10 {
        ((48 + d) as u8) as char
    } else {
        ((55 + d) as u8) as char
    }
}

/// `v` in upper-case hexadecimal, padded with zeros to `width` digits.
pub open spec fn hex_padded(v: nat, width: nat) -> Seq<char>
    decreases v, width,
{
    if v < 16 && width <= 1 {
        seq![hex_digit(v)]
    } else {
        hex_padded(v / 16, if width > 0 { (width - 1) as nat } else { 0 }) + seq![hex_digit(v % 16)]
    }
}

/// `v` as written by `{:04X}`.
pub open spec fn hex_text(v: nat) -> Seq<char> {
    hex_padded(v, 4)
}

/// `v` in decimal, without leading zeros.
pub open spec fn dec_text(v: nat) -> Seq<char>
    decreases v,
{
    if v < 10 {
        seq![((48 + v) as u8) as char]
    } else {
        dec_text(v / 10) + seq![((48 + v % 10) as u8) as char]
    }
}

/// A name (as characters) in upper camel case.
pub open spec fn upper_camel_text(name: Seq<char>) -> Seq<char> {
    ascii_text(converted(encode_utf8(name), NamingStyle::UpperCamel))
}

/// A name (as characters) in lower camel case.
pub open spec fn lower_camel_text(name: Seq<char>) -> Seq<char> {
    ascii_text(converted(encode_utf8(name), NamingStyle::LowerCamel))
}

/// A name (as characters) in upper case.
pub open spec fn upper_case_text(name: Seq<char>) -> Seq<char> {
    ascii_text(converted(encode_utf8(name), NamingStyle::Upper))
}

/// `s` with a backslash before each double quote.
pub open spec fn escaped_quotes(s: Seq<char>) -> Seq<char>
    decreases s.len(),
{
    if s.len() == 0 {
        s
    } else if s.last() == '"' {
        escaped_quotes(s.drop_last()) + seq!['\\', '"']
    } else {
        escaped_quotes(s.drop_last()).push(s.last())
    }
}

/// Relies on `String::push`: the character is appended at the end.
#[verifier::external_body]
pub(crate) fn push_char(s: &mut String, c: char)
    ensures
        final(s)@ == old(s)@.push(c),
{
    s.push(c)
}

fn hex_digit_char(d: u64) -> (c: char)
    requires
        d < 16,
    ensures
        c == hex_digit(d as nat),
{
    if d < 10 {
        ((48 + d) as u8) as char
    } else {
        ((55 + d) as u8) as char
    }
}

fn push_hex_padded(t: &mut String, v: u64, width: u32)
    ensures
        final(t)@ == old(t)@ + hex_padded(v as nat, width as nat),
    decreases v, width,
{
    if v < 16 && width <= 1 {
        push_char(t, hex_digit_char(v));
    } else {
        let w = if width > 0 { width - 1 } else { 0 };
        let ghost before = t@;
        push_hex_padded(t, v / 16, w);
        push_char(t, hex_digit_char(v % 16));
        assert(t@ =~= before + hex_padded(v as nat, width as nat));
    }
}

/// Appends `v` as written by `{:04X}`.
pub fn push_hex(t: &mut String, v: u64)
    ensures
        final(t)@ == old(t)@ + hex_text(v as nat),
{
    push_hex_padded(t, v, 4);
}

/// Appends `v` in decimal.
pub fn push_dec(t: &mut String, v: usize)
    ensures
        final(t)@ == old(t)@ + dec_text(v as nat),
    decreases v,
{
    if v < 10 {
        push_char(t, ((48 + v) as u8) as char);
    } else {
        let ghost before = t@;
        push_dec(t, v / 10);
        push_char(t, ((48 + v % 10) as u8) as char);
        assert(t@ =~= before + dec_text(v as nat));
    }
}

/// Appends `name` in upper camel case.
pub fn push_upper_camel(t: &mut String, name: &String)
    ensures
        final(t)@ == old(t)@ + upper_camel_text(name@),
{
    let n = to_upper_camel_case(name.as_str());
    t.append(n.as_str());
}

/// Appends `name` in upper case.
pub fn push_upper_case(t: &mut String, name: &String)
    ensures
        final(t)@ == old(t)@ + upper_case_text(name@),
{
    let n = to_upper_case(name.as_str());
    t.append(n.as_str());
}

/// Appends `s` with a backslash before each double quote.
pub fn push_escaped_quotes(t: &mut String, s: &String)
    ensures
        final(t)@ == old(t)@ + escaped_quotes(s@),
{
    let text = s.as_str();
    let n = text.unicode_len();
    let ghost start = t@;
    let mut i: usize = 0;
    while i < n
        invariant
            i <= n,
            n == s@.len(),
            text@ == s@,
            t@ == start + escaped_quotes(s@.subrange(0, i as int)),
        decreases n - i,
    {
        let c = text.get_char(i);
        if c == '"' {
            push_char(t, '\\');
        }
        push_char(t, c);
        proof {
            let next = s@.subrange(0, i + 1);
            assert(next.drop_last() =~= s@.subrange(0, i as int));
            assert(next.last() == c);
        }
        i += 1;
        assert(t@ =~= start + escaped_quotes(s@.subrange(0, i as int)));
    }
    assert(s@.subrange(0, n as int) =~= s@);
}

/// Appends `name` in lower camel case.
pub fn push_lower_camel(t: &mut String, name: &String)
    ensures
        final(t)@ == old(t)@ + lower_camel_text(name@),
{
    let n = to_lower_camel_case(name.as_str());
    t.append(n.as_str());
}

} // verus!
