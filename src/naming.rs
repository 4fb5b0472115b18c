//! Naming conventions used when emitting code: conversions of identifiers
//! between cases, and namespaces adapted to each target language.
use vstd::prelude::*;
use vstd::string::StrSliceExecFns;
use vstd::string::StringSliceAdditionalSpecFns;

use crate::text::push_char;

verus! {

pub const UPPER_A: u8 = 0x41;

pub const UPPER_Z: u8 = 0x5A;

pub const LOWER_A: u8 = 0x61;

pub const LOWER_Z: u8 = 0x7A;

pub const DIGIT0: u8 = 0x30;

pub const DIGIT9: u8 = 0x39;

pub const UNDERSCORE: u8 = 0x5F;

pub const DOT: u8 = 0x2E;

pub const COLON: u8 = 0x3A;

/// Distance between an upper-case ASCII letter and its lower-case form.
pub const TO_LOWER: u8 = 0x20;

/// The case convention an identifier is converted to.
#[derive(Clone, Copy, Debug, PartialEq, Eq, Structural)]
pub enum NamingStyle {
    /// `UpperCamelCase`
    UpperCamel,
    /// `lowerCamelCase`
    LowerCamel,
    /// `UPPER_CASE`
    Upper,
    /// `snake_case`
    Snake,
}

pub open spec fn is_upper(c: u8) -> bool {
    UPPER_A <= c <= UPPER_Z
}

pub open spec fn is_lower(c: u8) -> bool {
    LOWER_A <= c <= LOWER_Z
}

pub open spec fn is_digit(c: u8) -> bool {
    DIGIT0 <= c <= DIGIT9
}

pub open spec fn is_letter(c: u8) -> bool {
    is_upper(c) || is_lower(c)
}

pub open spec fn is_alnum(c: u8) -> bool {
    is_letter(c) || is_digit(c)
}

pub open spec fn upper_of(c: u8) -> u8 {
    (c - TO_LOWER) as u8
}

pub open spec fn lower_of(c: u8) -> u8 {
    (c + TO_LOWER) as u8
}

/// Whether some letter or digit stands in `s` before position `i`.
pub open spec fn alnum_before(s: Seq<u8>, i: int) -> bool {
    exists|j: int| 0 <= j < i && #[trigger] is_alnum(s[j])
}

/// In lower camel case, whether the byte at position `i > 0` starts a new word.
pub open spec fn lower_camel_new_word(s: Seq<u8>, i: int) -> bool {
    if i == 1 {
        is_digit(s[0])
    } else {
        !is_letter(s[i - 1])
    }
}

/// The bytes written for the byte of `s` at position `i` in upper camel case.
pub open spec fn upper_camel_piece(s: Seq<u8>, i: int) -> Seq<u8> {
    let c = s[i];
    if i == 0 {
        if is_upper(c) {
            seq![c]
        } else if is_lower(c) {
            seq![upper_of(c)]
        } else if is_digit(c) {
            seq![UNDERSCORE, c]
        } else {
            seq![]
        }
    } else {
        let p = s[i - 1];
        if is_upper(c) {
            if is_upper(p) {
                seq![lower_of(c)]
            } else {
                seq![c]
            }
        } else if is_lower(c) {
            if is_letter(p) {
                seq![c]
            } else {
                seq![upper_of(c)]
            }
        } else if is_digit(c) {
            seq![c]
        } else {
            seq![]
        }
    }
}

/// The bytes written for the byte of `s` at position `i` in lower camel case.
pub open spec fn lower_camel_piece(s: Seq<u8>, i: int) -> Seq<u8> {
    let c = s[i];
    if i == 0 {
        if is_upper(c) {
            seq![lower_of(c)]
        } else if is_lower(c) {
            seq![c]
        } else if is_digit(c) {
            seq![UNDERSCORE, c]
        } else {
            seq![]
        }
    } else {
        let new_word = lower_camel_new_word(s, i);
        if is_upper(c) {
            if !alnum_before(s, i) {
                seq![lower_of(c)]
            } else if new_word {
                seq![c]
            } else if is_upper(s[i - 1]) {
                seq![lower_of(c)]
            } else {
                seq![c]
            }
        } else if is_lower(c) {
            if new_word {
                seq![upper_of(c)]
            } else {
                seq![c]
            }
        } else if is_digit(c) {
            seq![c]
        } else {
            seq![]
        }
    }
}

/// The bytes written for the byte of `s` at position `i` in upper case.
pub open spec fn upper_piece(s: Seq<u8>, i: int) -> Seq<u8> {
    let c = s[i];
    if i == 0 {
        if is_upper(c) {
            seq![c]
        } else if is_lower(c) {
            seq![upper_of(c)]
        } else if is_digit(c) {
            seq![UNDERSCORE, c]
        } else {
            seq![UNDERSCORE]
        }
    } else if is_upper(c) {
        if is_lower(s[i - 1]) || is_digit(s[i - 1]) {
            seq![UNDERSCORE, c]
        } else {
            seq![c]
        }
    } else if is_lower(c) {
        seq![upper_of(c)]
    } else if is_digit(c) {
        seq![c]
    } else {
        seq![UNDERSCORE]
    }
}

/// The bytes written for the byte of `s` at position `i` in snake case.
pub open spec fn snake_piece(s: Seq<u8>, i: int) -> Seq<u8> {
    let c = s[i];
    if i == 0 {
        if is_upper(c) {
            seq![lower_of(c)]
        } else if is_lower(c) {
            seq![c]
        } else if is_digit(c) {
            seq![UNDERSCORE, c]
        } else {
            seq![UNDERSCORE]
        }
    } else if is_upper(c) {
        if is_lower(s[i - 1]) || is_digit(s[i - 1]) {
            seq![UNDERSCORE, lower_of(c)]
        } else {
            seq![lower_of(c)]
        }
    } else if is_lower(c) || is_digit(c) {
        seq![c]
    } else {
        seq![UNDERSCORE]
    }
}

pub open spec fn piece(s: Seq<u8>, i: int, style: NamingStyle) -> Seq<u8> {
    match style {
        NamingStyle::UpperCamel => upper_camel_piece(s, i),
        NamingStyle::LowerCamel => lower_camel_piece(s, i),
        NamingStyle::Upper => upper_piece(s, i),
        NamingStyle::Snake => snake_piece(s, i),
    }
}

/// The pieces written for the first `n` bytes of `s`, in order.
pub open spec fn pieces(s: Seq<u8>, n: int, style: NamingStyle) -> Seq<u8>
    decreases n,
{
    if n <= 0 {
        seq![]
    } else {
        pieces(s, n - 1, style) + piece(s, n - 1, style)
    }
}

/// The identifier `s` (as bytes) converted to `style`: each byte is replaced
/// by its piece, which depends on the byte, the one before it and, in lower
/// camel case, on whether a letter or digit came before.
pub open spec fn converted(s: Seq<u8>, style: NamingStyle) -> Seq<u8> {
    pieces(s, s.len() as int, style)
}

/// The characters of a sequence of ASCII bytes.
pub open spec fn ascii_text(b: Seq<u8>) -> Seq<char> {
    b.map_values(|c: u8| c as char)
}

/// The text of a sequence of bytes, one character per byte.
fn text_of_bytes(b: &Vec<u8>) -> (r: String)
    ensures
        r@ == ascii_text(b@),
{
    let mut r = String::new();
    let mut i: usize = 0;
    while i < b.len()
        invariant
            i <= b.len(),
            r@ == ascii_text(b@.subrange(0, i as int)),
        decreases b.len() - i,
    {
        push_char(&mut r, b[i] as char);
        i += 1;
        assert(ascii_text(b@.subrange(0, i as int)) =~= ascii_text(b@.subrange(0, i - 1 as int)).push(
            b@[i - 1] as char,
        ));
    }
    assert(b@.subrange(0, b.len() as int) =~= b@);
    r
}

fn is_upper_byte(c: u8) -> (r: bool)
    ensures
        r == is_upper(c),
{
    UPPER_A <= c && c <= UPPER_Z
}

fn is_lower_byte(c: u8) -> (r: bool)
    ensures
        r == is_lower(c),
{
    LOWER_A <= c && c <= LOWER_Z
}

fn is_digit_byte(c: u8) -> (r: bool)
    ensures
        r == is_digit(c),
{
    DIGIT0 <= c && c <= DIGIT9
}

/// Appends to `out` the piece for the byte at position `i` of `s[lo..hi]`.
fn push_piece(src: &Vec<u8>, lo: usize, hi: usize, i: usize, any_alnum: bool, style: NamingStyle, out: &mut Vec<u8>)
    requires
        lo <= i < hi <= src@.len(),
        any_alnum == alnum_before(src@.subrange(lo as int, hi as int), i - lo),
    ensures
        final(out)@ == old(out)@ + piece(src@.subrange(lo as int, hi as int), i - lo, style),
{
    let ghost s = src@.subrange(lo as int, hi as int);
    let c = src[i];
    assert(c == s[i - lo]);
    let first = i == lo;
    let p: u8 = if first { 0 } else { src[i - 1] };
    assert(!first ==> p == s[i - lo - 1]);
    let ghost old_out = out@;
    match style {
        NamingStyle::UpperCamel => {
            if is_upper_byte(c) {
                if !first && is_upper_byte(p) {
                    out.push(c + TO_LOWER);
                } else {
                    out.push(c);
                }
            } else if is_lower_byte(c) {
                if !first && (is_upper_byte(p) || is_lower_byte(p)) {
                    out.push(c);
                } else {
                    out.push(c - TO_LOWER);
                }
            } else if is_digit_byte(c) {
                if first {
                    out.push(UNDERSCORE);
                }
                out.push(c);
            }
        },
        NamingStyle::LowerCamel => {
            let new_word = if first {
                false
            } else if i == lo + 1 {
                is_digit_byte(p)
            } else {
                !(is_upper_byte(p) || is_lower_byte(p))
            };
            if is_upper_byte(c) {
                if first || !any_alnum {
                    out.push(c + TO_LOWER);
                } else if new_word {
                    out.push(c);
                } else if is_upper_byte(p) {
                    out.push(c + TO_LOWER);
                } else {
                    out.push(c);
                }
            } else if is_lower_byte(c) {
                if new_word {
                    out.push(c - TO_LOWER);
                } else {
                    out.push(c);
                }
            } else if is_digit_byte(c) {
                if first {
                    out.push(UNDERSCORE);
                }
                out.push(c);
            }
        },
        NamingStyle::Upper => {
            if is_upper_byte(c) {
                if !first && (is_lower_byte(p) || is_digit_byte(p)) {
                    out.push(UNDERSCORE);
                }
                out.push(c);
            } else if is_lower_byte(c) {
                out.push(c - TO_LOWER);
            } else if is_digit_byte(c) {
                if first {
                    out.push(UNDERSCORE);
                }
                out.push(c);
            } else {
                out.push(UNDERSCORE);
            }
        },
        NamingStyle::Snake => {
            if is_upper_byte(c) {
                if !first && (is_lower_byte(p) || is_digit_byte(p)) {
                    out.push(UNDERSCORE);
                }
                out.push(c + TO_LOWER);
            } else if is_lower_byte(c) || is_digit_byte(c) {
                if first {
                    if is_digit_byte(c) {
                        out.push(UNDERSCORE);
                    }
                }
                out.push(c);
            } else {
                out.push(UNDERSCORE);
            }
        },
    }
    assert(out@ =~= old_out + piece(s, i - lo, style));
}

/// Appends to `out` the bytes `src[lo..hi]` converted to `style`.
fn push_converted(src: &Vec<u8>, lo: usize, hi: usize, style: NamingStyle, out: &mut Vec<u8>)
    requires
        lo <= hi <= src@.len(),
    ensures
        final(out)@ == old(out)@ + converted(src@.subrange(lo as int, hi as int), style),
{
    let ghost s = src@.subrange(lo as int, hi as int);
    let ghost start = out@;
    let mut any_alnum = false;
    let mut i = lo;
    while i < hi
        invariant
            lo <= i <= hi <= src@.len(),
            s == src@.subrange(lo as int, hi as int),
            out@ == start + pieces(s, i - lo, style),
            any_alnum == alnum_before(s, i - lo),
        decreases hi - i,
    {
        push_piece(src, lo, hi, i, any_alnum, style, out);
        let c = src[i];
        assert(c == s[i - lo]);
        let alnum = is_upper_byte(c) || is_lower_byte(c) || is_digit_byte(c);
        proof {
            if alnum {
                assert(is_alnum(s[i - lo]));
            }
            if !alnum && !any_alnum {
                assert forall|j: int| 0 <= j < i + 1 - lo implies !#[trigger] is_alnum(s[j]) by {
                    if j < i - lo {
                        assert(!alnum_before(s, i - lo));
                    }
                }
            }
        }
        any_alnum = any_alnum || alnum;
        i += 1;
        assert(out@ =~= start + pieces(s, i - lo, style));
    }
}

/// The bytes of the identifier `name` converted to `style`.
fn convert(name: &str, style: NamingStyle) -> (r: String)
    ensures
        r@ == ascii_text(converted(name.spec_bytes(), style)),
{
    let b = name.as_bytes_vec();
    let mut out: Vec<u8> = Vec::new();
    push_converted(&b, 0, b.len(), style, &mut out);
    assert(b@.subrange(0, b@.len() as int) =~= b@);
    assert(out@ =~= converted(b@, style));
    text_of_bytes(&out)
}


/// Whether `sep` occurs in `s` at position `k`.
pub open spec fn occurs_at(s: Seq<u8>, sep: Seq<u8>, k: int) -> bool {
    0 <= k && k + sep.len() <= s.len() && s.subrange(k, k + sep.len()) == sep
}

pub open spec fn contains(s: Seq<u8>, sep: Seq<u8>) -> bool {
    exists|k: int| occurs_at(s, sep, k)
}

/// The parts of `s[start..]` separated by the occurrences of `sep` found
/// from position `i` on, left to right and without overlap.
pub open spec fn split_from(s: Seq<u8>, sep: Seq<u8>, start: int, i: int) -> Seq<Seq<u8>>
    decreases s.len() - i,
{
    if sep.len() == 0 || i + sep.len() > s.len() {
        seq![s.subrange(start, s.len() as int)]
    } else if occurs_at(s, sep, i) {
        seq![s.subrange(start, i)] + split_from(s, sep, i + sep.len(), i + sep.len())
    } else {
        split_from(s, sep, start, i + 1)
    }
}

/// The parts of `s` between the occurrences of `sep` (as `str::split`).
pub open spec fn split(s: Seq<u8>, sep: Seq<u8>) -> Seq<Seq<u8>> {
    split_from(s, sep, 0, 0)
}

/// The parts that are not empty, in order.
pub open spec fn non_empty(parts: Seq<Seq<u8>>) -> Seq<Seq<u8>>
    decreases parts.len(),
{
    if parts.len() == 0 {
        seq![]
    } else if parts.last().len() > 0 {
        non_empty(parts.drop_last()).push(parts.last())
    } else {
        non_empty(parts.drop_last())
    }
}

/// The items, with `glue` between each two.
pub open spec fn join(items: Seq<Seq<u8>>, glue: Seq<u8>) -> Seq<u8>
    decreases items.len(),
{
    if items.len() == 0 {
        seq![]
    } else if items.len() == 1 {
        items[0]
    } else {
        join(items.drop_last(), glue) + glue + items.last()
    }
}

pub open spec fn convert_all(items: Seq<Seq<u8>>, style: NamingStyle) -> Seq<Seq<u8>> {
    items.map_values(|p: Seq<u8>| converted(p, style))
}

/// The non-empty parts of `s` between occurrences of `sep`, each converted
/// to `style`, joined by `glue`.
pub open spec fn rejoined(s: Seq<u8>, sep: Seq<u8>, style: NamingStyle, glue: Seq<u8>) -> Seq<u8> {
    join(convert_all(non_empty(split(s, sep)), style), glue)
}

pub open spec fn double_colon() -> Seq<u8> {
    seq![COLON, COLON]
}

pub open spec fn dot() -> Seq<u8> {
    seq![DOT]
}

/// A namespace converted for a target: split on `::` if it holds one, else
/// on `.` if it holds one, else converted as one name.
pub open spec fn namespace(s: Seq<u8>, style: NamingStyle, glue: Seq<u8>) -> Seq<u8> {
    if contains(s, double_colon()) {
        rejoined(s, double_colon(), style, glue)
    } else if contains(s, dot()) {
        rejoined(s, dot(), style, glue)
    } else {
        converted(s, style)
    }
}

/// Whether `sep` occurs in `s` at position `k`.
fn occurs_at_exec(s: &Vec<u8>, sep: &Vec<u8>, k: usize) -> (r: bool)
    ensures
        r == occurs_at(s@, sep@, k as int),
{
    if sep.len() > s.len() || k > s.len() - sep.len() {
        return false;
    }
    let n = s.len();
    let mut j: usize = 0;
    while j < sep.len()
        invariant
            j <= sep@.len(),
            n == s@.len(),
            k + sep@.len() <= n,
            forall|m: int| 0 <= m < j ==> s@[k + m] == sep@[m],
        decreases sep.len() - j,
    {
        let at: usize = k + j;
        if s[at] != sep[j] {
            assert(s@.subrange(k as int, k + sep@.len())[j as int] != sep@[j as int]);
            return false;
        }
        j += 1;
    }
    assert(s@.subrange(k as int, k + sep@.len()) =~= sep@);
    true
}

pub(crate) fn contains_exec(s: &Vec<u8>, sep: &Vec<u8>) -> (r: bool)
    requires
        sep@.len() > 0,
    ensures
        r == contains(s@, sep@),
{
    let mut k: usize = 0;
    while k < s.len()
        invariant
            k <= s@.len(),
            sep@.len() > 0,
            forall|m: int| 0 <= m < k ==> !occurs_at(s@, sep@, m),
        decreases s.len() - k,
    {
        if occurs_at_exec(s, sep, k) {
            return true;
        }
        k += 1;
    }
    assert forall|m: int| !occurs_at(s@, sep@, m) by {
        if 0 <= m < k {
        }
    }
    false
}

/// Appends to `out` the part `src[start..end]`, converted, after `glue` when
/// it is not the first non-empty part.
fn push_part(
    src: &Vec<u8>,
    start: usize,
    end: usize,
    style: NamingStyle,
    glue: &Vec<u8>,
    out: &mut Vec<u8>,
    count: usize,
    Ghost(done): Ghost<Seq<Seq<u8>>>,
) -> (new_count: usize)
    requires
        start <= end <= src@.len(),
        count <= start,
        old(out)@ == join(convert_all(non_empty(done), style), glue@),
        count == non_empty(done).len(),
    ensures
        final(out)@ == join(convert_all(non_empty(done.push(src@.subrange(start as int, end as int))), style), glue@),
        new_count == non_empty(done.push(src@.subrange(start as int, end as int))).len(),
        new_count <= end,
{
    let ghost part = src@.subrange(start as int, end as int);
    let ghost nd = done.push(part);
    assert(nd.drop_last() =~= done);
    if start < end {
        if count > 0 {
            let mut g: usize = 0;
            let ghost before = out@;
            while g < glue.len()
                invariant
                    g <= glue@.len(),
                    out@ == before + glue@.subrange(0, g as int),
                decreases glue.len() - g,
            {
                out.push(glue[g]);
                g += 1;
                assert(out@ =~= before + glue@.subrange(0, g as int));
            }
            assert(glue@.subrange(0, glue@.len() as int) =~= glue@);
        }
        push_converted(src, start, end, style, out);
        proof {
            assert(non_empty(nd) == non_empty(done).push(part));
            let ca = convert_all(non_empty(nd), style);
            assert(ca =~= convert_all(non_empty(done), style).push(converted(part, style)));
            assert(ca.drop_last() =~= convert_all(non_empty(done), style));
            if count == 0 {
                assert(ca.len() == 1);
                assert(out@ =~= ca[0]);
            }
        }
        count + 1
    } else {
        count
    }
}

/// Appends to `out` the non-empty parts of `src` between occurrences of
/// `sep`, converted to `style` and joined by `glue`.
fn push_rejoined(src: &Vec<u8>, sep: &Vec<u8>, style: NamingStyle, glue: &Vec<u8>, out: &mut Vec<u8>)
    requires
        sep@.len() > 0,
        old(out)@.len() == 0,
    ensures
        final(out)@ == rejoined(src@, sep@, style, glue@),
{
    let ghost s = src@;
    let ghost mut done: Seq<Seq<u8>> = seq![];
    assert(out@ =~= join(convert_all(non_empty(done), style), glue@));
    let mut count: usize = 0;
    let mut start: usize = 0;
    let mut i: usize = 0;
    while i < src.len()
        invariant
            sep@.len() > 0,
            s == src@,
            start <= i <= s.len(),
            split(s, sep@) == done + split_from(s, sep@, start as int, i as int),
            out@ == join(convert_all(non_empty(done), style), glue@),
            count == non_empty(done).len(),
            count <= start,
        decreases s.len() - i,
    {
        if occurs_at_exec(src, sep, i) {
            let ghost part = s.subrange(start as int, i as int);
            let ghost rest = split_from(s, sep@, i + sep@.len(), i + sep@.len());
            assert(split_from(s, sep@, start as int, i as int) == seq![part] + rest);
            count = push_part(src, start, i, style, glue, out, count, Ghost(done));
            proof {
                assert(done.push(part) + rest =~= done + (seq![part] + rest));
                done = done.push(part);
            }
            i = i + sep.len();
            start = i;
        } else {
            i += 1;
        }
    }
    let ghost part = s.subrange(start as int, i as int);
    assert(split_from(s, sep@, start as int, i as int) == seq![part]);
    count = push_part(src, start, i, style, glue, out, count, Ghost(done));
    assert(done + seq![part] =~= done.push(part));
}

/// The bytes of `namespace(input, style, glue)`.
fn namespace_bytes(input: &str, style: NamingStyle, glue: &Vec<u8>) -> (r: Vec<u8>)
    ensures
        r@ == namespace(input.spec_bytes(), style, glue@),
{
    let b = input.as_bytes_vec();
    let colons = vec![COLON, COLON];
    let dots = vec![DOT];
    assert(colons@ =~= double_colon());
    assert(dots@ =~= dot());
    let mut out: Vec<u8> = Vec::new();
    if contains_exec(&b, &colons) {
        push_rejoined(&b, &colons, style, glue, &mut out);
    } else if contains_exec(&b, &dots) {
        push_rejoined(&b, &dots, style, glue, &mut out);
    } else {
        push_converted(&b, 0, b.len(), style, &mut out);
        assert(b@.subrange(0, b@.len() as int) =~= b@);
    }
    out
}

/// Converts a name to upper camel case
pub fn to_upper_camel_case(name: &str) -> (r: String)
    ensures
        r@ == ascii_text(converted(name.spec_bytes(), NamingStyle::UpperCamel)),
{
    convert(name, NamingStyle::UpperCamel)
}

/// Converts a name to lower camel case
pub fn to_lower_camel_case(name: &str) -> (r: String)
    ensures
        r@ == ascii_text(converted(name.spec_bytes(), NamingStyle::LowerCamel)),
{
    convert(name, NamingStyle::LowerCamel)
}

/// Converts a name to upper case
pub fn to_upper_case(name: &str) -> (r: String)
    ensures
        r@ == ascii_text(converted(name.spec_bytes(), NamingStyle::Upper)),
{
    convert(name, NamingStyle::Upper)
}

/// Converts a name to snake case
pub fn to_snake_case(name: &str) -> (r: String)
    ensures
        r@ == ascii_text(converted(name.spec_bytes(), NamingStyle::Snake)),
{
    convert(name, NamingStyle::Snake)
}

/// Gets the C# compatible name for the specified namespace
pub fn get_namespace_net(input: &str) -> (r: String)
    ensures
        r@ == ascii_text(namespace(input.spec_bytes(), NamingStyle::UpperCamel, dot())),
{
    let glue = vec![DOT];
    assert(glue@ =~= dot());
    let b = namespace_bytes(input, NamingStyle::UpperCamel, &glue);
    text_of_bytes(&b)
}

/// Gets the Unity3D compatible name for the specified namespace (as for C#)
pub fn get_namespace_u3d(input: &str) -> (r: String)
    ensures
        r@ == ascii_text(namespace(input.spec_bytes(), NamingStyle::UpperCamel, dot())),
{
    get_namespace_net(input)
}

/// Gets the Java compatible name for the specified namespace
pub fn get_namespace_java(input: &str) -> (r: String)
    ensures
        r@ == ascii_text(namespace(input.spec_bytes(), NamingStyle::Snake, dot())),
{
    let glue = vec![DOT];
    assert(glue@ =~= dot());
    let b = namespace_bytes(input, NamingStyle::Snake, &glue);
    text_of_bytes(&b)
}

/// Gets the Rust compatible name for the specified namespace
pub fn get_namespace_rust(input: &str) -> (r: String)
    ensures
        r@ == ascii_text(namespace(input.spec_bytes(), NamingStyle::Snake, double_colon())),
{
    let glue = vec![COLON, COLON];
    assert(glue@ =~= double_colon());
    let b = namespace_bytes(input, NamingStyle::Snake, &glue);
    text_of_bytes(&b)
}

} // verus!
