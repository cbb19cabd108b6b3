//! Text on the wire: UTF-8 behind a variable-length byte count, and the older
//! UTF-16 behind a 16-bit unit count.

use crate::varint::{varint, varint_at};
use crate::wire::{be16, u16_at, u16_there};
use crate::writer::Writer;
use vstd::prelude::*;
use vstd::utf8::{decode_utf8, encode_utf8, valid_utf8};

verus! {

/// The character that stands for what cannot be decoded.
pub open spec fn replacement() -> char {
    '\u{FFFD}'
}

/// Whether `u` is the first half of a surrogate pair.
pub open spec fn is_high_surrogate(u: u16) -> bool {
    0xD800 <= u < 0xDC00
}

/// Whether `u` is the second half of a surrogate pair.
pub open spec fn is_low_surrogate(u: u16) -> bool {
    0xDC00 <= u < 0xE000
}

/// The characters that UTF-16 units spell. A surrogate without its other half reads as
/// the replacement character.
pub open spec fn utf16_lossy(u: Seq<u16>) -> Seq<char>
    decreases u.len(),
{
    if u.len() == 0 {
        seq![]
    } else if is_high_surrogate(u[0]) && u.len() > 1 && is_low_surrogate(u[1]) {
        seq![(0x10000 + (u[0] - 0xD800) * 0x400 + (u[1] - 0xDC00)) as char] + utf16_lossy(u.skip(2))
    } else if is_high_surrogate(u[0]) || is_low_surrogate(u[0]) {
        seq![replacement()] + utf16_lossy(u.skip(1))
    } else {
        seq![u[0] as char] + utf16_lossy(u.skip(1))
    }
}

/// Whether every surrogate among the units stands in a pair.
pub open spec fn valid_utf16(u: Seq<u16>) -> bool
    decreases u.len(),
{
    if u.len() == 0 {
        true
    } else if is_high_surrogate(u[0]) && u.len() > 1 && is_low_surrogate(u[1]) {
        valid_utf16(u.skip(2))
    } else {
        !is_high_surrogate(u[0]) && !is_low_surrogate(u[0]) && valid_utf16(u.skip(1))
    }
}

/// The UTF-16 units of one character.
pub open spec fn utf16_of_char(c: char) -> Seq<u16> {
    if (c as u32) < 0x10000 {
        seq![(c as u32) as u16]
    } else {
        seq![
            (0xD800 + (c as u32 - 0x10000) / 0x400) as u16,
            (0xDC00 + (c as u32 - 0x10000) % 0x400) as u16,
        ]
    }
}

/// The UTF-16 units of a text.
pub open spec fn utf16(s: Seq<char>) -> Seq<u16>
    decreases s.len(),
{
    if s.len() == 0 {
        seq![]
    } else {
        utf16(s.drop_last()) + utf16_of_char(s.last())
    }
}

/// `n` big-endian units that stand at `p`.
pub open spec fn units_at(b: Seq<u8>, p: int, n: nat) -> Seq<u16> {
    Seq::new(n, |i: int| u16_at(b, p + 2 * i))
}

/// The bytes of units, each big-endian.
pub open spec fn unit_bytes(u: Seq<u16>) -> Seq<u8>
    decreases u.len(),
{
    if u.len() == 0 {
        seq![]
    } else {
        unit_bytes(u.drop_last()) + be16(u.last())
    }
}

/// A text as the older protocols write it: the number of UTF-16 units as 16 bits, then
/// the units.
pub open spec fn ucs2_string(s: Seq<char>) -> Seq<u8> {
    be16(utf16(s).len() as u16) + unit_bytes(utf16(s))
}

/// The units of an older text that stands at `p`, and the position behind it. `None`
/// where the count or a unit is missing.
pub open spec fn ucs2_at(b: Seq<u8>, p: int) -> Option<(Seq<u16>, int)> {
    if p + 2 > b.len() || p + 2 + 2 * u16_at(b, p) > b.len() {
        None
    } else {
        Some((units_at(b, p + 2, u16_at(b, p) as nat), p + 2 + 2 * u16_at(b, p)))
    }
}

/// A text as the newer protocols write it: the number of UTF-8 bytes, then the bytes.
pub open spec fn wire_string(s: Seq<char>) -> Seq<u8> {
    varint(encode_utf8(s).len() as i32) + encode_utf8(s)
}

/// The newer text that stands at `p`, and the position behind it. `None` where the
/// count does not read, is negative or runs past the end, or the bytes are not UTF-8.
pub open spec fn string_at(b: Seq<u8>, p: int) -> Option<(Seq<char>, int)> {
    match varint_at(b, p) {
        Some((n, start)) => if 0 <= n && start + n <= b.len() && valid_utf8(
            b.subrange(start, start + n),
        ) {
            Some((decode_utf8(b.subrange(start, start + n)), start + n))
        } else {
            None
        },
        None => None,
    }
}

/// Writing a text and reading it gives the text back, whatever stands before and behind
/// it. A text of more bytes than the count can hold is left out.
pub proof fn string_round_trip(s: Seq<char>, pre: Seq<u8>, rest: Seq<u8>)
    requires
        encode_utf8(s).len() <= i32::MAX,
    ensures
        string_at(pre + wire_string(s) + rest, pre.len() as int) == Some(
            (s, (pre.len() + wire_string(s).len()) as int),
        ),
{
    let bytes = encode_utf8(s);
    let n = bytes.len() as i32;
    let b = pre + wire_string(s) + rest;
    assert(b =~= pre + varint(n) + (bytes + rest));
    crate::varint::varint_round_trip(n, pre, bytes + rest);
    let start = (pre.len() + varint(n).len()) as int;
    assert(b.subrange(start, start + n) =~= bytes);
    vstd::utf8::encode_utf8_valid_utf8(s);
    vstd::utf8::encode_utf8_decode_utf8(s);
}

/// A character behind units that spell a text is spelled behind that text.
proof fn one_more_char(u: Seq<u16>, c: char)
    requires
        valid_utf16(u),
    ensures
        valid_utf16(u + utf16_of_char(c)),
        utf16_lossy(u + utf16_of_char(c)) == utf16_lossy(u).push(c),
    decreases u.len(),
{
    let w = utf16_of_char(c);
    let all = u + w;
    if u.len() == 0 {
        assert(all =~= w);
        reveal_with_fuel(utf16_lossy, 2);
        reveal_with_fuel(valid_utf16, 2);
        if (c as u32) < 0x10000 {
            assert(w.skip(1) =~= Seq::<u16>::empty());
        } else {
            let d = c as u32 - 0x10000;
            assert(d / 0x400 * 0x400 + d % 0x400 == d);
            assert(w.skip(2) =~= Seq::<u16>::empty());
        }
        assert(utf16_lossy(all) =~= seq![c]);
        assert(utf16_lossy(u).push(c) =~= seq![c]);
    } else if is_high_surrogate(u[0]) && u.len() > 1 && is_low_surrogate(u[1]) {
        one_more_char(u.skip(2), c);
        assert(all.skip(2) =~= u.skip(2) + w);
        let first = (0x10000 + (u[0] - 0xD800) * 0x400 + (u[1] - 0xDC00)) as char;
        assert(seq![first] + utf16_lossy(u.skip(2)).push(c) =~= (seq![first] + utf16_lossy(u.skip(2))).push(c));
    } else {
        one_more_char(u.skip(1), c);
        assert(all.skip(1) =~= u.skip(1) + w);
        let first = u[0] as char;
        assert(seq![first] + utf16_lossy(u.skip(1)).push(c) =~= (seq![first] + utf16_lossy(u.skip(1))).push(c));
    }
}

/// The UTF-16 units of a text spell the text.
pub proof fn utf16_round_trip(s: Seq<char>)
    ensures
        valid_utf16(utf16(s)),
        utf16_lossy(utf16(s)) == s,
    decreases s.len(),
{
    if s.len() == 0 {
        assert(utf16_lossy(utf16(s)) =~= s);
    } else {
        utf16_round_trip(s.drop_last());
        one_more_char(utf16(s.drop_last()), s.last());
        assert(s.drop_last().push(s.last()) =~= s);
    }
}

/// The bytes of units read back, whatever stands before and behind them.
proof fn unit_bytes_read_back(u: Seq<u16>, pre: Seq<u8>, rest: Seq<u8>)
    ensures
        unit_bytes(u).len() == 2 * u.len(),
        units_at(pre + unit_bytes(u) + rest, pre.len() as int, u.len()) == u,
    decreases u.len(),
{
    let b = pre + unit_bytes(u) + rest;
    let p = pre.len() as int;
    if u.len() > 0 {
        let (before, last) = (unit_bytes(u.drop_last()), be16(u.last()));
        unit_bytes_read_back(u.drop_last(), pre, last + rest);
        assert(pre + before + (last + rest) =~= b);
        let k = u.len() - 1;
        assert(b[p + 2 * k] == last[0] && b[p + 2 * k + 1] == last[1]);
        assert forall|i: int| 0 <= i < u.len() implies u16_at(b, p + 2 * i) == u[i] by {
            if i < k {
                assert(units_at(b, p, k as nat)[i] == u.drop_last()[i]);
            }
        }
    }
    assert(units_at(b, p, u.len()) =~= u);
}

/// Writing an older text and reading it gives the text back, whatever stands before and
/// behind it. A text of more units than the count can hold is left out.
pub proof fn ucs2_round_trip(s: Seq<char>, pre: Seq<u8>, rest: Seq<u8>)
    requires
        utf16(s).len() <= 0xFFFF,
    ensures
        ucs2_at(pre + ucs2_string(s) + rest, pre.len() as int) == Some(
            (utf16(s), (pre.len() + ucs2_string(s).len()) as int),
        ),
        utf16_lossy(utf16(s)) == s,
{
    let u = utf16(s);
    let n = be16(u.len() as u16);
    let b = pre + (n + unit_bytes(u)) + rest;
    let p = pre.len() as int;
    utf16_round_trip(s);
    unit_bytes_read_back(u, pre + n, rest);
    let units = unit_bytes(u);
    row_of_four(pre, n, units, rest);
    u16_there(b, p, u.len() as u16);
}

/// Four sequences in a row, the middle two grouped, and where the second of them stands.
proof fn row_of_four(a: Seq<u8>, b: Seq<u8>, c: Seq<u8>, d: Seq<u8>)
    ensures
        a + b + c + d == a + (b + c) + d,
        (a + (b + c) + d).subrange(a.len() as int, (a.len() + b.len()) as int) == b,
{
    assert(a + b + c + d =~= a + (b + c) + d);
    assert((a + (b + c) + d).subrange(a.len() as int, (a.len() + b.len()) as int) =~= b);
}

/// `String::from_utf8`: the text of the bytes where they are UTF-8, and otherwise an
/// error.
#[verifier::external_body]
pub(crate) fn string_from_utf8(v: Vec<u8>) -> (r: Option<String>)
    ensures
        r is Some <==> valid_utf8(v@),
        r matches Some(s) ==> s@ == decode_utf8(v@),
{
    String::from_utf8(v).ok()
}

/// `String::from_utf16_lossy`: the text of the units, with the replacement character in
/// place of each surrogate that has no other half.
#[verifier::external_body]
pub(crate) fn string_from_utf16_lossy(u: &[u16]) -> (s: String)
    ensures
        s@ == utf16_lossy(u@),
{
    String::from_utf16_lossy(u)
}

/// `String::from_utf16`: the text of the units, and an error where a surrogate has no
/// other half.
#[verifier::external_body]
pub(crate) fn string_from_utf16(u: &[u16]) -> (r: Option<String>)
    ensures
        r is Some <==> valid_utf16(u@),
        r matches Some(s) ==> s@ == utf16_lossy(u@),
{
    String::from_utf16(u).ok()
}

/// `String::push`: appends one character.
pub assume_specification[ String::push ](s: &mut String, c: char)
    ensures
        final(s)@ == old(s)@.push(c),
;

/// The text of the units, or no text where a surrogate has no other half.
pub open spec fn utf16_or_empty(u: Seq<u16>) -> Seq<char> {
    if valid_utf16(u) {
        utf16_lossy(u)
    } else {
        seq![]
    }
}

/// The text of the units, or no text where a surrogate has no other half.
pub fn utf16_text_or_empty(u: &Vec<u16>) -> (s: String)
    ensures
        s@ == utf16_or_empty(u@),
{
    match string_from_utf16(u.as_slice()) {
        Some(s) => s,
        None => String::new(),
    }
}

/// The UTF-16 units of a text.
pub fn utf16_units(s: &str) -> (u: Vec<u16>)
    ensures
        u@ == utf16(s@),
{
    let mut u: Vec<u16> = Vec::new();
    let n: usize = s.unicode_len();
    let mut chars = s.chars();
    let mut i: usize = 0;
    assert(s@.take(0) =~= Seq::<char>::empty());
    while i < n
        invariant
            n == s@.len(),
            i <= n,
            vstd::std_specs::iter::IteratorSpec::remaining(&chars) == s@.skip(i as int),
            u@ == utf16(s@.take(i as int)),
        decreases n - i,
    {
        assert(s@.take(i + 1).drop_last() =~= s@.take(i as int));
        let ghost had = u@;
        match chars.next() {
            Some(c) => {
                assert(c == s@[i as int]);
                let code: u32 = c as u32;
                if code < 0x10000 {
                    u.push(code as u16);
                    assert(u@ =~= had + utf16_of_char(c));
                } else {
                    u.push((0xD800 + (code - 0x10000) / 0x400) as u16);
                    u.push((0xDC00 + (code - 0x10000) % 0x400) as u16);
                    assert(u@ =~= had + utf16_of_char(c));
                }
            },
            None => {},
        }
        i = i + 1;
        assert(s@.skip(i - 1).drop_first() =~= s@.skip(i as int));
    }
    assert(s@.take(n as int) =~= s@);
    u
}

/// What one character of a text becomes in a quoted JSON string: quotation marks and
/// backslashes get a backslash before them.
pub open spec fn json_char(c: char) -> Seq<char> {
    if c == '\\' {
        seq!['\\', '\\']
    } else if c == '"' {
        seq!['\\', '"']
    } else {
        seq![c]
    }
}

/// A text with its quotation marks and backslashes escaped.
pub open spec fn json_escaped(s: Seq<char>) -> Seq<char>
    decreases s.len(),
{
    if s.len() == 0 {
        seq![]
    } else {
        json_escaped(s.drop_last()) + json_char(s.last())
    }
}

/// A text with its quotation marks escaped.
pub open spec fn quotes_escaped(s: Seq<char>) -> Seq<char>
    decreases s.len(),
{
    if s.len() == 0 {
        seq![]
    } else {
        quotes_escaped(s.drop_last()) + if s.last() == '"' {
            seq!['\\', '"']
        } else {
            seq![s.last()]
        }
    }
}

/// A chat component that holds a text, which is already escaped.
pub open spec fn json_component(s: Seq<char>) -> Seq<char> {
    "{\"text\":\""@ + s + "\"}"@
}

/// A text with its quotation marks and backslashes escaped.
pub fn escape_json(s: &str) -> (r: String)
    ensures
        r@ == json_escaped(s@),
{
    let mut out = String::new();
    let n: usize = s.unicode_len();
    let mut chars = s.chars();
    let mut i: usize = 0;
    assert(s@.take(0) =~= Seq::<char>::empty());
    while i < n
        invariant
            n == s@.len(),
            i <= n,
            vstd::std_specs::iter::IteratorSpec::remaining(&chars) == s@.skip(i as int),
            out@ == json_escaped(s@.take(i as int)),
        decreases n - i,
    {
        assert(s@.take(i + 1).drop_last() =~= s@.take(i as int));
        let ghost had = out@;
        match chars.next() {
            Some(c) => {
                if c == '\\' || c == '"' {
                    out.push('\\');
                }
                out.push(c);
                assert(out@ =~= had + json_char(c));
            },
            None => {},
        }
        i = i + 1;
        assert(s@.skip(i - 1).drop_first() =~= s@.skip(i as int));
    }
    assert(s@.take(n as int) =~= s@);
    out
}

/// A text with its quotation marks escaped.
pub fn escape_quotes(s: &str) -> (r: String)
    ensures
        r@ == quotes_escaped(s@),
{
    let mut out = String::new();
    let n: usize = s.unicode_len();
    let mut chars = s.chars();
    let mut i: usize = 0;
    assert(s@.take(0) =~= Seq::<char>::empty());
    while i < n
        invariant
            n == s@.len(),
            i <= n,
            vstd::std_specs::iter::IteratorSpec::remaining(&chars) == s@.skip(i as int),
            out@ == quotes_escaped(s@.take(i as int)),
        decreases n - i,
    {
        assert(s@.take(i + 1).drop_last() =~= s@.take(i as int));
        let ghost had = out@;
        match chars.next() {
            Some(c) => {
                if c == '"' {
                    out.push('\\');
                }
                out.push(c);
                assert(out@ =~= quotes_escaped(s@.take(i + 1)));
            },
            None => {},
        }
        i = i + 1;
        assert(s@.skip(i - 1).drop_first() =~= s@.skip(i as int));
    }
    assert(s@.take(n as int) =~= s@);
    out
}

/// A chat component that holds a text, which is already escaped.
pub fn json_text(s: &str) -> (r: String)
    ensures
        r@ == json_component(s@),
{
    let mut out = String::from_str("{\"text\":\"");
    out.append(s);
    out.append("\"}");
    out
}

/// The first `n` characters of a text, or all of it where it is shorter.
pub open spec fn first_chars(s: Seq<char>, n: nat) -> Seq<char> {
    if s.len() <= n {
        s
    } else {
        s.take(n as int)
    }
}

/// The first `n` characters of a text, or all of it where it is shorter.
pub fn shortened(s: &str, n: usize) -> (r: &str)
    ensures
        r@ == first_chars(s@, n as nat),
{
    if s.unicode_len() <= n {
        s
    } else {
        s.substring_char(0, n)
    }
}

/// Whether a text is the given one.
pub fn is_text(s: &String, t: &str) -> (r: bool)
    ensures
        r == (s@ == t@),
{
    let other = String::from_str(t);
    *s == other
}

/// A digit below sixteen, in lower case.
pub open spec fn hex_digit(d: nat) -> char {
    if d < 10 {
        (0x30 + d) as char
    } else {
        (0x57 + d) as char
    }
}

/// A number in hexadecimal, in lower case and without leading zeros.
pub open spec fn hex(n: nat) -> Seq<char>
    decreases n,
{
    if n < 16 {
        seq![hex_digit(n)]
    } else {
        hex(n / 16).push(hex_digit(n % 16))
    }
}

/// Appends a number in hexadecimal.
pub fn lower_hex(out: &mut String, n: u32)
    ensures
        final(out)@ == old(out)@ + hex(n as nat),
    decreases n,
{
    let ghost before = out@;
    if n >= 16 {
        lower_hex(out, n / 16);
    }
    let d: u32 = n % 16;
    let code: u8 = if d < 10 { 0x30 + d as u8 } else { 0x57 + d as u8 };
    out.push(code as char);
    assert(out@ =~= before + hex(n as nat));
}

/// What one character of a text becomes in a JSON string: quotation marks and backslashes get
/// a backslash before them, and control characters their escape sequence.
pub open spec fn json_escape_of(c: char) -> Seq<char> {
    if c == '"' {
        seq!['\\', '"']
    } else if c == '\\' {
        seq!['\\', '\\']
    } else if c == '\n' {
        seq!['\\', 'n']
    } else if c == '\r' {
        seq!['\\', 'r']
    } else if c == '\t' {
        seq!['\\', 't']
    } else if (c as u32) < 0x20 {
        seq![
            '\\',
            'u',
            '0',
            '0',
            hex_digit((c as u32) as nat / 16),
            hex_digit((c as u32) as nat % 16),
        ]
    } else {
        seq![c]
    }
}

/// The characters of a text as they stand in a JSON string.
pub open spec fn json_chars(s: Seq<char>) -> Seq<char>
    decreases s.len(),
{
    if s.len() == 0 {
        seq![]
    } else {
        json_chars(s.drop_last()) + json_escape_of(s.last())
    }
}

/// A text as a JSON string, its quotation marks included.
pub open spec fn json_quoted(s: Seq<char>) -> Seq<char> {
    seq!['"'] + json_chars(s) + seq!['"']
}

/// The number that a hexadecimal digit stands for.
pub open spec fn hex_value(c: char) -> Option<nat> {
    let code = c as u32;
    if 0x30 <= code <= 0x39 {
        Some((code - 0x30) as nat)
    } else if 0x61 <= code <= 0x66 {
        Some((code - 0x57) as nat)
    } else if 0x41 <= code <= 0x46 {
        Some((code - 0x37) as nat)
    } else {
        None
    }
}

/// The character that four hexadecimal digits stand for, where it takes no more than one such
/// escape.
pub open spec fn hex_char(a: char, b: char, c: char, d: char) -> Option<char> {
    match (hex_value(a), hex_value(b), hex_value(c), hex_value(d)) {
        (Some(a), Some(b), Some(c), Some(d)) => {
            let code = 0x1000 * a + 0x100 * b + 0x10 * c + d;
            if 0xD800 <= code <= 0xDFFF {
                None
            } else {
                Some(code as char)
            }
        },
        _ => None,
    }
}

/// The character that stands at the start of what a JSON string holds between its quotation
/// marks, and how many characters stand for it.
pub open spec fn json_char_at_start(s: Seq<char>) -> Option<(char, int)> {
    if s.len() == 0 {
        None
    } else if s[0] == '\\' {
        if s.len() < 2 {
            None
        } else if s[1] == '"' || s[1] == '\\' || s[1] == '/' {
            Some((s[1], 2))
        } else if s[1] == 'b' {
            Some((8 as char, 2))
        } else if s[1] == 'f' {
            Some((12 as char, 2))
        } else if s[1] == 'n' {
            Some(('\n', 2))
        } else if s[1] == 'r' {
            Some(('\r', 2))
        } else if s[1] == 't' {
            Some(('\t', 2))
        } else if s[1] == 'u' && s.len() >= 6 {
            match hex_char(s[2], s[3], s[4], s[5]) {
                Some(c) => Some((c, 6)),
                None => None,
            }
        } else {
            None
        }
    } else if s[0] == '"' || (s[0] as u32) < 0x20 {
        None
    } else {
        Some((s[0], 1))
    }
}

/// The text that a JSON string holds between its quotation marks. `None` where a quotation mark
/// or a control character stands there without an escape, or a backslash starts none.
pub open spec fn json_read(s: Seq<char>) -> Option<Seq<char>>
    decreases s.len(),
{
    if s.len() == 0 {
        Some(seq![])
    } else {
        match json_char_at_start(s) {
            None => None,
            Some((c, n)) => if 1 <= n <= s.len() {
                match json_read(s.skip(n)) {
                    None => None,
                    Some(rest) => Some(seq![c] + rest),
                }
            } else {
                None
            },
        }
    }
}

/// The text that a JSON string stands for, its quotation marks included in it.
pub open spec fn json_text_of(s: Seq<char>) -> Option<Seq<char>> {
    if s.len() >= 2 && s[0] == '"' && s.last() == '"' {
        json_read(s.subrange(1, s.len() - 1))
    } else {
        None
    }
}

/// One character reads back from what it becomes in a JSON string, whatever follows.
proof fn escape_reads_back(c: char, rest: Seq<char>)
    ensures
        json_char_at_start(json_escape_of(c) + rest) == Some((c, json_escape_of(c).len() as int)),
        (json_escape_of(c) + rest).skip(json_escape_of(c).len() as int) == rest,
        forall|i: int| 0 <= i < json_escape_of(c).len() ==> (#[trigger] json_escape_of(c)[i] as u32) >= 0x20,
{
    let e = json_escape_of(c);
    let s = e + rest;
    assert(forall|i: int| 0 <= i < e.len() ==> #[trigger] s[i] == e[i]);
    assert(s.skip(e.len() as int) =~= rest);
}

/// The first character of a text stands first in a JSON string.
proof fn json_chars_from_the_front(s: Seq<char>)
    requires
        s.len() > 0,
    ensures
        json_chars(s) == json_escape_of(s[0]) + json_chars(s.drop_first()),
    decreases s.len(),
{
    if s.len() == 1 {
        assert(s.drop_last() =~= Seq::<char>::empty());
        assert(s.drop_first() =~= Seq::<char>::empty());
        assert(json_chars(s) =~= json_escape_of(s[0]) + json_chars(s.drop_first()));
    } else {
        json_chars_from_the_front(s.drop_last());
        assert(s.drop_last().drop_first() =~= s.drop_first().drop_last());
        assert(json_chars(s) =~= json_escape_of(s[0]) + json_chars(s.drop_first()));
    }
}

proof fn json_chars_read_back(s: Seq<char>)
    ensures
        json_read(json_chars(s)) == Some(s),
        forall|i: int| 0 <= i < json_chars(s).len() ==> (#[trigger] json_chars(s)[i] as u32) >= 0x20,
    decreases s.len(),
{
    if s.len() > 0 {
        let rest = json_chars(s.drop_first());
        json_chars_from_the_front(s);
        json_chars_read_back(s.drop_first());
        escape_reads_back(s[0], rest);
        assert(seq![s[0]] + s.drop_first() =~= s);
    } else {
        assert(s =~= Seq::<char>::empty());
    }
}

/// A text reads back from its JSON string, which holds no control character.
pub proof fn json_round_trip(s: Seq<char>)
    ensures
        json_text_of(json_quoted(s)) == Some(s),
        forall|i: int| 0 <= i < json_quoted(s).len() ==> (#[trigger] json_quoted(s)[i] as u32) >= 0x20,
{
    json_chars_read_back(s);
    assert(json_quoted(s).subrange(1, json_quoted(s).len() - 1) =~= json_chars(s));
}

/// Two texts with the same JSON string are the same text.
pub proof fn json_tells_texts_apart(s: Seq<char>, t: Seq<char>)
    ensures
        json_quoted(s) == json_quoted(t) <==> s == t,
{
    json_round_trip(s);
    json_round_trip(t);
}

/// A chat component that holds a text.
pub open spec fn json_line_of(s: Seq<char>) -> Seq<char> {
    "{\"text\":"@ + json_quoted(s) + "}"@
}

fn push_json_char(out: &mut String, c: char)
    ensures
        final(out)@ == old(out)@ + json_escape_of(c),
{
    let ghost before = out@;
    let code: u32 = c as u32;
    if c == '"' || c == '\\' {
        out.push('\\');
        out.push(c);
    } else if c == '\n' {
        out.push('\\');
        out.push('n');
    } else if c == '\r' {
        out.push('\\');
        out.push('r');
    } else if c == '\t' {
        out.push('\\');
        out.push('t');
    } else if code < 0x20 {
        out.push('\\');
        out.push('u');
        out.push('0');
        out.push('0');
        let low: u8 = (code % 16) as u8;
        out.push(if code < 16 { '0' } else { '1' });
        out.push((if low < 10 { 0x30 + low } else { 0x57 + low }) as char);
    } else {
        out.push(c);
    }
    assert(out@ =~= before + json_escape_of(c));
}

/// A text as a JSON string, its quotation marks included.
pub fn json_escape(s: &str) -> (r: String)
    ensures
        r@ == json_quoted(s@),
{
    let mut out = String::new();
    out.push('"');
    let n: usize = s.unicode_len();
    let mut chars = s.chars();
    let mut i: usize = 0;
    assert(s@.take(0) =~= Seq::<char>::empty());
    assert(out@ =~= seq!['"'] + json_chars(s@.take(0)));
    while i < n
        invariant
            n == s@.len(),
            i <= n,
            vstd::std_specs::iter::IteratorSpec::remaining(&chars) == s@.skip(i as int),
            out@ == seq!['"'] + json_chars(s@.take(i as int)),
        decreases n - i,
    {
        assert(s@.take(i + 1).drop_last() =~= s@.take(i as int));
        match chars.next() {
            Some(c) => {
                push_json_char(&mut out, c);
                assert(out@ =~= seq!['"'] + json_chars(s@.take(i + 1)));
            },
            None => {},
        }
        i = i + 1;
        assert(s@.skip(i - 1).drop_first() =~= s@.skip(i as int));
    }
    assert(s@.take(n as int) =~= s@);
    out.push('"');
    assert(out@ =~= json_quoted(s@));
    out
}

/// A chat component that holds a text.
pub fn json_line(s: &str) -> (r: String)
    ensures
        r@ == json_line_of(s@),
{
    let mut out = String::from_str("{\"text\":");
    out.append(json_escape(s).as_str());
    out.append("}");
    out
}

/// What one character of a text becomes in a string that `serde_json` writes: the backspace
/// and the form feed have escapes of two characters as well.
pub open spec fn serde_escape_of(c: char) -> Seq<char> {
    if (c as u32) == 8 {
        seq!['\\', 'b']
    } else if (c as u32) == 12 {
        seq!['\\', 'f']
    } else {
        json_escape_of(c)
    }
}

/// The characters of a text as they stand in a string that `serde_json` writes.
pub open spec fn serde_chars(s: Seq<char>) -> Seq<char>
    decreases s.len(),
{
    if s.len() == 0 {
        seq![]
    } else {
        serde_chars(s.drop_last()) + serde_escape_of(s.last())
    }
}

/// A text as `serde_json` writes it, its quotation marks included.
pub open spec fn serde_quoted(s: Seq<char>) -> Seq<char> {
    seq!['"'] + serde_chars(s) + seq!['"']
}

/// An object of two texts, as `serde_json` writes it.
pub open spec fn object_of_two(key: Seq<char>, value: Seq<char>, other: Seq<char>, text: Seq<char>) -> Seq<char> {
    "{"@ + serde_quoted(key) + ":"@ + serde_quoted(value) + ","@ + serde_quoted(other) + ":"@ + serde_quoted(text)
        + "}"@
}

/// `serde_json::Value::to_string` on an object of two texts: its entries stand in the order
/// of their keys, which the first letters of these decide, and nothing stands between.
#[verifier::external_body]
pub(crate) fn json_of_two(key: &str, value: &str, other: &str, text: &str) -> (r: String)
    requires
        key@.len() > 0,
        other@.len() > 0,
        (key@[0] as u32) < (other@[0] as u32),
    ensures
        r@ == object_of_two(key@, value@, other@, text@),
{
    let mut object = serde_json::Map::new();
    object.insert(key.to_owned(), serde_json::Value::String(value.to_owned()));
    object.insert(other.to_owned(), serde_json::Value::String(text.to_owned()));
    serde_json::Value::Object(object).to_string()
}

/// A red chat component.
pub open spec fn red_line(s: Seq<char>) -> Seq<char> {
    object_of_two("color"@, "red"@, "text"@, s)
}

/// A red chat component.
pub fn red_text(s: &str) -> (r: String)
    ensures
        r@ == red_line(s@),
{
    proof {
        reveal_strlit("color");
        reveal_strlit("text");
    }
    json_of_two("color", "red", "text", s)
}

/// A number in decimal, without leading zeros.
pub open spec fn decimal(n: nat) -> Seq<char>
    decreases n,
{
    if n < 10 {
        seq![hex_digit(n)]
    } else {
        decimal(n / 10).push(hex_digit(n % 10))
    }
}

/// Appends a number in decimal.
pub fn push_decimal(out: &mut String, n: u64)
    ensures
        final(out)@ == old(out)@ + decimal(n as nat),
    decreases n,
{
    let ghost before = out@;
    if n >= 10 {
        push_decimal(out, n / 10);
    }
    let code: u8 = 0x30 + (n % 10) as u8;
    out.push(code as char);
    assert(out@ =~= before + decimal(n as nat));
}

/// Whether a text begins with another.
pub open spec fn begins_with(s: Seq<char>, prefix: Seq<char>) -> bool {
    prefix.len() <= s.len() && s.take(prefix.len() as int) == prefix
}

/// Whether a text begins with another.
pub fn has_prefix(s: &str, prefix: &str) -> (r: bool)
    ensures
        r == begins_with(s@, prefix@),
{
    let n: usize = prefix.unicode_len();
    if s.unicode_len() < n {
        return false;
    }
    let mut i: usize = 0;
    while i < n
        invariant
            n == prefix@.len(),
            n <= s@.len(),
            i <= n,
            forall|j: int| 0 <= j < i ==> s@[j] == prefix@[j],
        decreases n - i,
    {
        if s.get_char(i) != prefix.get_char(i) {
            assert(s@.take(n as int)[i as int] != prefix@[i as int]);
            return false;
        }
        i = i + 1;
    }
    assert(s@.take(n as int) =~= prefix@);
    true
}

/// The texts of strings.
pub open spec fn texts(v: Seq<String>) -> Seq<Seq<char>> {
    Seq::new(v.len(), |i: int| v[i]@)
}

/// The parts of a text between occurrences of a character.
pub open spec fn split_by(s: Seq<char>, c: char) -> Seq<Seq<char>>
    decreases s.len(),
{
    if s.len() == 0 {
        seq![Seq::<char>::empty()]
    } else {
        let had = split_by(s.drop_last(), c);
        if s.last() == c {
            had.push(Seq::<char>::empty())
        } else {
            had.drop_last().push(had.last().push(s.last()))
        }
    }
}

/// The parts of a text between occurrences of a character.
pub fn split_text(s: &str, c: char) -> (parts: Vec<String>)
    ensures
        texts(parts@) == split_by(s@, c),
{
    let mut parts: Vec<String> = Vec::new();
    let mut current = String::new();
    let n: usize = s.unicode_len();
    let mut chars = s.chars();
    let mut i: usize = 0;
    assert(s@.take(0) =~= Seq::<char>::empty());
    assert(texts(parts@).push(current@) =~= split_by(s@.take(0), c));
    while i < n
        invariant
            n == s@.len(),
            i <= n,
            vstd::std_specs::iter::IteratorSpec::remaining(&chars) == s@.skip(i as int),
            texts(parts@).push(current@) == split_by(s@.take(i as int), c),
        decreases n - i,
    {
        assert(s@.take(i + 1).drop_last() =~= s@.take(i as int));
        let ghost (had, cur) = (texts(parts@), current@);
        match chars.next() {
            Some(d) => {
                assert(d == s@[i as int]);
                if d == c {
                    parts.push(current);
                    current = String::new();
                    assert(texts(parts@) =~= had.push(cur));
                    assert(texts(parts@).push(current@) =~= had.push(cur).push(Seq::<char>::empty()));
                } else {
                    current.push(d);
                    assert(had.push(cur).drop_last() =~= had);
                    assert(had.push(cur).last() == cur);
                }
            },
            None => {},
        }
        i = i + 1;
        assert(s@.skip(i - 1).drop_first() =~= s@.skip(i as int));
    }
    assert(s@.take(n as int) =~= s@);
    let ghost (had, cur) = (texts(parts@), current@);
    parts.push(current);
    assert(texts(parts@) =~= had.push(cur));
    parts
}

/// Texts, each behind its byte count.
pub open spec fn wire_strings(parts: Seq<Seq<char>>) -> Seq<u8>
    decreases parts.len(),
{
    if parts.len() == 0 {
        seq![]
    } else {
        wire_strings(parts.drop_last()) + wire_string(parts.last())
    }
}

impl Writer {
    /// Appends texts, each behind its byte count.
    pub fn strings(&mut self, parts: &Vec<String>)
        ensures
            final(self)@ == old(self)@ + wire_strings(texts(parts@)),
    {
        let ghost before = self@;
        let ghost all = texts(parts@);
        let mut i: usize = 0;
        assert(all.take(0) =~= Seq::<Seq<char>>::empty());
        assert(before + wire_strings(all.take(0)) =~= before);
        while i < parts.len()
            invariant
                i <= parts.len(),
                all == texts(parts@),
                self@ == before + wire_strings(all.take(i as int)),
            decreases parts.len() - i,
        {
            assert(all.take(i + 1).drop_last() =~= all.take(i as int));
            self.string(parts[i].as_str());
            i = i + 1;
            assert(self@ =~= before + wire_strings(all.take(i as int)));
        }
        assert(all.take(i as int) =~= all);
    }

    /// Appends a text behind its byte count.
    pub fn string(&mut self, s: &str)
        ensures
            final(self)@ == old(self)@ + wire_string(s@),
    {
        let bytes = s.as_bytes();
        let ghost before = self@;
        self.varint(bytes.len() as i32);
        self.raw(bytes);
        assert(self@ =~= before + wire_string(s@));
    }

    /// Appends a text behind its UTF-16 unit count. The count keeps its low 16 bits.
    pub fn ucs2(&mut self, s: &str)
        ensures
            final(self)@ == old(self)@ + ucs2_string(s@),
    {
        let units = utf16_units(s);
        let ghost before = self@;
        self.u16(units.len() as u16);
        let ghost head = self@;
        let mut i: usize = 0;
        assert(units@.take(0) =~= Seq::<u16>::empty());
        assert(head + unit_bytes(units@.take(0)) =~= head);
        while i < units.len()
            invariant
                i <= units.len(),
                self@ == head + unit_bytes(units@.take(i as int)),
            decreases units.len() - i,
        {
            assert(units@.take(i + 1).drop_last() =~= units@.take(i as int));
            self.u16(units[i]);
            i = i + 1;
            assert(self@ =~= head + unit_bytes(units@.take(i as int)));
        }
        assert(units@.take(units.len() as int) =~= units@);
        assert(self@ =~= before + ucs2_string(s@));
    }
}

// Laws.

/// A text without the character is its only part.
pub proof fn undivided(part: Seq<char>, c: char)
    requires
        !part.contains(c),
    ensures
        split_by(part, c) == seq![part],
    decreases part.len(),
{
    if part.len() > 0 {
        let less = part.drop_last();
        assert(part.last() != c) by {
            assert(part[part.len() - 1] == part.last());
        }
        assert(!less.contains(c)) by {
            if less.contains(c) {
                let i = choose|i: int| 0 <= i < less.len() && less[i] == c;
                assert(part[i] == c);
            }
        }
        undivided(less, c);
        assert(less.push(part.last()) =~= part);
        assert(split_by(part, c) =~= seq![part]);
    } else {
        assert(part =~= Seq::<char>::empty());
        assert(split_by(part, c) =~= seq![part]);
    }
}

/// What stands behind the character is a part of its own, the last one.
pub proof fn divided(s: Seq<char>, part: Seq<char>, c: char)
    requires
        !part.contains(c),
    ensures
        split_by(s.push(c) + part, c) == split_by(s, c).push(part),
    decreases part.len(),
{
    let whole = s.push(c) + part;
    if part.len() > 0 {
        let less = part.drop_last();
        assert(part.last() != c) by {
            assert(part[part.len() - 1] == part.last());
        }
        assert(!less.contains(c)) by {
            if less.contains(c) {
                let i = choose|i: int| 0 <= i < less.len() && less[i] == c;
                assert(part[i] == c);
            }
        }
        divided(s, less, c);
        assert(whole.drop_last() =~= s.push(c) + less);
        assert(whole.last() == part.last());
        assert(less.push(part.last()) =~= part);
        assert(split_by(s, c).push(less).drop_last() =~= split_by(s, c));
    } else {
        assert(whole =~= s.push(c));
        assert(whole.drop_last() =~= s);
        assert(part =~= Seq::<char>::empty());
    }
}

/// Quotation marks and backslashes get a backslash before them, and all else stays.
pub proof fn escaped_one_by_one(s: Seq<char>, c: char)
    ensures
        json_escaped(s.push('"')) == json_escaped(s) + seq!['\\', '"'],
        json_escaped(s.push('\\')) == json_escaped(s) + seq!['\\', '\\'],
        c != '"' && c != '\\' ==> json_escaped(s.push(c)) == json_escaped(s).push(c),
        quotes_escaped(s.push('"')) == quotes_escaped(s) + seq!['\\', '"'],
        c != '"' ==> quotes_escaped(s.push(c)) == quotes_escaped(s).push(c),
{
    assert(s.push('"').drop_last() =~= s);
    assert(s.push('\\').drop_last() =~= s);
    assert(s.push(c).drop_last() =~= s);
    assert(json_escaped(s) + seq![c] =~= json_escaped(s).push(c));
    assert(quotes_escaped(s) + seq![c] =~= quotes_escaped(s).push(c));
}

/// The digits of a number, the highest first.
pub proof fn digits_in_order(n: nat, d: nat)
    requires
        n > 0,
    ensures
        d < 10 ==> decimal(10 * n + d) == decimal(n).push((0x30 + d) as char),
        d < 10 ==> hex(16 * n + d) == hex(n).push((0x30 + d) as char),
        10 <= d < 16 ==> hex(16 * n + d) == hex(n).push((0x57 + d) as char),
        d < 10 ==> decimal(d) == seq![(0x30 + d) as char],
{
    if d < 10 {
        assert((10 * n + d) / 10 == n && (10 * n + d) % 10 == d);
    }
    if d < 16 {
        assert((16 * n + d) / 16 == n && (16 * n + d) % 16 == d);
    }
}

} // verus!
