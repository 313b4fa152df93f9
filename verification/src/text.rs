//! Verified plain-text building blocks for the reporting layer: decimal
//! and hexadecimal rendering, JSON string escaping, label/value lines.

use vstd::prelude::*;

verus! {

/// The decimal digit character for a value below ten.
pub open spec fn spec_digit(d: nat) -> char {
    if d == 0 {
        '0'
    } else if d == 1 {
        '1'
    } else if d == 2 {
        '2'
    } else if d == 3 {
        '3'
    } else if d == 4 {
        '4'
    } else if d == 5 {
        '5'
    } else if d == 6 {
        '6'
    } else if d == 7 {
        '7'
    } else if d == 8 {
        '8'
    } else {
        '9'
    }
}

/// The usual decimal rendering of a natural number: no sign, no leading
/// zeros (except for the number zero itself, rendered as "0").
pub open spec fn spec_dec(n: nat) -> Seq<char>
    decreases n,
{
    if n < 10 {
        seq![spec_digit(n)]
    } else {
        spec_dec(n / 10) + seq![spec_digit(n % 10)]
    }
}

fn digit_char(d: u128) -> (c: char)
    requires
        d < 10,
    ensures
        c == spec_digit(d as nat),
{
    if d == 0 {
        '0'
    } else if d == 1 {
        '1'
    } else if d == 2 {
        '2'
    } else if d == 3 {
        '3'
    } else if d == 4 {
        '4'
    } else if d == 5 {
        '5'
    } else if d == 6 {
        '6'
    } else if d == 7 {
        '7'
    } else if d == 8 {
        '8'
    } else {
        '9'
    }
}

/// Relies on `String::push` of std: appends exactly the given character
/// to the end of the string.
#[verifier::external_body]
pub fn push_char(s: &mut String, c: char)
    ensures
        final(s)@ == old(s)@ + seq![c],
{
    s.push(c);
}

/// Renders a number in decimal.
pub fn dec_u128(n: u128) -> (r: String)
    ensures
        r@ == spec_dec(n as nat),
    decreases n,
{
    if n < 10 {
        let mut s = String::new();
        push_char(&mut s, digit_char(n));
        assert(s@ =~= spec_dec(n as nat));
        s
    } else {
        let mut s = dec_u128(n / 10);
        push_char(&mut s, digit_char(n % 10));
        assert(s@ =~= spec_dec(n as nat));
        s
    }
}

/// Renders a number in decimal.
pub fn dec_u64(n: u64) -> (r: String)
    ensures
        r@ == spec_dec(n as nat),
{
    dec_u128(n as u128)
}

/// The lower-case hexadecimal digit character for a value below sixteen.
pub open spec fn spec_hex_digit(d: nat) -> char {
    if d < 10 {
        spec_digit(d)
    } else if d == 10 {
        'a'
    } else if d == 11 {
        'b'
    } else if d == 12 {
        'c'
    } else if d == 13 {
        'd'
    } else if d == 14 {
        'e'
    } else {
        'f'
    }
}

/// Two hexadecimal digits for one byte, high nibble first.
pub open spec fn spec_hex_byte(b: nat) -> Seq<char> {
    seq![spec_hex_digit(b / 16), spec_hex_digit(b % 16)]
}

/// Lower-case hexadecimal rendering of a byte string, two digits per byte.
pub open spec fn spec_hex(bytes: Seq<u8>) -> Seq<char>
    decreases bytes.len(),
{
    if bytes.len() == 0 {
        Seq::empty()
    } else {
        spec_hex(bytes.drop_last()) + spec_hex_byte(bytes.last() as nat)
    }
}

/// Hexadecimal rendering with the conventional "0x" prefix.
pub open spec fn spec_hex_0x(bytes: Seq<u8>) -> Seq<char> {
    seq!['0', 'x'] + spec_hex(bytes)
}

fn hex_digit_char(d: u8) -> (c: char)
    requires
        d < 16,
    ensures
        c == spec_hex_digit(d as nat),
{
    if d < 10 {
        digit_char(d as u128)
    } else if d == 10 {
        'a'
    } else if d == 11 {
        'b'
    } else if d == 12 {
        'c'
    } else if d == 13 {
        'd'
    } else if d == 14 {
        'e'
    } else {
        'f'
    }
}

/// Renders a byte string as "0x" followed by two lower-case hex digits
/// per byte.
pub fn hex_0x(bytes: &Vec<u8>) -> (r: String)
    ensures
        r@ == spec_hex_0x(bytes@),
{
    let mut s = String::new();
    push_char(&mut s, '0');
    push_char(&mut s, 'x');
    assert(s@ =~= seq!['0', 'x'] + spec_hex(bytes@.take(0)));
    let mut i: usize = 0;
    while i < bytes.len()
        invariant
            i <= bytes.len(),
            s@ == seq!['0', 'x'] + spec_hex(bytes@.take(i as int)),
        decreases bytes.len() - i,
    {
        let b = bytes[i];
        push_char(&mut s, hex_digit_char(b / 16));
        push_char(&mut s, hex_digit_char(b % 16));
        proof {
            let t = bytes@.take(i + 1);
            assert(t.drop_last() =~= bytes@.take(i as int));
            assert(t.last() == bytes@[i as int]);
            assert(s@ =~= seq!['0', 'x'] + spec_hex(t));
        }
        i = i + 1;
    }
    proof {
        assert(bytes@.take(bytes@.len() as int) =~= bytes@);
    }
    s
}

/// The value of a hexadecimal digit character; sixteen for any other
/// character.
pub open spec fn spec_hex_val(c: char) -> nat {
    if c == '0' {
        0
    } else if c == '1' {
        1
    } else if c == '2' {
        2
    } else if c == '3' {
        3
    } else if c == '4' {
        4
    } else if c == '5' {
        5
    } else if c == '6' {
        6
    } else if c == '7' {
        7
    } else if c == '8' {
        8
    } else if c == '9' {
        9
    } else if c == 'a' || c == 'A' {
        10
    } else if c == 'b' || c == 'B' {
        11
    } else if c == 'c' || c == 'C' {
        12
    } else if c == 'd' || c == 'D' {
        13
    } else if c == 'e' || c == 'E' {
        14
    } else if c == 'f' || c == 'F' {
        15
    } else {
        16
    }
}

pub open spec fn spec_is_hex_digit(c: char) -> bool {
    spec_hex_val(c) < 16
}

/// A leading "0x" is conventional for hex strings and is ignored when
/// decoding.
pub open spec fn spec_strip_0x(s: Seq<char>) -> Seq<char> {
    if s.len() >= 2 && s[0] == '0' && s[1] == 'x' {
        s.skip(2)
    } else {
        s
    }
}

/// A digit string decodes to bytes when its length is even and every
/// character is a hexadecimal digit.
pub open spec fn spec_valid_hex(s: Seq<char>) -> bool {
    &&& s.len() % 2 == 0
    &&& forall|i: int| 0 <= i < s.len() ==> spec_is_hex_digit(#[trigger] s[i])
}

/// The bytes a valid hexadecimal digit string stands for.
pub open spec fn spec_hex_decode(s: Seq<char>) -> Seq<u8>
    decreases s.len(),
{
    if s.len() < 2 {
        Seq::empty()
    } else {
        spec_hex_decode(s.take(s.len() - 2)) + seq![
            (spec_hex_val(s[s.len() - 2]) * 16 + spec_hex_val(s[s.len() - 1])) as u8,
        ]
    }
}

pub proof fn lemma_hex_digit_val(d: nat)
    requires
        d < 16,
    ensures
        spec_hex_val(spec_hex_digit(d)) == d,
{
}

/// The hexadecimal rendering of a byte string is twice as long, is
/// made of hexadecimal digits throughout, and decodes back to the very
/// same bytes.
pub proof fn lemma_hex_decode_encode(bytes: Seq<u8>)
    ensures
        spec_hex(bytes).len() == 2 * bytes.len(),
        spec_valid_hex(spec_hex(bytes)),
        spec_hex_decode(spec_hex(bytes)) == bytes,
    decreases bytes.len(),
{
    if bytes.len() == 0 {
        assert(spec_hex_decode(spec_hex(bytes)) =~= bytes);
    } else {
        let pre = bytes.drop_last();
        let b = bytes.last();
        lemma_hex_decode_encode(pre);
        let s = spec_hex(bytes);
        assert(s == spec_hex(pre) + spec_hex_byte(b as nat));
        lemma_hex_digit_val((b as nat) / 16);
        lemma_hex_digit_val((b as nat) % 16);
        assert forall|i: int| 0 <= i < s.len() implies spec_is_hex_digit(#[trigger] s[i]) by {
            if i < spec_hex(pre).len() {
                assert(s[i] == spec_hex(pre)[i]);
            } else if i == s.len() - 2 {
                assert(s[i] == spec_hex_digit((b as nat) / 16));
            } else {
                assert(s[i] == spec_hex_digit((b as nat) % 16));
            }
        }
        assert(s.take(s.len() - 2) =~= spec_hex(pre));
        assert(s[s.len() - 2] == spec_hex_digit((b as nat) / 16));
        assert(s[s.len() - 1] == spec_hex_digit((b as nat) % 16));
        assert(spec_hex_val(s[s.len() - 2]) * 16 + spec_hex_val(s[s.len() - 1]) == b as nat);
        assert(spec_hex_decode(s) =~= bytes);
    }
}

/// Round trip: the "0x"-prefixed rendering of any byte string is a
/// valid hexadecimal encoding and decodes back to the same bytes.
pub proof fn lemma_hex_round_trip(bytes: Seq<u8>)
    ensures
        spec_valid_hex(spec_strip_0x(spec_hex_0x(bytes))),
        spec_hex_decode(spec_strip_0x(spec_hex_0x(bytes))) == bytes,
{
    let s = spec_hex_0x(bytes);
    assert(s[0] == '0' && s[1] == 'x');
    assert(spec_strip_0x(s) =~= spec_hex(bytes));
    lemma_hex_decode_encode(bytes);
}

fn hex_val_char(c: char) -> (v: u8)
    ensures
        v as nat == spec_hex_val(c),
{
    if c == '0' {
        0
    } else if c == '1' {
        1
    } else if c == '2' {
        2
    } else if c == '3' {
        3
    } else if c == '4' {
        4
    } else if c == '5' {
        5
    } else if c == '6' {
        6
    } else if c == '7' {
        7
    } else if c == '8' {
        8
    } else if c == '9' {
        9
    } else if c == 'a' || c == 'A' {
        10
    } else if c == 'b' || c == 'B' {
        11
    } else if c == 'c' || c == 'C' {
        12
    } else if c == 'd' || c == 'D' {
        13
    } else if c == 'e' || c == 'E' {
        14
    } else if c == 'f' || c == 'F' {
        15
    } else {
        16
    }
}

/// Why a string is no valid hexadecimal byte encoding.
#[derive(Clone, Copy, PartialEq, Eq, Structural, Debug)]
pub enum HexError {
    /// An odd number of digits after the optional "0x" prefix.
    OddLength,
    /// A character that is no hexadecimal digit.
    InvalidDigit,
}

/// Decodes a hexadecimal string, with or without a "0x" prefix, into
/// bytes. Fails exactly when, after the prefix, the length is odd or a
/// character is no hexadecimal digit; an odd length is reported before
/// the digits are looked at.
pub fn decode_hex(s: &str) -> (r: Result<Vec<u8>, HexError>)
    ensures
        r is Ok <==> spec_valid_hex(spec_strip_0x(s@)),
        r is Ok ==> r->Ok_0@ == spec_hex_decode(spec_strip_0x(s@)),
        spec_strip_0x(s@).len() % 2 != 0 ==> r == Err::<Vec<u8>, HexError>(HexError::OddLength),
        r is Err && spec_strip_0x(s@).len() % 2 == 0 ==> r == Err::<Vec<u8>, HexError>(
            HexError::InvalidDigit,
        ),
{
    let n = s.unicode_len();
    let start: usize = if n >= 2 && s.get_char(0) == '0' && s.get_char(1) == 'x' {
        2
    } else {
        0
    };
    let ghost body = spec_strip_0x(s@);
    proof {
        assert(body =~= s@.skip(start as int));
    }
    if (n - start) % 2 != 0 {
        return Err(HexError::OddLength);
    }
    let mut out: Vec<u8> = Vec::new();
    let mut i: usize = start;
    while i < n
        invariant
            start <= i <= n,
            n == s@.len(),
            (i - start) % 2 == 0,
            (n - start) % 2 == 0,
            body == s@.skip(start as int),
            body == spec_strip_0x(s@),
            out@ == spec_hex_decode(s@.subrange(start as int, i as int)),
            forall|j: int| start <= j < i ==> spec_is_hex_digit(#[trigger] s@[j]),
        decreases n - i,
    {
        let hi = hex_val_char(s.get_char(i));
        let lo = hex_val_char(s.get_char(i + 1));
        if hi >= 16 || lo >= 16 {
            proof {
                let bad: int = if hi >= 16 {
                    i as int
                } else {
                    i + 1
                };
                assert(i + 2 <= n);
                assert(body.len() == n - start);
                assert(0 <= bad - start < body.len());
                assert(body[bad - start] == s@[bad]);
                assert(!spec_is_hex_digit(body[bad - start]));
                assert(!spec_valid_hex(body));
            }
            return Err(HexError::InvalidDigit);
        }
        out.push(hi * 16 + lo);
        proof {
            let t = s@.subrange(start as int, i + 2);
            assert(t.take(t.len() - 2) =~= s@.subrange(start as int, i as int));
            assert(t[t.len() - 2] == s@[i as int]);
            assert(t[t.len() - 1] == s@[i + 1]);
            assert(out@ =~= spec_hex_decode(t));
        }
        i = i + 2;
    }
    proof {
        assert(s@.subrange(start as int, n as int) =~= body);
        assert forall|j: int| 0 <= j < body.len() implies spec_is_hex_digit(#[trigger] body[j]) by {
            assert(body[j] == s@[j + start]);
        }
    }
    Ok(out)
}

/// How a character appears inside a JSON string literal: quote,
/// backslash and control characters are escaped, everything else stands
/// for itself.
pub open spec fn spec_json_escape_char(c: char) -> Seq<char> {
    if c == '"' {
        seq!['\\', '"']
    } else if c == '\\' {
        seq!['\\', '\\']
    } else if c == '\n' {
        seq!['\\', 'n']
    } else if c == '\r' {
        seq!['\\', 'r']
    } else if c == '\t' {
        seq!['\\', 't']
    } else if (c as nat) < 32 {
        seq!['\\', 'u', '0', '0', spec_hex_digit((c as nat) / 16), spec_hex_digit((c as nat) % 16)]
    } else {
        seq![c]
    }
}

/// A string escaped for use inside a JSON string literal.
pub open spec fn spec_json_escape(s: Seq<char>) -> Seq<char>
    decreases s.len(),
{
    if s.len() == 0 {
        Seq::empty()
    } else {
        spec_json_escape(s.drop_last()) + spec_json_escape_char(s.last())
    }
}

/// Escapes a string for use inside a JSON string literal.
pub fn json_escape(s: &str) -> (r: String)
    ensures
        r@ == spec_json_escape(s@),
{
    let n = s.unicode_len();
    let mut out = String::new();
    assert(out@ =~= spec_json_escape(s@.take(0)));
    let mut i: usize = 0;
    while i < n
        invariant
            i <= n,
            n == s@.len(),
            out@ == spec_json_escape(s@.take(i as int)),
        decreases n - i,
    {
        let c = s.get_char(i);
        if c == '"' {
            push_char(&mut out, '\\');
            push_char(&mut out, '"');
        } else if c == '\\' {
            push_char(&mut out, '\\');
            push_char(&mut out, '\\');
        } else if c == '\n' {
            push_char(&mut out, '\\');
            push_char(&mut out, 'n');
        } else if c == '\r' {
            push_char(&mut out, '\\');
            push_char(&mut out, 'r');
        } else if c == '\t' {
            push_char(&mut out, '\\');
            push_char(&mut out, 't');
        } else if (c as u32) < 32 {
            let v = c as u32;
            push_char(&mut out, '\\');
            push_char(&mut out, 'u');
            push_char(&mut out, '0');
            push_char(&mut out, '0');
            push_char(&mut out, hex_digit_char((v / 16) as u8));
            push_char(&mut out, hex_digit_char((v % 16) as u8));
        } else {
            push_char(&mut out, c);
        }
        proof {
            let t = s@.take(i + 1);
            assert(t.drop_last() =~= s@.take(i as int));
            assert(t.last() == s@[i as int]);
            assert(out@ =~= spec_json_escape(t));
        }
        i = i + 1;
    }
    proof {
        assert(s@.take(n as int) =~= s@);
    }
    out
}

/// A run of spaces.
pub open spec fn spec_spaces(n: nat) -> Seq<char> {
    Seq::new(n, |i: int| ' ')
}

fn spaces(n: usize) -> (r: String)
    ensures
        r@ == spec_spaces(n as nat),
{
    let mut s = String::new();
    assert(s@ =~= spec_spaces(0));
    let mut i: usize = 0;
    while i < n
        invariant
            i <= n,
            s@ == spec_spaces(i as nat),
        decreases n - i,
    {
        push_char(&mut s, ' ');
        assert(s@ =~= spec_spaces((i + 1) as nat));
        i = i + 1;
    }
    s
}

/// A label padded on the left with spaces to the given column width.
pub open spec fn spec_pad_left(label: Seq<char>, width: nat) -> Seq<char> {
    if label.len() >= width {
        label
    } else {
        spec_spaces((width - label.len()) as nat) + label
    }
}

/// One human-readable "label value" line: the label right-aligned in a
/// fixed column, one space, the value, a newline.
pub open spec fn spec_line(label: Seq<char>, value: Seq<char>, width: nat) -> Seq<char> {
    spec_pad_left(label, width) + seq![' '] + value + seq!['\n']
}

/// Renders one "label value" line with the label right-aligned to the
/// given column width.
pub fn name_value_line(label: &str, value: &str, width: usize) -> (r: String)
    ensures
        r@ == spec_line(label@, value@, width as nat),
{
    let l = label.unicode_len();
    let mut s = if l >= width {
        String::new()
    } else {
        spaces(width - l)
    };
    s.append(label);
    push_char(&mut s, ' ');
    s.append(value);
    push_char(&mut s, '\n');
    assert(s@ =~= spec_line(label@, value@, width as nat));
    s
}

/// The items joined with single spaces.
pub open spec fn spec_join_spaces(items: Seq<Seq<char>>) -> Seq<char>
    decreases items.len(),
{
    if items.len() == 0 {
        Seq::empty()
    } else if items.len() == 1 {
        items[0]
    } else {
        spec_join_spaces(items.drop_last()) + seq![' '] + items.last()
    }
}

/// Joins the strings with single spaces.
pub fn join_spaces(items: &Vec<String>) -> (r: String)
    ensures
        r@ == spec_join_spaces(items@.map_values(|s: String| s@)),
{
    let ghost vs = items@.map_values(|s: String| s@);
    let mut out = String::new();
    assert(out@ =~= spec_join_spaces(vs.take(0)));
    let mut i: usize = 0;
    while i < items.len()
        invariant
            i <= items.len(),
            vs == items@.map_values(|s: String| s@),
            vs.len() == items@.len(),
            out@ == spec_join_spaces(vs.take(i as int)),
        decreases items.len() - i,
    {
        if i > 0 {
            push_char(&mut out, ' ');
        }
        out.append(items[i].as_str());
        proof {
            let t = vs.take(i + 1);
            if i == 0 {
                assert(t.len() == 1);
                assert(t[0] == vs[0]);
                assert(out@ =~= spec_join_spaces(t));
            } else {
                assert(t.drop_last() =~= vs.take(i as int));
                assert(t.last() == vs[i as int]);
                assert(out@ =~= spec_join_spaces(t));
            }
        }
        i = i + 1;
    }
    proof {
        assert(vs.take(vs.len() as int) =~= vs);
    }
    out
}

} // verus!
