//! How the values of a query are written into a URL: numbers in decimal, flags
//! as fixed tokens, and text percent-encoded.

use vstd::prelude::*;
use vstd::utf8::*;

verus! {

/// Whether a byte of a value is written into a query as it stands. The
/// bytes that are not are the controls, the space, `"`, `#`, `'`, `<` and `>`,
/// which no query may hold as they are; `%`, `&`, `+` and `=`, which have a
/// meaning of their own between the values of a query; and every byte of a
/// character outside ASCII.
pub open spec fn is_plain(byte: u8) -> bool {
    &&& 0x20 < byte < 0x7f
    &&& byte != 0x22
    &&& byte != 0x23
    &&& byte != 0x25
    &&& byte != 0x26
    &&& byte != 0x27
    &&& byte != 0x2b
    &&& byte != 0x3c
    &&& byte != 0x3d
    &&& byte != 0x3e
}

/// The upper-case hexadecimal digit for a value below sixteen.
pub open spec fn hex_digit(value: u8) -> char {
    if value < 10 {
        (0x30 + value) as u8 as char
    } else {
        (0x37 + value) as u8 as char
    }
}

/// What one byte of a value becomes: itself where it is plain, else `%` and
/// its two hexadecimal digits.
pub open spec fn escaped(byte: u8) -> Seq<char> {
    if is_plain(byte) {
        seq![byte as char]
    } else {
        seq!['%', hex_digit(byte / 16), hex_digit(byte % 16)]
    }
}

/// The escapes of all bytes of `bytes`, one after the other.
pub open spec fn escaped_bytes(bytes: Seq<u8>) -> Seq<char>
    decreases bytes.len(),
{
    if bytes.len() == 0 {
        Seq::empty()
    } else {
        escaped_bytes(bytes.drop_last()) + escaped(bytes.last())
    }
}

/// The percent-encoding of a text: the escapes of the bytes of its UTF-8 form.
pub open spec fn percent_encoded(text: Seq<char>) -> Seq<char> {
    escaped_bytes(encode_utf8(text))
}

/// Whether a character is an ASCII character that is written as it stands.
pub open spec fn is_plain_char(c: char) -> bool {
    c <= '\u{7f}' && is_plain(c as u8)
}

/// Whether a text consists of characters that are written as they stand.
pub open spec fn is_plain_text(text: Seq<char>) -> bool {
    forall|i: int| 0 <= i < text.len() ==> is_plain_char(#[trigger] text[i])
}

proof fn lemma_char_not_below_zero(c: char)
    ensures
        '\0' <= c,
{
}

proof fn lemma_escaped_plain_bytes(bytes: Seq<u8>)
    requires
        forall|i: int| 0 <= i < bytes.len() ==> is_plain(#[trigger] bytes[i]),
    ensures
        escaped_bytes(bytes).len() == bytes.len(),
        forall|i: int| 0 <= i < bytes.len() ==> #[trigger] escaped_bytes(bytes)[i] == bytes[i] as char,
    decreases bytes.len(),
{
    if bytes.len() > 0 {
        lemma_escaped_plain_bytes(bytes.drop_last());
    }
}

/// Percent-encoding leaves a text of plain characters as it is.
pub proof fn lemma_plain_text_unchanged(text: Seq<char>)
    requires
        is_plain_text(text),
    ensures
        percent_encoded(text) == text,
{
    assert forall|i: int| 0 <= i < text.len() implies '\0' <= #[trigger] text[i] <= '\u{7f}' by {
        assert(is_plain_char(text[i]));
        lemma_char_not_below_zero(text[i]);
    }
    is_ascii_chars_encode_utf8(text);
    let bytes = encode_utf8(text);
    assert forall|i: int| 0 <= i < bytes.len() implies is_plain(#[trigger] bytes[i]) by {
        assert(is_plain_char(text[i]));
        assert(bytes[i] == text[i] as u8);
    }
    lemma_escaped_plain_bytes(bytes);
    assert forall|i: int| 0 <= i < text.len() implies #[trigger] percent_encoded(text)[i] == text[i] by {
        assert(bytes[i] == text[i] as u8);
        assert(is_plain_char(text[i]));
        char_u32_cast(text[i], text[i] as u32);
    }
    assert(percent_encoded(text) =~= text);
}

/// The value of a hexadecimal digit, in either case; `None` for any other
/// character.
pub open spec fn hex_value(c: char) -> Option<u8> {
    if '0' <= c <= '9' {
        Some((c as u8 - 0x30) as u8)
    } else if 'A' <= c <= 'F' {
        Some((c as u8 - 0x37) as u8)
    } else if 'a' <= c <= 'f' {
        Some((c as u8 - 0x57) as u8)
    } else {
        None
    }
}

/// The bytes that an encoded text stands for: `%` and two hexadecimal digits
/// stand for the byte that the digits give, and any other character for
/// itself.
pub open spec fn unescaped(text: Seq<char>) -> Seq<u8>
    decreases text.len(),
{
    if text.len() == 0 {
        Seq::empty()
    } else if text[0] == '%' && text.len() >= 3 && hex_value(text[1]) is Some && hex_value(
        text[2],
    ) is Some {
        seq![(16 * hex_value(text[1])->0 + hex_value(text[2])->0) as u8] + unescaped(text.skip(3))
    } else {
        seq![text[0] as u8] + unescaped(text.skip(1))
    }
}

/// The text that an encoded text stands for: its bytes, read as UTF-8.
pub open spec fn percent_decoded(text: Seq<char>) -> Seq<char> {
    decode_utf8(unescaped(text))
}

/// Whether a character may stand in an encoded text: a plain character,
/// which the hexadecimal digits are, or `%`.
pub open spec fn is_encoded_char(c: char) -> bool {
    is_plain_char(c) || c == '%'
}

proof fn lemma_escaped_chars(byte: u8)
    ensures
        forall|i: int| 0 <= i < escaped(byte).len() ==> is_encoded_char(#[trigger] escaped(byte)[i]),
        unescaped(escaped(byte)) == seq![byte],
        escaped(byte)[0] == '%' ==> escaped(byte).len() == 3 && hex_value(escaped(byte)[1]) is Some
            && hex_value(escaped(byte)[2]) is Some,
{
    let e = escaped(byte);
    assert(unescaped(Seq::<char>::empty()) =~= Seq::<u8>::empty());
    if is_plain(byte) {
        assert(e[0] == byte as char);
        assert(e[0] != '%');
        assert(e[0] as u8 == byte);
        assert(e.skip(1) =~= Seq::<char>::empty());
        assert(unescaped(e) =~= seq![e[0] as u8] + unescaped(e.skip(1)));
        assert(unescaped(e) =~= seq![byte]);
    } else {
        let high = (byte / 16) as u8;
        let low = (byte % 16) as u8;
        assert(hex_value(hex_digit(high)) == Some(high));
        assert(hex_value(hex_digit(low)) == Some(low));
        assert(is_plain_char(hex_digit(high)));
        assert(is_plain_char(hex_digit(low)));
        assert(e[0] == '%' && e[1] == hex_digit(high) && e[2] == hex_digit(low));
        assert(e.skip(3) =~= Seq::<char>::empty());
        assert((16 * high + low) as u8 == byte);
        assert(unescaped(e) =~= seq![(16 * high + low) as u8] + unescaped(e.skip(3)));
        assert(unescaped(e) =~= seq![byte]);
    }
}

proof fn lemma_unescaped_after_escape(byte: u8, rest: Seq<char>)
    ensures
        unescaped(escaped(byte) + rest) == seq![byte] + unescaped(rest),
{
    lemma_escaped_chars(byte);
    let e = escaped(byte);
    let whole = e + rest;
    if is_plain(byte) {
        assert(whole[0] == byte as char);
        assert(whole.skip(1) =~= rest);
    } else {
        assert(whole[0] == '%');
        assert(whole[1] == e[1]);
        assert(whole[2] == e[2]);
        assert(whole.skip(3) =~= rest);
        let high = (byte / 16) as u8;
        let low = (byte % 16) as u8;
        assert(hex_value(hex_digit(high)) == Some(high));
        assert(hex_value(hex_digit(low)) == Some(low));
    }
}

proof fn lemma_escaped_from_front(bytes: Seq<u8>)
    requires
        bytes.len() > 0,
    ensures
        escaped_bytes(bytes) == escaped(bytes[0]) + escaped_bytes(bytes.drop_first()),
    decreases bytes.len(),
{
    if bytes.len() == 1 {
        assert(bytes.drop_last() =~= Seq::<u8>::empty());
        assert(bytes.drop_first() =~= Seq::<u8>::empty());
        assert(escaped_bytes(bytes) =~= escaped(bytes[0]) + escaped_bytes(bytes.drop_first()));
    } else {
        let front = bytes.drop_last();
        lemma_escaped_from_front(front);
        assert(front.drop_first() =~= bytes.drop_first().drop_last());
        assert(bytes.drop_first().last() == bytes.last());
        assert(escaped_bytes(bytes) =~= escaped(bytes[0]) + escaped_bytes(bytes.drop_first()));
    }
}

proof fn lemma_unescaped_escaped(bytes: Seq<u8>)
    ensures
        unescaped(escaped_bytes(bytes)) == bytes,
        forall|i: int|
            0 <= i < escaped_bytes(bytes).len() ==> is_encoded_char(
                #[trigger] escaped_bytes(bytes)[i],
            ),
    decreases bytes.len(),
{
    if bytes.len() > 0 {
        let rest = bytes.drop_first();
        lemma_escaped_from_front(bytes);
        lemma_unescaped_escaped(rest);
        lemma_unescaped_after_escape(bytes[0], escaped_bytes(rest));
        lemma_escaped_chars(bytes[0]);
        assert(seq![bytes[0]] + rest =~= bytes);
        let first = escaped(bytes[0]);
        let all = escaped_bytes(bytes);
        assert forall|i: int| 0 <= i < all.len() implies is_encoded_char(#[trigger] all[i]) by {
            if i < first.len() {
                assert(all[i] == first[i]);
            } else {
                assert(all[i] == escaped_bytes(rest)[i - first.len()]);
            }
        }
    }
}

/// Decoding the percent-encoding of a text gives the text back.
pub proof fn lemma_percent_encoding_round_trip(text: Seq<char>)
    ensures
        percent_decoded(percent_encoded(text)) == text,
{
    lemma_unescaped_escaped(encode_utf8(text));
    encode_utf8_decode_utf8(text);
}

/// The percent-encoding of a text holds none of the characters that part a
/// query: no `&`, no `=`, no `+` and no `#`, and no space. Every character of
/// it is a plain character or `%`.
pub proof fn lemma_percent_encoding_is_one_value(text: Seq<char>)
    ensures
        forall|i: int|
            0 <= i < percent_encoded(text).len() ==> {
                let c = #[trigger] percent_encoded(text)[i];
                &&& is_encoded_char(c)
                &&& c != '&'
                &&& c != '='
                &&& c != '+'
                &&& c != '#'
                &&& c != ' '
            },
{
    lemma_unescaped_escaped(encode_utf8(text));
    assert forall|i: int| 0 <= i < percent_encoded(text).len() implies {
        let c = #[trigger] percent_encoded(text)[i];
        &&& is_encoded_char(c)
        &&& c != '&'
        &&& c != '='
        &&& c != '+'
        &&& c != '#'
        &&& c != ' '
    } by {
        assert(is_encoded_char(percent_encoded(text)[i]));
    }
}

fn plain(byte: u8) -> (r: bool)
    ensures
        r == is_plain(byte),
{
    0x20 < byte && byte < 0x7f && byte != 0x22 && byte != 0x23 && byte != 0x25 && byte != 0x26
        && byte != 0x27 && byte != 0x2b && byte != 0x3c && byte != 0x3d && byte != 0x3e
}

fn hex(value: u8) -> (digit: char)
    requires
        value < 16,
    ensures
        digit == hex_digit(value),
{
    if value < 10 {
        (0x30 + value) as char
    } else {
        (0x37 + value) as char
    }
}

/// Percent-encodes `value` for use in a query.
pub fn percent_encode(value: &str) -> (encoded: String)
    ensures
        encoded@ == percent_encoded(value@),
{
    let bytes = value.as_bytes();
    let mut encoded = String::new();
    let mut i: usize = 0;
    while i < bytes.len()
        invariant
            i <= bytes.len(),
            bytes@ == encode_utf8(value@),
            encoded@ == escaped_bytes(bytes@.take(i as int)),
        decreases bytes.len() - i,
    {
        let byte = bytes[i];
        if plain(byte) {
            encoded.push(byte as char);
        } else {
            encoded.push('%');
            encoded.push(hex(byte / 16));
            encoded.push(hex(byte % 16));
        }
        proof {
            assert(bytes@.take(i + 1).drop_last() == bytes@.take(i as int));
        }
        i += 1;
    }
    proof {
        assert(bytes@.take(i as int) == bytes@);
    }
    encoded
}

/// The character of a decimal digit.
pub open spec fn digit_char(digit: nat) -> char {
    (0x30 + digit) as u8 as char
}

/// The decimal form of a number, without leading zeros.
pub open spec fn decimal(value: nat) -> Seq<char>
    decreases value,
{
    if value < 10 {
        seq![digit_char(value)]
    } else {
        decimal(value / 10).push(digit_char(value % 10))
    }
}

/// The decimal form of a number consists of plain characters, so that
/// percent-encoding leaves it as it is.
pub proof fn lemma_decimal_unchanged(value: nat)
    ensures
        is_plain_text(decimal(value)),
        percent_encoded(decimal(value)) == decimal(value),
    decreases value,
{
    if value >= 10 {
        lemma_decimal_unchanged(value / 10);
    }
    assert(is_plain_text(decimal(value)));
    lemma_plain_text_unchanged(decimal(value));
}

/// Renders a number in decimal.
pub fn own_display(value: u32) -> (text: String)
    ensures
        text@ == decimal(value as nat),
{
    let mut rest: u32 = value;
    let mut low: Vec<char> = Vec::new();
    while rest >= 10
        invariant
            decimal(value as nat) == decimal(rest as nat) + low@.reverse(),
        decreases rest,
    {
        let ghost before = low@;
        low.push((0x30 + (rest % 10) as u8) as char);
        proof {
            assert(low@.reverse() == seq![low@.last()] + before.reverse());
            assert(decimal(rest as nat) == decimal((rest / 10) as nat).push(low@.last()));
        }
        rest = rest / 10;
    }
    let mut text = String::new();
    text.push((0x30 + rest as u8) as char);
    let mut i: usize = low.len();
    while i > 0
        invariant
            i <= low.len(),
            text@ == decimal(rest as nat) + low@.reverse().take(low.len() - i),
            rest < 10,
        decreases i,
    {
        i -= 1;
        text.push(low[i]);
        proof {
            let r = low@.reverse();
            assert(r.take(low.len() - i) == r.take(low.len() - i - 1).push(low@[i as int]));
        }
    }
    proof {
        assert(low@.reverse().take(low.len() as int) == low@.reverse());
    }
    text
}

/// The token that stands for a flag: `true_val` where it is set, else
/// `false_val`.
pub fn bool_flag<'a>(value: bool, true_val: &'a str, false_val: &'a str) -> (token: &'a str)
    ensures
        token@ == if value { true_val@ } else { false_val@ },
{
    if value {
        true_val
    } else {
        false_val
    }
}

} // verus!
