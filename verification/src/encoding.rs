use vstd::prelude::*;
use vstd::string::*;

verus! {

/// Which bytes an encoder copies as they are.
#[derive(Clone, Copy, Debug, PartialEq, Eq, Structural)]
pub enum Encoding {
    /// A path segment or a query component of a URL: letters, digits and `-._~` stay.
    Component,
    /// A name or a value of an `application/x-www-form-urlencoded` body: letters, digits
    /// and `*-._` stay, and a space becomes `+`.
    Form,
}

/// An ASCII letter or digit.
pub open spec fn is_alphanumeric(b: u8) -> bool {
    ||| 0x30 <= b <= 0x39
    ||| 0x41 <= b <= 0x5A
    ||| 0x61 <= b <= 0x7A
}

/// The bytes that `mode` copies unchanged: letters, digits, `-`, `.`, `_`, and `~`
/// in a URL component or `*` in a form.
pub open spec fn is_literal(mode: Encoding, b: u8) -> bool {
    ||| is_alphanumeric(b)
    ||| b == 0x2D
    ||| b == 0x2E
    ||| b == 0x5F
    ||| match mode {
        Encoding::Component => b == 0x7E,
        Encoding::Form => b == 0x2A,
    }
}

/// The upper-case hexadecimal digit of a value below 16.
pub open spec fn hex_digit(n: u8) -> char
    recommends
        n < 16,
{
    if n < 10 {
        ((0x30 + n) as u8) as char
    } else {
        ((0x37 + n) as u8) as char
    }
}

/// What one byte becomes: itself, `+` for a space in a form, or `%` and two hex digits.
pub open spec fn encoded_byte(mode: Encoding, b: u8) -> Seq<char> {
    if is_literal(mode, b) {
        seq![b as char]
    } else if mode == Encoding::Form && b == 0x20 {
        seq!['+']
    } else {
        seq!['%', hex_digit(b / 16), hex_digit(b % 16)]
    }
}

/// The encoding of a byte string: the encodings of its bytes, in order.
pub open spec fn encoded(mode: Encoding, bytes: Seq<u8>) -> Seq<char>
    decreases bytes.len(),
{
    if bytes.len() == 0 {
        Seq::empty()
    } else {
        encoded_byte(mode, bytes.first()) + encoded(mode, bytes.drop_first())
    }
}

/// The encoding of a text: that of its UTF-8 bytes.
pub open spec fn encoded_text(mode: Encoding, text: Seq<char>) -> Seq<char> {
    encoded(mode, vstd::utf8::encode_utf8(text))
}

/// The value of a hexadecimal digit, of either case.
pub open spec fn hex_value(c: char) -> Option<u8> {
    let v = c as u32;
    if 0x30 <= v <= 0x39 {
        Some((v - 0x30) as u8)
    } else if 0x41 <= v <= 0x46 {
        Some((v - 0x37) as u8)
    } else if 0x61 <= v <= 0x66 {
        Some((v - 0x57) as u8)
    } else {
        None
    }
}

/// Whether `c` is the character of a byte that `mode` copies unchanged.
pub open spec fn is_literal_char(mode: Encoding, c: char) -> bool {
    (c as u32) < 0x80 && is_literal(mode, c as u8)
}

/// The byte string that an encoded text stands for, or `None` where the text is not
/// the encoding of anything: a `%` without two hex digits, or a character that an
/// encoder would have escaped.
pub open spec fn decoded(mode: Encoding, text: Seq<char>) -> Option<Seq<u8>>
    decreases text.len(),
{
    if text.len() == 0 {
        Some(Seq::empty())
    } else if text[0] == '%' {
        if text.len() >= 3 && hex_value(text[1]) is Some && hex_value(text[2]) is Some {
            match decoded(mode, text.skip(3)) {
                Some(rest) => Some(
                    seq![(hex_value(text[1])->0 * 16 + hex_value(text[2])->0) as u8] + rest,
                ),
                None => None,
            }
        } else {
            None
        }
    } else if mode == Encoding::Form && text[0] == '+' {
        match decoded(mode, text.skip(1)) {
            Some(rest) => Some(seq![0x20u8] + rest),
            None => None,
        }
    } else if is_literal_char(mode, text[0]) {
        match decoded(mode, text.skip(1)) {
            Some(rest) => Some(seq![text[0] as u8] + rest),
            None => None,
        }
    } else {
        None
    }
}

/// A character that an encoder may emit: one it copies, `%`, or `+` in a form.
pub open spec fn is_output_char(mode: Encoding, c: char) -> bool {
    ||| is_literal_char(mode, c)
    ||| c == '%'
    ||| mode == Encoding::Form && c == '+'
}

/// The encoding of a byte string followed by one more byte is the encoding of the
/// string followed by that of the byte.
pub proof fn lemma_encoded_push(mode: Encoding, bytes: Seq<u8>, b: u8)
    ensures
        encoded(mode, bytes.push(b)) == encoded(mode, bytes) + encoded_byte(mode, b),
    decreases bytes.len(),
{
    if bytes.len() == 0 {
        assert(bytes.push(b).drop_first() =~= Seq::<u8>::empty());
        assert(encoded(mode, Seq::<u8>::empty()) =~= Seq::<char>::empty());
    } else {
        let rest = bytes.drop_first();
        lemma_encoded_push(mode, rest, b);
        assert(bytes.push(b).drop_first() =~= rest.push(b));
    }
}

/// An encoder emits nothing but the characters it copies, `%` and, in a form, `+`:
/// no `/`, `?`, `#`, `&` or `=`, whatever the bytes were.
pub proof fn law_encoded_chars(mode: Encoding, bytes: Seq<u8>)
    ensures
        forall|i: int|
            0 <= i < encoded(mode, bytes).len() ==> is_output_char(
                mode,
                #[trigger] encoded(mode, bytes)[i],
            ),
    decreases bytes.len(),
{
    if bytes.len() > 0 {
        let head = encoded_byte(mode, bytes.first());
        let tail = encoded(mode, bytes.drop_first());
        law_encoded_chars(mode, bytes.drop_first());
        assert forall|i: int| 0 <= i < (head + tail).len() implies is_output_char(
            mode,
            #[trigger] (head + tail)[i],
        ) by {
            if i >= head.len() {
                assert((head + tail)[i] == tail[i - head.len()]);
            }
        }
    }
}

/// Decoding gives back what was encoded: no two byte strings share an encoding.
pub proof fn law_decoded_encoded(mode: Encoding, bytes: Seq<u8>)
    ensures
        decoded(mode, encoded(mode, bytes)) == Some(bytes),
    decreases bytes.len(),
{
    if bytes.len() > 0 {
        let b = bytes.first();
        let rest = bytes.drop_first();
        let head = encoded_byte(mode, b);
        let tail = encoded(mode, rest);
        let text = head + tail;
        law_decoded_encoded(mode, rest);
        if is_literal(mode, b) || (mode == Encoding::Form && b == 0x20) {
            assert(text.skip(1) =~= tail);
        } else {
            assert(text.skip(3) =~= tail);
        }
    }
}

/// Every character of `text` is one that `mode` copies.
pub open spec fn is_plain(mode: Encoding, text: Seq<char>) -> bool {
    forall|i: int| 0 <= i < text.len() ==> is_literal_char(mode, #[trigger] text[i])
}

proof fn lemma_literal_char_is_ascii(mode: Encoding, c: char)
    requires
        is_literal_char(mode, c),
    ensures
        '\0' <= c <= '\u{7f}',
        (c as u8) as char == c,
{
}

/// Bytes that the encoder copies are their own encoding.
pub proof fn lemma_encoded_literals(mode: Encoding, bytes: Seq<u8>)
    requires
        forall|i: int| 0 <= i < bytes.len() ==> is_literal(mode, #[trigger] bytes[i]),
    ensures
        encoded(mode, bytes) == Seq::new(bytes.len(), |i: int| bytes[i] as char),
    decreases bytes.len(),
{
    if bytes.len() > 0 {
        let rest = bytes.drop_first();
        assert forall|i: int| 0 <= i < rest.len() implies is_literal(mode, #[trigger] rest[i]) by {
            assert(rest[i] == bytes[i + 1]);
        }
        lemma_encoded_literals(mode, rest);
    }
}

/// A text of characters that the encoder copies is its own encoding: a parameter
/// made of letters, digits and `-._` stands in the URL as it was given.
pub proof fn law_plain_text(mode: Encoding, text: Seq<char>)
    requires
        is_plain(mode, text),
    ensures
        encoded_text(mode, text) == text,
{
    let bytes = vstd::utf8::encode_utf8(text);
    assert(vstd::utf8::is_ascii_chars(text)) by {
        assert forall|i: int| 0 <= i < text.len() implies '\0' <= #[trigger] text[i]
            <= '\u{7f}' by {
            lemma_literal_char_is_ascii(mode, text[i]);
        }
    }
    vstd::utf8::is_ascii_chars_encode_utf8(text);
    assert forall|i: int| 0 <= i < bytes.len() implies is_literal(mode, #[trigger] bytes[i]) by {
        assert(bytes[i] == text[i] as u8);
    }
    lemma_encoded_literals(mode, bytes);
    assert forall|i: int| 0 <= i < text.len() implies (bytes[i] as char) == text[i] by {
        lemma_literal_char_is_ascii(mode, text[i]);
    }
}

/// The text that an encoded text stands for, or `None` where it stands for none.
pub open spec fn decoded_text(mode: Encoding, text: Seq<char>) -> Option<Seq<char>> {
    match decoded(mode, text) {
        Some(bytes) => if vstd::utf8::valid_utf8(bytes) {
            Some(vstd::utf8::decode_utf8(bytes))
        } else {
            None
        },
        None => None,
    }
}

/// Decoding gives back the text that was encoded.
pub proof fn law_decoded_text(mode: Encoding, text: Seq<char>)
    ensures
        decoded_text(mode, encoded_text(mode, text)) == Some(text),
{
    law_decoded_encoded(mode, vstd::utf8::encode_utf8(text));
    vstd::utf8::encode_utf8_valid_utf8(text);
    vstd::utf8::encode_utf8_decode_utf8(text);
}

/// `String::push`: the text afterwards is the text before with `c` at its end.
#[verifier::external_body]
pub(crate) fn push_char(text: &mut String, c: char)
    ensures
        final(text)@ == old(text)@.push(c),
{
    text.push(c)
}

fn hex_char(n: u8) -> (c: char)
    requires
        n < 16,
    ensures
        c == hex_digit(n),
{
    if n < 10 {
        (0x30 + n) as char
    } else {
        (0x37 + n) as char
    }
}

fn copies(mode: Encoding, b: u8) -> (r: bool)
    ensures
        r == is_literal(mode, b),
{
    (0x30 <= b && b <= 0x39) || (0x41 <= b && b <= 0x5A) || (0x61 <= b && b <= 0x7A) || b == 0x2D
        || b == 0x2E || b == 0x5F || match mode {
        Encoding::Component => b == 0x7E,
        Encoding::Form => b == 0x2A,
    }
}

/// Appends the encoding of `text` to `out`.
pub fn append_encoded(out: &mut String, mode: Encoding, text: &str)
    ensures
        final(out)@ == old(out)@ + encoded_text(mode, text@),
{
    let ghost before = out@;
    let bytes = text.as_bytes();
    let mut i: usize = 0;
    while i < bytes.len()
        invariant
            i <= bytes.len(),
            out@ == before + encoded(mode, bytes@.take(i as int)),
        decreases bytes.len() - i,
    {
        let b: u8 = bytes[i];
        proof {
            lemma_encoded_push(mode, bytes@.take(i as int), b);
            assert(bytes@.take(i as int).push(b) =~= bytes@.take(i + 1));
        }
        if copies(mode, b) {
            push_char(out, b as char);
        } else if mode == Encoding::Form && b == 0x20 {
            push_char(out, '+');
        } else {
            push_char(out, '%');
            push_char(out, hex_char(b / 16));
            push_char(out, hex_char(b % 16));
        }
        i += 1;
    }
    assert(bytes@.take(bytes.len() as int) =~= bytes@);
}

/// The encoding of `text`.
pub fn encode(mode: Encoding, text: &str) -> (out: String)
    ensures
        out@ == encoded_text(mode, text@),
{
    let mut out = String::new();
    append_encoded(&mut out, mode, text);
    out
}

} // verus!
