//! Percent decoding of `D`-line content, and its round trip with request
//! encoding.

use vstd::prelude::*;
use vstd::utf8::{
    char_u32_cast, decode_utf8, encode_scalar, encode_utf8, encode_utf8_decode_utf8,
    encode_utf8_valid_utf8, has_width_1_encoding, has_width_2_encoding, has_width_3_encoding,
    last_continuation_byte, leading_byte_width_1, leading_byte_width_2,
    leading_byte_width_3, leading_byte_width_4, second_last_continuation_byte,
    third_last_continuation_byte, valid_utf8,
};

use crate::encode::{
    escape_char, escaped, fix_trailing_backslash, lemma_escaped_snoc, spec_encoded_line,
};

verus! {

/// Whether a byte is an ASCII hexadecimal digit, in either case.
pub open spec fn is_hex_digit(b: u8) -> bool {
    (0x30 <= b && b <= 0x39) || (0x41 <= b && b <= 0x46) || (0x61 <= b && b <= 0x66)
}

/// The numeric value of an ASCII hexadecimal digit.
pub open spec fn hex_value(b: u8) -> int
    recommends
        is_hex_digit(b),
{
    if 0x30 <= b && b <= 0x39 {
        b - 0x30
    } else if 0x41 <= b && b <= 0x46 {
        b - 0x41 + 10
    } else {
        b - 0x61 + 10
    }
}

/// Percent decoding over bytes: each `%` followed by two hexadecimal digits
/// becomes the byte those digits denote; every other byte, and a `%` not so
/// followed, passes through unchanged.
pub open spec fn percent_decoded(s: Seq<u8>) -> Seq<u8>
    decreases s.len(),
{
    if s.len() == 0 {
        Seq::empty()
    } else if s[0] == 0x25 && s.len() >= 3 && is_hex_digit(s[1]) && is_hex_digit(s[2]) {
        seq![(hex_value(s[1]) * 16 + hex_value(s[2])) as u8] + percent_decoded(s.skip(3))
    } else {
        seq![s[0]] + percent_decoded(s.skip(1))
    }
}

/// Relies on `percent_encoding::percent_decode`: replaces each `%` followed
/// by two hexadecimal digits (either case) with the byte they denote, and
/// passes every other byte — including a `%` not so followed — through
/// unchanged.
#[verifier::external_body]
fn percent_decode_bytes(s: &[u8]) -> (r: Vec<u8>)
    ensures
        r@ == percent_decoded(s@),
{
    percent_encoding::percent_decode(s).collect()
}

/// Relies on std's `String::from_utf8`: succeeds exactly on well-formed
/// UTF-8 input, returning the text those bytes encode.
#[verifier::external_body]
fn string_from_utf8(bytes: Vec<u8>) -> (r: Option<String>)
    ensures
        match r {
            Some(s) => valid_utf8(bytes@) && s@ == decode_utf8(bytes@),
            None => !valid_utf8(bytes@),
        },
{
    String::from_utf8(bytes).ok()
}

/// The bytes a data line's content decodes to.
pub open spec fn spec_data_bytes(line: Seq<char>) -> Seq<u8> {
    percent_decoded(encode_utf8(line))
}

/// Whether a data line's content decodes to well-formed text.
pub open spec fn data_decodes(line: Seq<char>) -> bool {
    valid_utf8(spec_data_bytes(line))
}

/// The text a data line's content decodes to.
pub open spec fn spec_decoded_data(line: Seq<char>) -> Seq<char> {
    decode_utf8(spec_data_bytes(line))
}

/// Decodes the content of one `D` line: percent decoding applied to the
/// content's bytes, which must again form well-formed text. Returns `None`
/// when they do not.
pub fn decode_data_line(line: &str) -> (r: Option<String>)
    ensures
        r is Some <==> data_decodes(line@),
        r matches Some(s) ==> s@ == spec_decoded_data(line@),
{
    let bytes = line.as_bytes();
    let decoded = percent_decode_bytes(bytes);
    string_from_utf8(decoded)
}

/// Encoding distributes over concatenation of character sequences.
pub proof fn lemma_encode_utf8_concat(a: Seq<char>, b: Seq<char>)
    ensures
        encode_utf8(a + b) == encode_utf8(a) + encode_utf8(b),
    decreases a.len(),
{
    if a.len() == 0 {
        assert(a + b =~= b);
        assert(encode_utf8(a) + encode_utf8(b) =~= encode_utf8(b));
    } else {
        assert((a + b)[0] == a[0]);
        assert((a + b).drop_first() =~= a.drop_first() + b);
        lemma_encode_utf8_concat(a.drop_first(), b);
        assert(encode_utf8(a + b) =~= encode_utf8(a) + encode_utf8(b));
    }
}

/// A single character encodes as its scalar's bytes alone.
proof fn lemma_encode_utf8_singleton(c: char)
    ensures
        encode_utf8(seq![c]) == encode_scalar(c as u32),
{
    reveal_with_fuel(encode_utf8, 2);
    assert(seq![c].drop_first() =~= Seq::<char>::empty());
    assert(encode_utf8(seq![c]) =~= encode_scalar(c as u32));
}

/// Three characters below `0x80` encode as their three scalar bytes.
proof fn lemma_encode_utf8_ascii_triple(a: char, b: char, c: char)
    requires
        (a as u32) < 0x80,
        (b as u32) < 0x80,
        (c as u32) < 0x80,
    ensures
        encode_utf8(seq![a, b, c]) == seq![a as u8, b as u8, c as u8],
{
    assert(seq![a, b, c] =~= seq![a] + (seq![b] + seq![c]));
    lemma_encode_utf8_concat(seq![a], seq![b] + seq![c]);
    lemma_encode_utf8_concat(seq![b], seq![c]);
    lemma_encode_utf8_singleton(a);
    lemma_encode_utf8_singleton(b);
    lemma_encode_utf8_singleton(c);
    lemma_ascii_scalar(a as u32);
    lemma_ascii_scalar(b as u32);
    lemma_ascii_scalar(c as u32);
    assert(encode_utf8(seq![a, b, c]) =~= seq![a as u8, b as u8, c as u8]);
}

/// A scalar below `0x80` encodes as the single byte of the same value.
proof fn lemma_ascii_scalar(v: u32)
    requires
        v < 0x80,
    ensures
        encode_scalar(v) == seq![v as u8],
{
    assert((v & 0x7F) as u8 == v as u8) by (bit_vector)
        requires
            v < 0x80,
    ;
}

/// A byte other than the percent sign passes through percent decoding
/// untouched, whatever follows it.
proof fn lemma_decode_peel_byte(b: u8, t: Seq<u8>)
    requires
        b != 0x25,
    ensures
        percent_decoded(seq![b] + t) == seq![b] + percent_decoded(t),
{
    assert((seq![b] + t)[0] == b);
    assert((seq![b] + t).skip(1) =~= t);
}

/// A percent sign followed by two hexadecimal digits decodes to the byte
/// those digits denote, whatever follows it.
proof fn lemma_decode_peel_escape(x: u8, y: u8, t: Seq<u8>)
    requires
        is_hex_digit(x),
        is_hex_digit(y),
    ensures
        percent_decoded(seq![0x25u8, x, y] + t) == seq![(hex_value(x) * 16 + hex_value(y)) as u8]
            + percent_decoded(t),
{
    let s = seq![0x25u8, x, y] + t;
    assert(s[0] == 0x25 && s[1] == x && s[2] == y);
    assert(s.skip(3) =~= t);
}

/// The encoding of a character other than the percent sign contains no
/// percent-sign byte, so it passes through percent decoding untouched.
proof fn lemma_decode_passthrough_char(c: char, t: Seq<u8>)
    requires
        c != '%',
    ensures
        percent_decoded(encode_scalar(c as u32) + t) == encode_scalar(c as u32)
            + percent_decoded(t),
{
    let v = c as u32;
    char_u32_cast(c, v);
    assert(v != 0x25) by {
        if v == 0x25 {
            char_u32_cast('%', 0x25);
        }
    }
    if has_width_1_encoding(v) {
        let b0 = leading_byte_width_1(v);
        assert(b0 != 0x25) by (bit_vector)
            requires
                b0 == (v & 0x7F) as u8,
                v < 0x80,
                v != 0x25,
        ;
        assert(encode_scalar(v) =~= seq![b0]);
        lemma_decode_peel_byte(b0, t);
    } else {
        let b1 = last_continuation_byte(v);
        assert(b1 >= 0x80) by (bit_vector)
            requires
                b1 == 0x80 | (v & 0x3F) as u8,
        ;
        let b2 = second_last_continuation_byte(v);
        assert(b2 >= 0x80) by (bit_vector)
            requires
                b2 == 0x80 | ((v >> 6) & 0x3F) as u8,
        ;
        let b3 = third_last_continuation_byte(v);
        assert(b3 >= 0x80) by (bit_vector)
            requires
                b3 == 0x80 | ((v >> 12) & 0x3F) as u8,
        ;
        if has_width_2_encoding(v) {
            let l = leading_byte_width_2(v);
            assert(l >= 0x80) by (bit_vector)
                requires
                    l == 0xC0 | ((v >> 6) & 0x1F) as u8,
            ;
            assert(encode_scalar(v) =~= seq![l] + (seq![b1] + t).take(1));
            assert(encode_scalar(v) + t =~= seq![l] + (seq![b1] + t));
            lemma_decode_peel_byte(l, seq![b1] + t);
            lemma_decode_peel_byte(b1, t);
            assert(percent_decoded(encode_scalar(v) + t) =~= encode_scalar(v) + percent_decoded(
                t,
            ));
        } else if has_width_3_encoding(v) {
            let l = leading_byte_width_3(v);
            assert(l >= 0x80) by (bit_vector)
                requires
                    l == 0xE0 | ((v >> 12) & 0x0F) as u8,
            ;
            assert(encode_scalar(v) + t =~= seq![l] + (seq![b2] + (seq![b1] + t)));
            lemma_decode_peel_byte(l, seq![b2] + (seq![b1] + t));
            lemma_decode_peel_byte(b2, seq![b1] + t);
            lemma_decode_peel_byte(b1, t);
            assert(percent_decoded(encode_scalar(v) + t) =~= encode_scalar(v) + percent_decoded(
                t,
            ));
        } else {
            let l = leading_byte_width_4(v);
            assert(l >= 0x80) by (bit_vector)
                requires
                    l == 0xF0 | ((v >> 18) & 0x7) as u8,
            ;
            assert(encode_scalar(v) + t =~= seq![l] + (seq![b3] + (seq![b2] + (seq![b1] + t))));
            lemma_decode_peel_byte(l, seq![b3] + (seq![b2] + (seq![b1] + t)));
            lemma_decode_peel_byte(b3, seq![b2] + (seq![b1] + t));
            lemma_decode_peel_byte(b2, seq![b1] + t);
            lemma_decode_peel_byte(b1, t);
            assert(percent_decoded(encode_scalar(v) + t) =~= encode_scalar(v) + percent_decoded(
                t,
            ));
        }
    }
}

/// The wire form of one character decodes back to that character's bytes,
/// whatever follows it.
proof fn lemma_decode_escape_char(c: char, t: Seq<u8>)
    ensures
        percent_decoded(encode_utf8(escape_char(c)) + t) == encode_scalar(c as u32)
            + percent_decoded(t),
{
    if c == '\n' {
        lemma_escape_triple_decodes(c, '0', 'A', t);
    } else if c == '\r' {
        lemma_escape_triple_decodes(c, '0', 'D', t);
    } else if c == '%' {
        lemma_escape_triple_decodes(c, '2', '5', t);
    } else {
        assert(escape_char(c) =~= seq![c]);
        lemma_encode_utf8_singleton(c);
        lemma_decode_passthrough_char(c, t);
    }
}

/// The three characters of one percent escape decode to the escaped
/// character's single byte.
proof fn lemma_escape_triple_decodes(c: char, x: char, y: char, t: Seq<u8>)
    requires
        escape_char(c) == seq!['%', x, y],
        is_hex_digit(x as u8),
        is_hex_digit(y as u8),
        (x as u32) < 0x80,
        (y as u32) < 0x80,
        (c as u32) < 0x80,
        hex_value(x as u8) * 16 + hex_value(y as u8) == c as u32,
    ensures
        percent_decoded(encode_utf8(escape_char(c)) + t) == encode_scalar(c as u32)
            + percent_decoded(t),
{
    let e = escape_char(c);
    lemma_encode_utf8_ascii_triple('%', x, y);
    assert(encode_utf8(e) =~= seq![0x25u8, x as u8, y as u8]);
    lemma_decode_peel_escape(x as u8, y as u8, t);
    lemma_ascii_scalar(c as u32);
    assert(seq![(hex_value(x as u8) * 16 + hex_value(y as u8)) as u8] =~= encode_scalar(
        c as u32,
    ));
}

/// The wire form of a parameter string decodes back to that string's bytes,
/// whatever follows it.
proof fn lemma_decode_escaped(p: Seq<char>, t: Seq<u8>)
    ensures
        percent_decoded(encode_utf8(escaped(p)) + t) == encode_utf8(p) + percent_decoded(t),
    decreases p.len(),
{
    if p.len() == 0 {
        assert(encode_utf8(escaped(p)) + t =~= t);
        assert(encode_utf8(p) + percent_decoded(t) =~= percent_decoded(t));
    } else {
        let c = p[0];
        let rest = p.drop_first();
        lemma_encode_utf8_concat(escape_char(c), escaped(rest));
        assert(encode_utf8(escaped(p)) + t =~= encode_utf8(escape_char(c)) + (encode_utf8(
            escaped(rest),
        ) + t));
        lemma_decode_escape_char(c, encode_utf8(escaped(rest)) + t);
        lemma_decode_escaped(rest, t);
        assert(percent_decoded(encode_utf8(escaped(p)) + t) =~= encode_utf8(p) + percent_decoded(
            t,
        ));
    }
}

/// Round trip: the escaped form of any parameter text, with its trailing
/// backslash fixed as the encoder emits it, decodes back to exactly that
/// text when run through the decoding applied to `D` lines.
pub proof fn lemma_encode_decode_round_trip(command: Seq<char>, p: Seq<char>)
    ensures
        spec_encoded_line(command, Some(p)) == command + seq![' '] + fix_trailing_backslash(
            escaped(p),
        ) + seq!['\n'],
        data_decodes(fix_trailing_backslash(escaped(p))),
        spec_decoded_data(fix_trailing_backslash(escaped(p))) == p,
{
    assert(spec_encoded_line(command, Some(p)) == command + seq![' '] + fix_trailing_backslash(
        escaped(p),
    ) + seq!['\n']) by {
        let body = command + seq![' '] + escaped(p);
        if escaped(p).len() > 0 {
            assert(body.last() == escaped(p).last());
            if body.last() == '\\' {
                assert(body.drop_last() =~= command + seq![' '] + escaped(p).drop_last());
                assert(fix_trailing_backslash(body).push('\n') =~= command + seq![' ']
                    + fix_trailing_backslash(escaped(p)) + seq!['\n']);
            } else {
                assert(fix_trailing_backslash(body).push('\n') =~= command + seq![' ']
                    + fix_trailing_backslash(escaped(p)) + seq!['\n']);
            }
        } else {
            assert(body.last() == ' ');
            assert(fix_trailing_backslash(body).push('\n') =~= command + seq![' ']
                + fix_trailing_backslash(escaped(p)) + seq!['\n']);
        }
    }
    let e = escaped(p);
    assert(spec_data_bytes(fix_trailing_backslash(e)) == encode_utf8(p)) by {
        if e.len() > 0 && e.last() == '\\' {
            lemma_escaped_last(p);
            let q = p.drop_last();
            assert(p =~= q.push('\\'));
            lemma_escaped_snoc(q, '\\');
            assert(escape_char('\\') =~= seq!['\\']);
            assert(e.drop_last() =~= escaped(q));
            let fixed = fix_trailing_backslash(e);
            assert(fixed =~= escaped(q) + seq!['%', '5', 'C']);
            lemma_encode_utf8_concat(escaped(q), seq!['%', '5', 'C']);
            lemma_encode_utf8_ascii_triple('%', '5', 'C');
            assert(encode_utf8(seq!['%', '5', 'C']) =~= seq![0x25u8, 0x35u8, 0x43u8]);
            lemma_decode_escaped(q, seq![0x25u8, 0x35u8, 0x43u8]);
            lemma_decode_peel_escape(0x35u8, 0x43u8, Seq::<u8>::empty());
            assert(seq![0x25u8, 0x35u8, 0x43u8] + Seq::<u8>::empty() =~= seq![
                0x25u8,
                0x35u8,
                0x43u8,
            ]);
            assert(percent_decoded(seq![0x25u8, 0x35u8, 0x43u8]) =~= seq![0x5Cu8]);
            lemma_ascii_scalar('\\' as u32);
            lemma_encode_utf8_concat(q, seq!['\\']);
            lemma_encode_utf8_singleton('\\');
            assert(encode_utf8(seq!['\\']) =~= seq![0x5Cu8]);
            assert(q + seq!['\\'] =~= p);
            assert(encode_utf8(p) =~= encode_utf8(q) + seq![0x5Cu8]);
            assert(percent_decoded(encode_utf8(fixed)) =~= encode_utf8(q) + seq![0x5Cu8]);
            assert(percent_decoded(encode_utf8(fixed)) =~= encode_utf8(p));
        } else {
            assert(fix_trailing_backslash(e) == e);
            lemma_decode_escaped(p, Seq::<u8>::empty());
            assert(encode_utf8(e) + Seq::<u8>::empty() =~= encode_utf8(e));
            assert(percent_decoded(encode_utf8(e)) =~= encode_utf8(p));
        }
    }
    encode_utf8_valid_utf8(p);
    encode_utf8_decode_utf8(p);
}

/// The escaped form of a parameter ends in a backslash exactly when the
/// parameter itself does: no escape's wire form ends in one.
proof fn lemma_escaped_last(p: Seq<char>)
    requires
        escaped(p).len() > 0,
        escaped(p).last() == '\\',
    ensures
        p.len() > 0,
        p.last() == '\\',
        escaped(p).drop_last() == escaped(p.drop_last()),
{
    assert(p.len() > 0);
    let q = p.drop_last();
    let c = p.last();
    assert(p =~= q.push(c));
    lemma_escaped_snoc(q, c);
    assert(escape_char(c).len() > 0);
    assert(escaped(p).last() == escape_char(c).last());
    if c == '\n' || c == '\r' || c == '%' {
        assert(escape_char(c).last() != '\\');
    } else {
        assert(escape_char(c) =~= seq![c]);
    }
    assert(escaped(p).drop_last() =~= escaped(q) + escape_char(c).drop_last());
    if c == '\\' {
        assert(escape_char(c) =~= seq![c]);
        assert(escape_char(c).drop_last() =~= Seq::<char>::empty());
        assert(escaped(p).drop_last() =~= escaped(q));
    }
}

} // verus!
