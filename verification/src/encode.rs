//! Request encoding: one command and optional parameter text become a
//! single percent-escaped, line-feed-terminated wire line.

use vstd::prelude::*;
use vstd::string::{StrSliceExecFns, StringExecFns};
use vstd::utf8::encode_utf8;

verus! {

/// A request line, terminator included, may not exceed this many bytes;
/// splitting long lines over several wire lines is unsupported.
pub const MAX_LINE_BYTES: usize = 1000;

/// The wire form of one parameter character: line feed, carriage return and
/// the percent sign itself are percent-escaped, everything else passes
/// through.
pub open spec fn escape_char(c: char) -> Seq<char> {
    if c == '\n' {
        seq!['%', '0', 'A']
    } else if c == '\r' {
        seq!['%', '0', 'D']
    } else if c == '%' {
        seq!['%', '2', '5']
    } else {
        seq![c]
    }
}

/// The wire form of a whole parameter string.
pub open spec fn escaped(p: Seq<char>) -> Seq<char>
    decreases p.len(),
{
    if p.len() == 0 {
        Seq::empty()
    } else {
        escape_char(p[0]) + escaped(p.drop_first())
    }
}

/// The line body: the command, then a space and the escaped parameters if
/// parameters were given.
pub open spec fn spec_request_body(command: Seq<char>, parameters: Option<Seq<char>>) -> Seq<
    char,
> {
    match parameters {
        Some(p) => command + seq![' '] + escaped(p),
        None => command,
    }
}

/// A bare backslash at the end of a line is a line-continuation marker in
/// the wire protocol, so a trailing backslash is itself percent-escaped.
pub open spec fn fix_trailing_backslash(body: Seq<char>) -> Seq<char> {
    if body.len() > 0 && body.last() == '\\' {
        body.drop_last() + seq!['%', '5', 'C']
    } else {
        body
    }
}

/// The full encoded request line, terminator included.
pub open spec fn spec_encoded_line(command: Seq<char>, parameters: Option<Seq<char>>) -> Seq<
    char,
> {
    fix_trailing_backslash(spec_request_body(command, parameters)).push('\n')
}

/// Appending one character to a parameter appends its wire form to the
/// escaped parameter.
pub proof fn lemma_escaped_snoc(p: Seq<char>, c: char)
    ensures
        escaped(p.push(c)) == escaped(p) + escape_char(c),
    decreases p.len(),
{
    if p.len() == 0 {
        assert(p.push(c)[0] == c);
        assert(p.push(c).drop_first() =~= Seq::<char>::empty());
        assert(escaped(p.push(c)) == escape_char(c) + escaped(Seq::<char>::empty()));
        assert(escape_char(c) + Seq::<char>::empty() =~= escape_char(c));
        assert(escaped(p) + escape_char(c) =~= escape_char(c));
    } else {
        assert(p.push(c)[0] == p[0]);
        assert(p.push(c).drop_first() =~= p.drop_first().push(c));
        lemma_escaped_snoc(p.drop_first(), c);
        assert(escaped(p.push(c)) =~= escape_char(p[0]) + (escaped(p.drop_first())
            + escape_char(c)));
        assert(escaped(p.push(c)) =~= escaped(p) + escape_char(c));
    }
}

/// Encodes a request, refusing one whose encoded line would exceed
/// [`MAX_LINE_BYTES`] bytes, rather than truncating or splitting it.
pub fn try_encode_request(command: &str, parameters: Option<&str>) -> (r: Option<String>)
    ensures
        match r {
            Some(s) => {
                &&& s@ == spec_encoded_line(command@, parameters.deep_view())
                &&& encode_utf8(s@).len() <= MAX_LINE_BYTES
            },
            None => encode_utf8(spec_encoded_line(command@, parameters.deep_view())).len()
                > MAX_LINE_BYTES,
        },
{
    let mut buf = String::from_str(command);
    match parameters {
        Some(p) => {
            buf.push(' ');
            let len = p.unicode_len();
            let mut i: usize = 0;
            proof {
                assert(p@.take(0) =~= Seq::<char>::empty());
                assert(buf@ =~= command@ + seq![' '] + escaped(p@.take(0)));
            }
            while i < len
                invariant
                    len == p@.len(),
                    i <= len,
                    buf@ == command@ + seq![' '] + escaped(p@.take(i as int)),
                decreases len - i,
            {
                let c = p.get_char(i);
                if c == '\n' {
                    buf.push('%');
                    buf.push('0');
                    buf.push('A');
                } else if c == '\r' {
                    buf.push('%');
                    buf.push('0');
                    buf.push('D');
                } else if c == '%' {
                    buf.push('%');
                    buf.push('2');
                    buf.push('5');
                } else {
                    buf.push(c);
                }
                proof {
                    lemma_escaped_snoc(p@.take(i as int), p@[i as int]);
                    assert(p@.take(i + 1) =~= p@.take(i as int).push(p@[i as int]));
                    assert(buf@ =~= command@ + seq![' '] + escaped(p@.take(i + 1)));
                }
                i = i + 1;
            }
            proof {
                assert(p@.take(len as int) =~= p@);
            }
        },
        None => {},
    }
    assert(buf@ =~= spec_request_body(command@, parameters.deep_view()));
    let body_chars = buf.as_str().unicode_len();
    if body_chars > 0 && buf.as_str().get_char(body_chars - 1) == '\\' {
        let kept = buf.as_str().substring_char(0, body_chars - 1);
        let mut fixed = String::from_str(kept);
        fixed.append("%5C");
        proof {
            assert(buf@.subrange(0, body_chars - 1) =~= buf@.drop_last());
            reveal_strlit("%5C");
            assert(fixed@ =~= fix_trailing_backslash(buf@));
        }
        buf = fixed;
    }
    buf.push('\n');
    assert(buf@ =~= spec_encoded_line(command@, parameters.deep_view()));
    if buf.as_str().as_bytes().len() <= MAX_LINE_BYTES {
        Some(buf)
    } else {
        None
    }
}

/// Encodes a command and optional parameter text as one wire line ending in
/// a line feed. The caller owes a line that fits [`MAX_LINE_BYTES`]; use
/// [`try_encode_request`] where that is not known beforehand.
pub fn encode_request(command: &str, parameters: Option<&str>) -> (r: String)
    requires
        encode_utf8(spec_encoded_line(command@, parameters.deep_view())).len() <= MAX_LINE_BYTES,
    ensures
        r@ == spec_encoded_line(command@, parameters.deep_view()),
{
    match try_encode_request(command, parameters) {
        Some(s) => s,
        None => vstd::pervasive::unreached(),
    }
}

} // verus!
