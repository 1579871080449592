//! The response line grammar: one input line is classified into one of six
//! response shapes, matched in a fixed order, or rejected.

use vstd::prelude::*;
use vstd::string::{StrSliceExecFns, StringExecFns};

use crate::decimal::{digit_value, is_digit_char, spec_digits_value};

verus! {

/// Possible response lines from an Assuan server.
#[derive(Debug)]
pub enum Response {
    /// Request was successful (an `OK` line).
    Success(Option<String>),
    /// Request could not be fulfilled (an `ERR` line). The possible error
    /// codes are defined by `libgpg-error`.
    Failure {
        /// The low sixteen bits of the status code.
        code: u16,
        /// Free text after the code, if any.
        description: Option<String>,
    },
    /// Informational output by the server, which is still processing the
    /// request.
    Information {
        /// The first whitespace-delimited token.
        keyword: String,
        /// The remainder of the line, if any.
        status: Option<String>,
    },
    /// Comment line issued only for debugging purposes.
    Comment(String),
    /// Raw data returned to the client, still percent-encoded and treated
    /// as secret-bearing.
    DataLine(String),
    /// The server needs further information from the client.
    Inquire {
        /// The first whitespace-delimited token.
        keyword: String,
        /// The remainder of the line, if any.
        parameters: Option<String>,
    },
}

/// The mathematical form of one classified response line.
pub enum SpecResponse {
    /// Request was successful.
    Success { info: Option<Seq<char>> },
    /// Request could not be fulfilled.
    Failure { code: u16, description: Option<Seq<char>> },
    /// Informational output by the server.
    Information { keyword: Seq<char>, status: Option<Seq<char>> },
    /// Comment line.
    Comment { text: Seq<char> },
    /// Raw, still percent-encoded data.
    DataLine { data: Seq<char> },
    /// The server needs further information.
    Inquire { keyword: Seq<char>, parameters: Option<Seq<char>> },
}

impl DeepView for Response {
    type V = SpecResponse;

    open spec fn deep_view(&self) -> SpecResponse {
        match self {
            Response::Success(info) => SpecResponse::Success { info: info.deep_view() },
            Response::Failure { code, description } => SpecResponse::Failure {
                code: *code,
                description: description.deep_view(),
            },
            Response::Information { keyword, status } => SpecResponse::Information {
                keyword: keyword.deep_view(),
                status: status.deep_view(),
            },
            Response::Comment(text) => SpecResponse::Comment { text: text.deep_view() },
            Response::DataLine(data) => SpecResponse::DataLine { data: data.deep_view() },
            Response::Inquire { keyword, parameters } => SpecResponse::Inquire {
                keyword: keyword.deep_view(),
                parameters: parameters.deep_view(),
            },
        }
    }
}

/// Whether a character ends a line's content.
pub open spec fn is_break_char(c: char) -> bool {
    c == '\r' || c == '\n'
}

/// The number of leading characters of `s` satisfying `p`.
pub open spec fn run_len(s: Seq<char>, p: spec_fn(char) -> bool) -> int
    decreases s.len(),
{
    if s.len() == 0 {
        0
    } else if !p(s[0]) {
        0
    } else {
        1 + run_len(s.drop_first(), p)
    }
}

/// Content characters: anything but a line break.
pub open spec fn text_char_pred() -> spec_fn(char) -> bool {
    |c: char| !is_break_char(c)
}

/// Token characters: anything but a space or a line break.
pub open spec fn token_char_pred() -> spec_fn(char) -> bool {
    |c: char| c != ' ' && !is_break_char(c)
}

/// Decimal digit characters.
pub open spec fn digit_char_pred() -> spec_fn(char) -> bool {
    |c: char| is_digit_char(c)
}

/// A run is as long as the position of the first character that breaks it.
proof fn lemma_run_len_position(s: Seq<char>, p: spec_fn(char) -> bool, k: int)
    requires
        0 <= k <= s.len(),
        forall|j: int| 0 <= j < k ==> p(s[j]),
        k < s.len() ==> !p(s[k]),
    ensures
        run_len(s, p) == k,
    decreases k,
{
    if k == 0 {
    } else {
        assert(p(s[0]));
        let t = s.drop_first();
        assert forall|j: int| 0 <= j < k - 1 implies p(t[j]) by {
            assert(t[j] == s[j + 1]);
        }
        assert(k - 1 < t.len() ==> !p(t[k - 1]));
        lemma_run_len_position(t, p, k - 1);
    }
}

/// Where the content run starting at `from` ends.
pub open spec fn spec_text_end(s: Seq<char>, from: int) -> int {
    from + run_len(s.skip(from), text_char_pred())
}

/// Where the token run starting at `from` ends.
pub open spec fn spec_token_end(s: Seq<char>, from: int) -> int {
    from + run_len(s.skip(from), token_char_pred())
}

/// Where the digit run starting at `from` ends.
pub open spec fn spec_digits_end(s: Seq<char>, from: int) -> int {
    from + run_len(s.skip(from), digit_char_pred())
}

/// Whether a line terminator stands at position `i`: a line feed, optionally
/// preceded by a carriage return.
pub open spec fn line_ending_at(s: Seq<char>, i: int) -> bool {
    (i < s.len() && s[i] == '\n') || (i + 1 < s.len() && s[i] == '\r' && s[i + 1] == '\n')
}

/// Finds the end of the content run starting at `from`.
fn scan_text_end(s: &str, len: usize, from: usize) -> (e: usize)
    requires
        len == s@.len(),
        from <= len,
    ensures
        from <= e <= len,
        e == spec_text_end(s@, from as int),
        forall|j: int| from <= j < e ==> !is_break_char(s@[j]),
        e < len ==> is_break_char(s@[e as int]),
{
    let mut i = from;
    loop
        invariant
            len == s@.len(),
            from <= i <= len,
            forall|j: int| from <= j < i ==> !is_break_char(s@[j]),
        ensures
            i <= len,
            i == len || is_break_char(s@[i as int]),
        decreases len - i,
    {
        if i == len {
            break ;
        }
        let c = s.get_char(i);
        if c == '\r' || c == '\n' {
            break ;
        }
        i = i + 1;
    }
    proof {
        let t = s@.skip(from as int);
        let p = text_char_pred();
        assert forall|j: int| 0 <= j < i - from implies p(t[j]) by {
            assert(t[j] == s@[from + j]);
        }
        assert(i - from < t.len() ==> !p(t[i - from])) by {
            if i < len {
                assert(t[i - from] == s@[i as int]);
            }
        }
        lemma_run_len_position(t, p, i - from);
    }
    i
}

/// Finds the end of the token run starting at `from`.
fn scan_token_end(s: &str, len: usize, from: usize) -> (e: usize)
    requires
        len == s@.len(),
        from <= len,
    ensures
        from <= e <= len,
        e == spec_token_end(s@, from as int),
{
    let mut i = from;
    loop
        invariant
            len == s@.len(),
            from <= i <= len,
            forall|j: int| from <= j < i ==> s@[j] != ' ' && !is_break_char(s@[j]),
        ensures
            i <= len,
            i == len || s@[i as int] == ' ' || is_break_char(s@[i as int]),
        decreases len - i,
    {
        if i == len {
            break ;
        }
        let c = s.get_char(i);
        if c == ' ' || c == '\r' || c == '\n' {
            break ;
        }
        i = i + 1;
    }
    proof {
        let t = s@.skip(from as int);
        let p = token_char_pred();
        assert forall|j: int| 0 <= j < i - from implies p(t[j]) by {
            assert(t[j] == s@[from + j]);
        }
        assert(i - from < t.len() ==> !p(t[i - from])) by {
            if i < len {
                assert(t[i - from] == s@[i as int]);
            }
        }
        lemma_run_len_position(t, p, i - from);
    }
    i
}

/// Finds the end of the digit run starting at `from`.
fn scan_digits_end(s: &str, len: usize, from: usize) -> (e: usize)
    requires
        len == s@.len(),
        from <= len,
    ensures
        from <= e <= len,
        e == spec_digits_end(s@, from as int),
        forall|j: int| from <= j < e ==> is_digit_char(s@[j]),
{
    let mut i = from;
    loop
        invariant
            len == s@.len(),
            from <= i <= len,
            forall|j: int| from <= j < i ==> is_digit_char(s@[j]),
        ensures
            i <= len,
            i == len || !is_digit_char(s@[i as int]),
        decreases len - i,
    {
        if i == len {
            break ;
        }
        let c = s.get_char(i);
        if c < '0' || c > '9' {
            break ;
        }
        i = i + 1;
    }
    proof {
        let t = s@.skip(from as int);
        let p = digit_char_pred();
        assert forall|j: int| 0 <= j < i - from implies p(t[j]) by {
            assert(t[j] == s@[from + j]);
        }
        assert(i - from < t.len() ==> !p(t[i - from])) by {
            if i < len {
                assert(t[i - from] == s@[i as int]);
            }
        }
        lemma_run_len_position(t, p, i - from);
    }
    i
}

/// Whether a line terminator stands at position `i`.
fn line_ending(s: &str, len: usize, i: usize) -> (r: bool)
    requires
        len == s@.len(),
        i <= len,
    ensures
        r == line_ending_at(s@, i as int),
{
    if i < len && s.get_char(i) == '\n' {
        true
    } else if len - i >= 2 && s.get_char(i) == '\r' && s.get_char(i + 1) == '\n' {
        true
    } else {
        false
    }
}

/// The optional tail shared by several shapes: either a line terminator at
/// `i`, or a space at `i` followed by non-empty content and the terminator.
/// Yields the content, or the outer `None` on a protocol violation.
pub open spec fn spec_opt_rest(s: Seq<char>, i: int) -> Option<Option<Seq<char>>> {
    if line_ending_at(s, i) {
        Some(None)
    } else if i < s.len() && s[i] == ' ' {
        let e = spec_text_end(s, i + 1);
        if e > i + 1 && line_ending_at(s, e) {
            Some(Some(s.subrange(i + 1, e)))
        } else {
            None
        }
    } else {
        None
    }
}

/// Mandatory non-empty content at `i`, then the line terminator.
pub open spec fn spec_text_rest(s: Seq<char>, i: int) -> Option<Seq<char>> {
    let e = spec_text_end(s, i);
    if e > i && line_ending_at(s, e) {
        Some(s.subrange(i, e))
    } else {
        None
    }
}

/// A non-empty whitespace-delimited keyword at `i`, then the optional tail.
pub open spec fn spec_keyword_rest(s: Seq<char>, i: int) -> Option<
    (Seq<char>, Option<Seq<char>>),
> {
    let k = spec_token_end(s, i);
    if k > i {
        match spec_opt_rest(s, k) {
            Some(tail) => Some((s.subrange(i, k), tail)),
            None => None,
        }
    } else {
        None
    }
}

/// A non-empty run of decimal digits at `i` denoting a value that fits an
/// unsigned 32-bit number, truncated to its low sixteen bits, then the
/// optional description tail.
pub open spec fn spec_err_rest(s: Seq<char>, i: int) -> Option<(u16, Option<Seq<char>>)> {
    let d = spec_digits_end(s, i);
    if d > i {
        let v = spec_digits_value(s.subrange(i, d));
        if v <= 0xFFFF_FFFF {
            match spec_opt_rest(s, d) {
                Some(tail) => Some(((v % 0x10000) as u16, tail)),
                None => None,
            }
        } else {
            None
        }
    } else {
        None
    }
}

/// Whether the line opens with `OK`.
pub open spec fn prefix_ok(s: Seq<char>) -> bool {
    s.len() >= 2 && s[0] == 'O' && s[1] == 'K'
}

/// Whether the line opens with `ERR `.
pub open spec fn prefix_err(s: Seq<char>) -> bool {
    s.len() >= 4 && s[0] == 'E' && s[1] == 'R' && s[2] == 'R' && s[3] == ' '
}

/// Whether the line opens with `S `.
pub open spec fn prefix_information(s: Seq<char>) -> bool {
    s.len() >= 2 && s[0] == 'S' && s[1] == ' '
}

/// Whether the line opens with `# `.
pub open spec fn prefix_comment(s: Seq<char>) -> bool {
    s.len() >= 2 && s[0] == '#' && s[1] == ' '
}

/// Whether the line opens with `D `.
pub open spec fn prefix_data(s: Seq<char>) -> bool {
    s.len() >= 2 && s[0] == 'D' && s[1] == ' '
}

/// Whether the line opens with `INQUIRE `.
pub open spec fn prefix_inquire(s: Seq<char>) -> bool {
    s.len() >= 8 && s[0] == 'I' && s[1] == 'N' && s[2] == 'Q' && s[3] == 'U' && s[4] == 'I'
        && s[5] == 'R' && s[6] == 'E' && s[7] == ' '
}

/// The classification of one input line, with the alternatives tried in a
/// fixed order — `OK` before any other shape that could open with the same
/// letter — and the matched content required to sit directly before the
/// line terminator. Input past the terminator is ignored: the reader hands
/// in one line at a time, so there is none.
pub open spec fn spec_parse(s: Seq<char>) -> Option<SpecResponse> {
    if prefix_ok(s) {
        match spec_opt_rest(s, 2) {
            Some(info) => Some(SpecResponse::Success { info }),
            None => None,
        }
    } else if prefix_err(s) {
        match spec_err_rest(s, 4) {
            Some((code, description)) => Some(SpecResponse::Failure { code, description }),
            None => None,
        }
    } else if prefix_information(s) {
        match spec_keyword_rest(s, 2) {
            Some((keyword, status)) => Some(SpecResponse::Information { keyword, status }),
            None => None,
        }
    } else if prefix_comment(s) {
        match spec_text_rest(s, 2) {
            Some(text) => Some(SpecResponse::Comment { text }),
            None => None,
        }
    } else if prefix_data(s) {
        match spec_text_rest(s, 2) {
            Some(data) => Some(SpecResponse::DataLine { data }),
            None => None,
        }
    } else if prefix_inquire(s) {
        match spec_keyword_rest(s, 8) {
            Some((keyword, parameters)) => Some(SpecResponse::Inquire { keyword, parameters }),
            None => None,
        }
    } else {
        None
    }
}

/// Copies the characters between two positions into an owned string.
fn extract(s: &str, from: usize, to: usize) -> (r: String)
    requires
        from <= to <= s@.len(),
    ensures
        r@ == s@.subrange(from as int, to as int),
{
    String::from_str(s.substring_char(from, to))
}

/// Parses the optional tail shared by several shapes.
fn opt_rest(s: &str, len: usize, i: usize) -> (r: Option<Option<String>>)
    requires
        len == s@.len(),
        i <= len,
    ensures
        r.deep_view() == spec_opt_rest(s@, i as int),
{
    if line_ending(s, len, i) {
        Some(None)
    } else if i < len && s.get_char(i) == ' ' {
        let e = scan_text_end(s, len, i + 1);
        if e > i + 1 && line_ending(s, len, e) {
            Some(Some(extract(s, i + 1, e)))
        } else {
            None
        }
    } else {
        None
    }
}

/// Parses mandatory non-empty content before the terminator.
fn text_rest(s: &str, len: usize, i: usize) -> (r: Option<String>)
    requires
        len == s@.len(),
        i <= len,
    ensures
        r.deep_view() == spec_text_rest(s@, i as int),
{
    let e = scan_text_end(s, len, i);
    if e > i && line_ending(s, len, e) {
        Some(extract(s, i, e))
    } else {
        None
    }
}

/// Parses a keyword and the optional tail after it.
fn keyword_rest(s: &str, len: usize, i: usize) -> (r: Option<(String, Option<String>)>)
    requires
        len == s@.len(),
        i <= len,
    ensures
        r.deep_view() == spec_keyword_rest(s@, i as int),
{
    let k = scan_token_end(s, len, i);
    if k > i {
        match opt_rest(s, len, k) {
            Some(tail) => Some((extract(s, i, k), tail)),
            None => None,
        }
    } else {
        None
    }
}

/// The value a digit sequence denotes never shrinks when digits follow.
proof fn lemma_digits_value_bounds(t: Seq<char>, k: int)
    requires
        0 <= k <= t.len(),
        forall|j: int| 0 <= j < t.len() ==> is_digit_char(t[j]),
    ensures
        spec_digits_value(t) >= spec_digits_value(t.take(k)),
        spec_digits_value(t.take(k)) >= 0,
    decreases t.len(),
{
    if t.len() == 0 {
        assert(t.take(k) =~= t);
    } else if k == t.len() {
        assert(t.take(k) =~= t);
        lemma_digits_value_bounds(t.drop_last(), t.len() - 1);
        assert(t.drop_last().take(t.len() - 1) =~= t.drop_last());
        assert(spec_digits_value(t) == spec_digits_value(t.drop_last()) * 10 + digit_value(
            t.last(),
        ));
        assert(digit_value(t.last()) >= 0);
    } else {
        let u = t.drop_last();
        assert(u.take(k) =~= t.take(k));
        lemma_digits_value_bounds(u, k);
        assert(spec_digits_value(t) == spec_digits_value(u) * 10 + digit_value(t.last()));
        assert(u.take(u.len() as int) =~= u);
        lemma_digits_value_bounds(u, u.len() as int);
        assert(digit_value(t.last()) >= 0);
    }
}

/// Reads the digit run as a number, refusing one that does not fit an
/// unsigned 32-bit value, and truncates it to its low sixteen bits.
fn parse_code(s: &str, len: usize, from: usize, to: usize) -> (r: Option<u16>)
    requires
        len == s@.len(),
        from <= to <= len,
        forall|j: int| from <= j < to ==> is_digit_char(s@[j]),
    ensures
        ({
            let v = spec_digits_value(s@.subrange(from as int, to as int));
            match r {
                Some(code) => v <= 0xFFFF_FFFF && code == (v % 0x10000) as u16,
                None => v > 0xFFFF_FFFF,
            }
        }),
{
    let ghost digits = s@.subrange(from as int, to as int);
    proof {
        assert(digits.take(0) =~= Seq::<char>::empty());
    }
    let mut val: u64 = 0;
    let mut i = from;
    while i < to
        invariant
            len == s@.len(),
            from <= i <= to <= len,
            forall|j: int| from <= j < to ==> is_digit_char(s@[j]),
            digits == s@.subrange(from as int, to as int),
            val == spec_digits_value(digits.take(i - from)),
            val <= 0xFFFF_FFFF,
        decreases to - i,
    {
        let c = s.get_char(i);
        proof {
            assert(digits[i - from] == s@[i as int]);
            assert(is_digit_char(c));
        }
        let d = (c as u32) - 0x30;
        let nv = val * 10 + (d as u64);
        proof {
            assert(digits.take(i - from + 1).drop_last() =~= digits.take(i - from));
            assert(digits.take(i - from + 1).last() == digits[i - from]);
            assert(spec_digits_value(digits.take(i - from + 1)) == spec_digits_value(
                digits.take(i - from),
            ) * 10 + digit_value(digits[i - from]));
            assert(digit_value(digits[i - from]) == d);
        }
        if nv > 0xFFFF_FFFF {
            proof {
                assert forall|j: int| 0 <= j < digits.len() implies is_digit_char(
                    digits[j],
                ) by {
                    assert(digits[j] == s@[from + j]);
                }
                lemma_digits_value_bounds(digits, i - from + 1);
            }
            return None;
        }
        val = nv;
        i = i + 1;
    }
    proof {
        assert(digits.take(to - from) =~= digits);
    }
    Some((val % 0x10000) as u16)
}

/// Classifies one line of server output into a [`Response`], or `None` for
/// a line that matches no shape of the grammar.
pub fn server_response(line: &str) -> (r: Option<Response>)
    ensures
        r.deep_view() == spec_parse(line@),
{
    let len = line.unicode_len();
    if len >= 2 && line.get_char(0) == 'O' && line.get_char(1) == 'K' {
        match opt_rest(line, len, 2) {
            Some(info) => Some(Response::Success(info)),
            None => None,
        }
    } else if len >= 4 && line.get_char(0) == 'E' && line.get_char(1) == 'R' && line.get_char(2)
        == 'R' && line.get_char(3) == ' ' {
        let d = scan_digits_end(line, len, 4);
        if d > 4 {
            match parse_code(line, len, 4, d) {
                Some(code) => match opt_rest(line, len, d) {
                    Some(description) => Some(Response::Failure { code, description }),
                    None => None,
                },
                None => None,
            }
        } else {
            None
        }
    } else if len >= 2 && line.get_char(0) == 'S' && line.get_char(1) == ' ' {
        match keyword_rest(line, len, 2) {
            Some((keyword, status)) => Some(Response::Information { keyword, status }),
            None => None,
        }
    } else if len >= 2 && line.get_char(0) == '#' && line.get_char(1) == ' ' {
        match text_rest(line, len, 2) {
            Some(text) => Some(Response::Comment(text)),
            None => None,
        }
    } else if len >= 2 && line.get_char(0) == 'D' && line.get_char(1) == ' ' {
        match text_rest(line, len, 2) {
            Some(data) => Some(Response::DataLine(data)),
            None => None,
        }
    } else if len >= 8 && line.get_char(0) == 'I' && line.get_char(1) == 'N' && line.get_char(2)
        == 'Q' && line.get_char(3) == 'U' && line.get_char(4) == 'I' && line.get_char(5) == 'R'
        && line.get_char(6) == 'E' && line.get_char(7) == ' ' {
        match keyword_rest(line, len, 8) {
            Some((keyword, parameters)) => Some(Response::Inquire { keyword, parameters }),
            None => None,
        }
    } else {
        None
    }
}

} // verus!
