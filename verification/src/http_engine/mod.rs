//! The HTTP side of the server: reading a request head, checking its
//! headers, and writing the head of a response.
use vstd::prelude::*;
use vstd::string::StringExecFns;
use vstd::string::StringSliceAdditionalSpecFns;
use vstd::utf8::{decode_utf8, encode_scalar, encode_utf8, encode_utf8_decode_utf8, valid_utf8, encode_utf8_valid_utf8};
use crate::text::{
    str_eq, eq_ignore_ascii_case, eq_ignore_ascii_case_spec, bytes_eq, parse_usize_bytes,
    spec_parse_usize_bytes, append_str, u64_to_text, decimal, lemma_decimal_digits, lemma_parse_decimal_roundtrip,
};

verus! {

/// The header that a request must have.
pub const CONTENT_TYPE_RAW: &'static str = "Content-Type";
/// The content type that a request must have.
pub const APPLICATION_JSON_RAW: &'static str = "application/json";
/// The longest request head that the server reads, in bytes.
pub const HEAD_LIMIT: usize = 8192;

/// Errors of the HTTP server.
#[derive(Debug, Clone, Copy, PartialEq, Eq, Structural)]
pub enum HttpServerErrors {
    IncorrectContentTypeHeader,
}

/// A header of a request: its name and its value's bytes.
#[derive(Debug)]
pub struct Header {
    pub name: String,
    pub value: Vec<u8>,
}

impl View for Header {
    type V = (Seq<char>, Seq<u8>);

    open spec fn view(&self) -> (Seq<char>, Seq<u8>) {
        (self.name@, self.value@)
    }
}

/// The models of a list of headers.
pub open spec fn headers_view(h: Seq<Header>) -> Seq<(Seq<char>, Seq<u8>)> {
    h.map_values(|x: Header| x@)
}

/// The bytes that end a request head.
pub open spec fn head_end() -> Seq<u8> {
    seq![13u8, 10u8, 13u8, 10u8]
}

/// The head read so far ends with an empty line.
pub open spec fn ends_head(content: Seq<u8>) -> bool {
    content.len() >= 4 && content.subrange(content.len() - 4, content.len() as int) == head_end()
}

/// More of the head is to be read: it has not ended and is under the limit.
pub open spec fn head_incomplete_spec(content: Seq<u8>) -> bool {
    !ends_head(content) && content.len() < HEAD_LIMIT
}

/// Whether the server reads one more byte of the request head.
pub fn head_incomplete(content: &Vec<u8>) -> (r: bool)
    ensures
        r == head_incomplete_spec(content@),
{
    let n = content.len();
    let ends = n >= 4 && content[n - 4] == 13 && content[n - 3] == 10 && content[n - 2] == 13
        && content[n - 1] == 10;
    proof {
        if n >= 4 {
            if ends {
                assert(content@.subrange(n - 4, n as int) =~= head_end());
            } else {
                assert(content@.subrange(n - 4, n as int) != head_end()) by {
                    let t = content@.subrange(n - 4, n as int);
                    if t == head_end() {
                        assert(t[0] == 13 && t[1] == 10 && t[2] == 13 && t[3] == 10);
                    }
                }
            }
        }
    }
    !ends && n < HEAD_LIMIT
}

/// The head is read until it ends with an empty line (`\r\n\r\n`) or
/// reaches 8192 bytes: a head that ends so, or that long, is complete; a
/// shorter one whose last byte is no line feed is read on.
#[verifier::spinoff_prover]
#[verifier::rlimit(60)]
pub proof fn law_head_reading(prefix: Seq<u8>, content: Seq<u8>)
    ensures
        !head_incomplete_spec(prefix + seq![13u8, 10u8, 13u8, 10u8]),
        content.len() >= 8192 ==> !head_incomplete_spec(content),
        (content.len() < 8192 && (content.len() == 0 || content.last() != 10u8)) ==> head_incomplete_spec(content),
{
    let c = prefix + seq![13u8, 10u8, 13u8, 10u8];
    assert(c.subrange(c.len() - 4, c.len() as int) =~= head_end());
    if content.len() >= 4 && content.last() != 10u8 {
        let t = content.subrange(content.len() - 4, content.len() as int);
        assert(t[3] == content.last());
    }
}

/// Adds one byte read from the connection to the head: the byte is taken
/// as the character of that code (Latin-1) and kept in UTF-8, so a byte
/// from 0x80 on becomes two bytes.
pub fn push_head_byte(content: &mut Vec<u8>, b: u8)
    ensures
        final(content)@ == old(content)@ + encode_scalar(b as u32),
{
    if b < 128 {
        content.push(b);
        assert((b as u32 & 0x7F) as u8 == b) by (bit_vector)
            requires
                b < 128,
        ;
        assert(old(content)@ + encode_scalar(b as u32) =~= old(content)@.push(b));
    } else {
        let first = 0xC0u8 | (b >> 6u8);
        let second = 0x80u8 | (b & 0x3Fu8);
        content.push(first);
        content.push(second);
        assert(0xC0u8 | ((b as u32 >> 6) & 0x1F) as u8 == 0xC0u8 | (b >> 6u8)) by (bit_vector);
        assert(0x80u8 | (b as u32 & 0x3F) as u8 == 0x80u8 | (b & 0x3Fu8)) by (bit_vector);
        assert(old(content)@ + encode_scalar(b as u32) =~= old(content)@.push(first).push(second));
    }
}

/// The head that the bytes `read` give when pushed one by one on an empty
/// head.
pub open spec fn head_of(read: Seq<u8>) -> Seq<u8>
    decreases read.len(),
{
    if read.len() == 0 {
        Seq::empty()
    } else {
        head_of(read.drop_last()) + encode_scalar(read.last() as u32)
    }
}

/// The text of the bytes read, each byte taken as the character of that
/// code.
pub open spec fn latin1_text(read: Seq<u8>) -> Seq<char> {
    read.map_values(|b: u8| b as char)
}

proof fn lemma_encode_utf8_push(s: Seq<char>, c: char)
    ensures
        encode_utf8(s.push(c)) == encode_utf8(s) + encode_scalar(c as u32),
    decreases s.len(),
{
    if s.len() == 0 {
        assert(s.push(c).drop_first() =~= Seq::<char>::empty());
        assert(encode_utf8(s.push(c)) =~= encode_scalar(c as u32) + encode_utf8(Seq::<char>::empty()));
        assert(encode_utf8(s.push(c)) =~= encode_utf8(s) + encode_scalar(c as u32));
    } else {
        lemma_encode_utf8_push(s.drop_first(), c);
        assert(s.push(c).drop_first() =~= s.drop_first().push(c));
        assert(encode_utf8(s.push(c)) =~= encode_utf8(s) + encode_scalar(c as u32));
    }
}

/// The head read from a connection is the UTF-8 text of the bytes read,
/// each byte taken as one character: it is valid UTF-8 and decodes to
/// exactly those characters.
#[verifier::spinoff_prover]
#[verifier::rlimit(60)]
pub proof fn law_head_is_text_of_bytes_read(read: Seq<u8>)
    ensures
        head_of(read) == encode_utf8(latin1_text(read)),
        valid_utf8(head_of(read)),
        decode_utf8(head_of(read)) == latin1_text(read),
    decreases read.len(),
{
    if read.len() > 0 {
        law_head_is_text_of_bytes_read(read.drop_last());
        let b = read.last();
        assert(latin1_text(read) =~= latin1_text(read.drop_last()).push(b as char));
        lemma_encode_utf8_push(latin1_text(read.drop_last()), b as char);
        assert((b as char) as u32 == b as u32);
    } else {
        assert(latin1_text(read) =~= Seq::<char>::empty());
    }
    encode_utf8_valid_utf8(latin1_text(read));
    encode_utf8_decode_utf8(latin1_text(read));
}

/// Pushing a byte on the head of the bytes read so far gives the head of
/// the bytes read with that byte: `push_head_byte` keeps the head as
/// `head_of` describes it.
#[verifier::spinoff_prover]
#[verifier::rlimit(60)]
pub proof fn law_push_extends_head(read: Seq<u8>, b: u8)
    ensures
        head_of(read.push(b)) == head_of(read) + encode_scalar(b as u32),
{
    assert(read.push(b).drop_last() =~= read);
}

/// Some header is named exactly `Content-Type` and its value is exactly
/// the bytes of `application/json`.
pub open spec fn has_json_content_type(headers: Seq<(Seq<char>, Seq<u8>)>) -> bool {
    exists|i: int|
        0 <= i < headers.len() && (#[trigger] headers[i]).0 == CONTENT_TYPE_RAW@
            && headers[i].1 == APPLICATION_JSON_RAW.spec_bytes()
}

/// Whether the request says that its body is JSON.
pub fn check_content_type_headers(headers: &Vec<Header>) -> (r: bool)
    ensures
        r == has_json_content_type(headers_view(headers@)),
{
    let ghost hv = headers_view(headers@);
    let json = APPLICATION_JSON_RAW.as_bytes();
    let mut i: usize = 0;
    while i < headers.len()
        invariant
            i <= headers.len(),
            hv == headers_view(headers@),
            json@ == APPLICATION_JSON_RAW.spec_bytes(),
            forall|j: int| 0 <= j < i ==> !((#[trigger] hv[j]).0 == CONTENT_TYPE_RAW@
                && hv[j].1 == APPLICATION_JSON_RAW.spec_bytes()),
        decreases headers.len() - i,
    {
        let header = &headers[i];
        if str_eq(header.name.as_str(), CONTENT_TYPE_RAW) && bytes_eq(header.value.as_slice(), json) {
            assert(hv[i as int] == header@);
            return true;
        }
        assert(hv[i as int] == header@);
        i = i + 1;
    }
    false
}

/// The index of the first header named `content-length` in any case.
pub open spec fn is_first_content_length(headers: Seq<(Seq<char>, Seq<u8>)>, i: int) -> bool {
    &&& 0 <= i < headers.len()
    &&& eq_ignore_ascii_case_spec(headers[i].0, "content-length"@)
    &&& forall|j: int| 0 <= j < i ==> !eq_ignore_ascii_case_spec(#[trigger] headers[j].0, "content-length"@)
}

/// The length of the body: the number in the first `content-length`
/// header (in any case), or 0 when there is none or it is no number.
pub open spec fn content_length_spec(headers: Seq<(Seq<char>, Seq<u8>)>) -> usize {
    if exists|i: int| is_first_content_length(headers, i) {
        let i = choose|i: int| is_first_content_length(headers, i);
        match spec_parse_usize_bytes(headers[i].1) {
            Some(n) => n,
            None => 0,
        }
    } else {
        0
    }
}

/// The length of the request's body.
pub fn content_length(headers: &Vec<Header>) -> (r: usize)
    ensures
        r == content_length_spec(headers_view(headers@)),
{
    let ghost hv = headers_view(headers@);
    let mut i: usize = 0;
    while i < headers.len()
        invariant
            i <= headers.len(),
            hv == headers_view(headers@),
            forall|j: int| 0 <= j < i ==> !eq_ignore_ascii_case_spec(#[trigger] hv[j].0, "content-length"@),
        decreases headers.len() - i,
    {
        let header = &headers[i];
        assert(hv[i as int] == header@);
        if eq_ignore_ascii_case(header.name.as_str(), "content-length") {
            assert(is_first_content_length(hv, i as int));
            proof {
                let k = choose|k: int| is_first_content_length(hv, k);
                if k < i {
                    assert(!eq_ignore_ascii_case_spec(hv[k].0, "content-length"@));
                } else if k > i {
                    assert(!eq_ignore_ascii_case_spec(hv[i as int].0, "content-length"@));
                }
                assert(k == i);
            }
            return match parse_usize_bytes(header.value.as_slice()) {
                Some(n) => n,
                None => 0,
            };
        }
        i = i + 1;
    }
    assert(!exists|k: int| is_first_content_length(hv, k)) by {
        if exists|k: int| is_first_content_length(hv, k) {
            let k = choose|k: int| is_first_content_length(hv, k);
            assert(!eq_ignore_ascii_case_spec(hv[k].0, "content-length"@));
        }
    }
    0
}

/// The number of headers that a request head may have.
pub const HEADER_SLOTS: usize = 64;

/// The headers of a complete request head in `buf`, as
/// `httparse::Request::parse` reads it with room for `slots` headers (name,
/// and value's bytes, in order); `None` when the head is incomplete,
/// malformed or has more than `slots` headers.
pub uninterp spec fn parsed_request_headers(buf: Seq<u8>, slots: usize) -> Option<Seq<(Seq<char>, Seq<u8>)>>;

/// Calls `httparse::Request::parse` on `buf` with `slots` header slots and,
/// when it reports a complete head, hands out the parsed headers. The
/// contract claims that the result is the one named
/// `parsed_request_headers` for these bytes and slots, and that a complete
/// head has no more headers than slots (`httparse` refuses one with more).
#[verifier::external_body]
fn parse_request_head(buf: &[u8], slots: usize) -> (r: Option<Vec<Header>>)
    ensures
        match r {
            Some(h) => parsed_request_headers(buf@, slots) == Some(headers_view(h@)) && h@.len() <= slots,
            None => parsed_request_headers(buf@, slots) is None,
        },
{
    let mut headers = vec![httparse::EMPTY_HEADER; slots];
    let mut req = httparse::Request::new(&mut headers);
    match req.parse(buf) {
        Ok(httparse::Status::Complete(_)) => Some(
            req.headers.iter().map(|h| Header { name: h.name.to_string(), value: h.value.to_vec() }).collect(),
        ),
        _ => None,
    }
}

/// What the server does once the request head is read.
#[derive(Debug, Clone, Copy, PartialEq, Eq, Structural)]
pub enum HeadDecision {
    /// The head is incomplete or malformed: the request is dropped quietly.
    Drop,
    /// The request is refused with this error.
    Refuse(HttpServerErrors),
    /// Read a body of this many bytes.
    ReadBody(usize),
}

/// The decision for a head whose parsed headers are `headers`.
pub open spec fn head_decision(headers: Option<Seq<(Seq<char>, Seq<u8>)>>) -> HeadDecision {
    match headers {
        None => HeadDecision::Drop,
        Some(h) => if !has_json_content_type(h) {
            HeadDecision::Refuse(HttpServerErrors::IncorrectContentTypeHeader)
        } else {
            HeadDecision::ReadBody(content_length_spec(h))
        },
    }
}

/// Decides on a parsed head: a request that does not say that its body is
/// JSON is refused, else its body is read.
pub fn decide_head(headers: Option<Vec<Header>>) -> (r: HeadDecision)
    ensures
        r == head_decision(match headers {
            Some(h) => Some(headers_view(h@)),
            None => None,
        }),
{
    match headers {
        None => HeadDecision::Drop,
        Some(h) => {
            if !check_content_type_headers(&h) {
                HeadDecision::Refuse(HttpServerErrors::IncorrectContentTypeHeader)
            } else {
                HeadDecision::ReadBody(content_length(&h))
            }
        }
    }
}

/// Parses the request head read so far, with room for `HEADER_SLOTS`
/// headers, and decides on it.
pub fn process_head(content: &Vec<u8>) -> (r: HeadDecision)
    ensures
        r == head_decision(parsed_request_headers(content@, HEADER_SLOTS)),
{
    let headers = parse_request_head(content.as_slice(), HEADER_SLOTS);
    decide_head(headers)
}

/// The bytes of an ASCII text.
pub open spec fn ascii_bytes(s: Seq<char>) -> Seq<u8> {
    s.map_values(|c: char| c as u8)
}

/// The names that a request head must carry, as texts and bytes.
proof fn lemma_json_type_bytes()
    ensures
        ascii_bytes("application/json"@) == APPLICATION_JSON_RAW.spec_bytes(),
        CONTENT_TYPE_RAW@ == "Content-Type"@,
{
    reveal_strlit("application/json");
    let chars = "application/json"@;
    assert(vstd::utf8::is_ascii_chars(chars));
    vstd::utf8::is_ascii_chars_encode_utf8(chars);
    assert(ascii_bytes(chars) =~= encode_utf8(chars));
}

/// The ASCII bytes of a number's decimal text read back as the number.
proof fn lemma_length_bytes(n: usize)
    ensures
        spec_parse_usize_bytes(ascii_bytes(decimal(n as nat))) == Some(n),
{
    let d = decimal(n as nat);
    lemma_decimal_digits(n as nat);
    lemma_parse_decimal_roundtrip(n);
    let b = ascii_bytes(d);
    assert forall|i: int| 0 <= i < b.len() implies #[trigger] b[i] < 128 by {
        assert(crate::text::is_digit_char(d[i]));
    }
    assert forall|i: int| 0 <= i < d.len() implies #[trigger] crate::text::ascii_chars(b)[i] == d[i] by {
        assert(crate::text::is_digit_char(d[i]));
    }
    assert(crate::text::ascii_chars(b) =~= d);
}

/// A head that says its body is JSON (`Content-Type: application/json`)
/// has its body read, of the length in its first `Content-Length` header
/// (the name in any case), whatever headers follow, or of length 0 when it
/// has no such header; a head with no header `Content-Type` whose value is
/// `application/json` is refused; an incomplete or malformed head is
/// dropped.
#[verifier::spinoff_prover]
#[verifier::rlimit(60)]
pub proof fn law_head_decision(
    n: usize,
    length_name: Seq<char>,
    rest: Seq<(Seq<char>, Seq<u8>)>,
    others: Seq<(Seq<char>, Seq<u8>)>,
)
    requires
        eq_ignore_ascii_case_spec(length_name, "content-length"@),
    ensures
        head_decision(Some(seq![("Content-Type"@, ascii_bytes("application/json"@)), (length_name, ascii_bytes(decimal(n as nat)))] + rest))
            == HeadDecision::ReadBody(n),
        (forall|i: int| 0 <= i < rest.len() ==> !eq_ignore_ascii_case_spec(#[trigger] rest[i].0, "content-length"@))
            ==> head_decision(Some(seq![("Content-Type"@, ascii_bytes("application/json"@))] + rest)) == HeadDecision::ReadBody(0),
        (forall|i: int| 0 <= i < others.len() && (#[trigger] others[i]).0 == "Content-Type"@
            ==> others[i].1 != ascii_bytes("application/json"@))
            ==> head_decision(Some(others)) == HeadDecision::Refuse(HttpServerErrors::IncorrectContentTypeHeader),
        head_decision(None) == HeadDecision::Drop,
{
    lemma_json_type_bytes();
    reveal_strlit("Content-Type");
    reveal_strlit("content-length");
    let ct = ("Content-Type"@, ascii_bytes("application/json"@));
    assert(!eq_ignore_ascii_case_spec("Content-Type"@, "content-length"@));
    let h = seq![ct, (length_name, ascii_bytes(decimal(n as nat)))] + rest;
    assert(h[0] == ct);
    assert(has_json_content_type(h));
    assert(is_first_content_length(h, 1));
    let k = choose|k: int| is_first_content_length(h, k);
    assert(k == 1) by {
        if k == 0 {
        } else if k > 1 {
            assert(!eq_ignore_ascii_case_spec(h[1].0, "content-length"@));
        }
    }
    lemma_length_bytes(n);
    let g = seq![ct] + rest;
    assert(g[0] == ct);
    assert(has_json_content_type(g));
    if forall|i: int| 0 <= i < rest.len() ==> !eq_ignore_ascii_case_spec(#[trigger] rest[i].0, "content-length"@) {
        assert(!exists|k: int| is_first_content_length(g, k)) by {
            if exists|k: int| is_first_content_length(g, k) {
                let k = choose|k: int| is_first_content_length(g, k);
                if k > 0 {
                    assert(g[k] == rest[k - 1]);
                }
            }
        }
    }
}

/// The reason phrase of a status code, as `http::StatusCode::from_u16`
/// followed by `canonical_reason` gives it.
pub uninterp spec fn status_reason(code: u16) -> Option<Seq<char>>;

/// Calls `http::StatusCode::from_u16(code)` and, for a valid code, its
/// `canonical_reason`. The contract claims that the result is the one named
/// `status_reason` for the code, and that for 200 it is `OK` (the `http`
/// crate's table of reasons lists `(200, OK, "OK")`).
#[verifier::external_body]
fn canonical_reason(code: u16) -> (r: Option<String>)
    ensures
        opt_text_view(r) == status_reason(code),
        code == 200 ==> opt_text_view(r) == Some("OK"@),
{
    http::StatusCode::from_u16(code).ok().and_then(|s| s.canonical_reason()).map(|s| s.to_string())
}

/// The name under which `http` keeps a header, as
/// `http::HeaderName::from_bytes` followed by `as_str` gives it; `None`
/// when it is no valid header name.
pub uninterp spec fn header_name_spec(name: Seq<char>) -> Option<Seq<char>>;

/// Calls `http::HeaderName::from_bytes` on the name's bytes and hands out
/// `as_str` of the result. The contract claims that the result is the one
/// named `header_name_spec` for the name, and that `Content-Type` is kept
/// as `content-type` (a standard header, which `http` writes in lower case).
#[verifier::external_body]
fn header_name(name: &str) -> (r: Option<String>)
    ensures
        opt_text_view(r) == header_name_spec(name@),
        name@ == CONTENT_TYPE_RAW@ ==> opt_text_view(r) == Some("content-type"@),
{
    http::HeaderName::from_bytes(name.as_bytes()).ok().map(|n| n.as_str().to_string())
}

/// A byte that `http::HeaderValue::from_str` takes: a tab, or a byte from
/// 32 on other than 127.
pub open spec fn header_value_byte(b: u8) -> bool {
    (b >= 32 && b != 127) || b == 9
}

/// A byte that `HeaderValue::to_str` gives back as text: a tab, or a
/// visible ASCII byte (32 to 126).
pub open spec fn visible_ascii_byte(b: u8) -> bool {
    (b >= 32 && b < 127) || b == 9
}

/// What `http` makes of a header value: `None` when
/// `HeaderValue::from_str` refuses it (some byte is not a tab and is below
/// 32 or is 127); else `Some` of what `to_str` gives: the text itself when
/// every byte is a tab or visible ASCII, `None` otherwise.
pub open spec fn header_value_spec(value: Seq<char>) -> Option<Option<Seq<char>>> {
    let bytes = encode_utf8(value);
    if forall|i: int| 0 <= i < bytes.len() ==> header_value_byte(#[trigger] bytes[i]) {
        if forall|i: int| 0 <= i < bytes.len() ==> visible_ascii_byte(#[trigger] bytes[i]) {
            Some(Some(value))
        } else {
            Some(None)
        }
    } else {
        None
    }
}

/// Calls `http::HeaderValue::from_str` and then `to_str`. The contract
/// claims what the `http` source shows: `from_str` takes the value exactly
/// when each of its bytes is a tab or from 32 on other than 127, and
/// `to_str` gives the same text back exactly when each byte is a tab or
/// visible ASCII.
#[verifier::external_body]
fn header_value(value: &str) -> (r: Option<Option<String>>)
    ensures
        opt_opt_text_view(r) == header_value_spec(value@),
{
    http::HeaderValue::from_str(value).ok().map(|v| v.to_str().ok().map(|s| s.to_string()))
}

/// The model of an optional optional text.
pub open spec fn opt_opt_text_view(o: Option<Option<String>>) -> Option<Option<Seq<char>>> {
    match o {
        Some(i) => Some(opt_text_view(i)),
        None => None,
    }
}

/// The model of an optional text.
pub open spec fn opt_text_view(o: Option<String>) -> Option<Seq<char>> {
    match o {
        Some(s) => Some(s@),
        None => None,
    }
}

/// The head of the server's answer: status line `HTTP/1.1 <code> <reason>`
/// (`Unknown` when the code has no reason), the one header that says the
/// body is JSON, as `http` keeps it, and an empty line. `None` when `http`
/// refuses the header.
pub open spec fn json_response_head_spec() -> Option<Seq<char>> {
    match (header_name_spec(CONTENT_TYPE_RAW@), header_value_spec(APPLICATION_JSON_RAW@)) {
        (Some(name), Some(value)) => Some(
            "HTTP/1.1 "@ + decimal(200) + " "@ + (match status_reason(200) {
                Some(r) => r,
                None => "Unknown"@,
            }) + "\r\n"@ + name + ": "@ + (match value {
                Some(v) => v,
                None => ""@,
            }) + "\r\n"@ + "\r\n"@,
        ),
        _ => None,
    }
}

proof fn lemma_json_type_is_visible()
    ensures
        header_value_spec(APPLICATION_JSON_RAW@) == Some(Some(APPLICATION_JSON_RAW@)),
{
    reveal_strlit("application/json");
    let chars = APPLICATION_JSON_RAW@;
    assert(vstd::utf8::is_ascii_chars(chars));
    vstd::utf8::is_ascii_chars_encode_utf8(chars);
    let bytes = encode_utf8(chars);
    assert forall|i: int| 0 <= i < bytes.len() implies visible_ascii_byte(#[trigger] bytes[i]) by {
        assert(bytes[i] == chars[i] as u8);
    }
    assert forall|i: int| 0 <= i < bytes.len() implies header_value_byte(#[trigger] bytes[i]) by {
        assert(bytes[i] == chars[i] as u8);
    }
}

/// The head of the answer to a request, before its JSON body.
pub fn json_response_head() -> (r: Option<String>)
    ensures
        opt_text_view(r) == json_response_head_spec(),
        opt_text_view(r) == Some("HTTP/1.1 200 OK\r\ncontent-type: application/json\r\n\r\n"@),
{
    let name = match header_name(CONTENT_TYPE_RAW) {
        Some(n) => n,
        None => {
            return None;
        }
    };
    proof {
        lemma_json_type_is_visible();
    }
    let value = match header_value(APPLICATION_JSON_RAW) {
        Some(v) => v,
        None => {
            return None;
        }
    };
    let mut head = String::from_str("HTTP/1.1 ");
    let code = u64_to_text(200);
    append_str(&mut head, code.as_str());
    append_str(&mut head, " ");
    match canonical_reason(200) {
        Some(reason) => append_str(&mut head, reason.as_str()),
        None => append_str(&mut head, "Unknown"),
    }
    append_str(&mut head, "\r\n");
    append_str(&mut head, name.as_str());
    append_str(&mut head, ": ");
    match &value {
        Some(v) => append_str(&mut head, v.as_str()),
        None => append_str(&mut head, ""),
    }
    append_str(&mut head, "\r\n");
    append_str(&mut head, "\r\n");
    proof {
        reveal_with_fuel(decimal, 3);
        reveal_strlit("HTTP/1.1 200 OK\r\ncontent-type: application/json\r\n\r\n");
        reveal_strlit("HTTP/1.1 ");
        reveal_strlit(" ");
        reveal_strlit("OK");
        reveal_strlit("\r\n");
        reveal_strlit("content-type");
        reveal_strlit(": ");
        reveal_strlit("application/json");
        assert(head@ =~= "HTTP/1.1 200 OK\r\ncontent-type: application/json\r\n\r\n"@);
    }
    Some(head)
}

} // verus!
