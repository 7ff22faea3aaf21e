//! Bounded HTTP/1.x request parsing.
//!
//! A request head is the request line `METHOD SP PATH SP HTTP/1.x CRLF`
//! followed by header lines `name: value CRLF` and a final empty line.
//! Parsing is minimal, as the workers need it: the method is classified,
//! the path kept verbatim, and of the headers only `Content-Length`
//! (matched case-insensitively, one to seven digits, at most once) is
//! read; other headers only need to be well-formed lines. The body is
//! the `Content-Length` bytes that follow the head, zero where the
//! header is absent.
//!
//! [`parse_request`] works on whatever prefix of the connection's bytes
//! has arrived so far: it answers `Incomplete` until the head's final
//! empty line and the whole body are in the buffer, and from then on its
//! answer is final.

use vstd::prelude::*;

use crate::bytes::{
    copy_range, digits_end, lemma_dec_val_bound, lemma_digits_before_end, lemma_digits_end_le_len,
    lemma_pow10_mono, matches_at, matches_at_exec, number_ok, number_val, ows_end, ows_end_exec,
    parse_number,
};
use vstd::string::StringSliceAdditionalSpecFns;

verus! {

/// The request methods the router distinguishes.
#[derive(Clone, Copy, Debug, PartialEq, Eq, Structural)]
pub enum Method {
    Get,
    Post,
    /// Any method other than `GET` and `POST`.
    Other,
}

/// Why a request head was rejected. Any of these closes the connection.
#[derive(Clone, Copy, Debug, PartialEq, Eq, Structural)]
pub enum HeadError {
    /// The request line is not `METHOD SP PATH SP …`.
    BadRequestLine,
    /// The version is not `HTTP/1.0` or `HTTP/1.1` ending in CRLF.
    BadVersion,
    /// A header line has no terminator, a bare CR or LF, or no name
    /// before its colon.
    BadHeader,
    /// A repeated `Content-Length`, or one that is not one to seven
    /// digits (with optional surrounding spaces or tabs).
    BadContentLength,
}

/// A parsed request head, in specification terms.
pub struct SpecHead {
    pub method: Method,
    pub path: Seq<u8>,
    pub http11: bool,
    pub content_length: int,
}

/// A parsed request head.
#[derive(Debug)]
pub struct RequestHead {
    pub method: Method,
    pub path: Vec<u8>,
    pub http11: bool,
    pub content_length: usize,
}

impl RequestHead {
    /// The head in specification terms.
    pub open spec fn view(&self) -> SpecHead {
        SpecHead {
            method: self.method,
            path: self.path@,
            http11: self.http11,
            content_length: self.content_length as int,
        }
    }
}

/// Whether `b` may appear inside a header line (anything but CR or LF).
pub open spec fn is_line_byte(b: u8) -> bool {
    b != 13 && b != 10
}

/// Whether `b` may appear inside a request-line token (anything but
/// space, CR or LF).
pub open spec fn is_tok_byte(b: u8) -> bool {
    b != ' ' as u8 && b != 13 && b != 10
}

/// Whether `b` may appear inside a header name (anything but the colon,
/// CR or LF).
pub open spec fn is_name_byte(b: u8) -> bool {
    b != ':' as u8 && b != 13 && b != 10
}

/// The first index at or after `i` holding CR or LF (or the end of `s`).
pub open spec fn line_end(s: Seq<u8>, i: int) -> int
    decreases s.len() - i,
{
    if 0 <= i < s.len() && is_line_byte(s[i]) {
        line_end(s, i + 1)
    } else {
        i
    }
}

/// The first index at or after `i` holding space, CR or LF (or the end
/// of `s`).
pub open spec fn tok_end(s: Seq<u8>, i: int) -> int
    decreases s.len() - i,
{
    if 0 <= i < s.len() && is_tok_byte(s[i]) {
        tok_end(s, i + 1)
    } else {
        i
    }
}

/// The first index at or after `i` holding a colon, CR or LF (or the
/// end of `s`).
pub open spec fn name_end(s: Seq<u8>, i: int) -> int
    decreases s.len() - i,
{
    if 0 <= i < s.len() && is_name_byte(s[i]) {
        name_end(s, i + 1)
    } else {
        i
    }
}

/// `b` with an ASCII capital letter folded to its small form.
pub open spec fn lower(b: u8) -> u8 {
    if 'A' as u8 <= b && b <= 'Z' as u8 {
        (b + 32) as u8
    } else {
        b
    }
}

/// Whether `a` and `b` are equal up to ASCII case.
pub open spec fn eq_ci(a: Seq<u8>, b: Seq<u8>) -> bool {
    a.len() == b.len() && forall|k: int| 0 <= k < a.len() ==> lower(a[k]) == lower(b[k])
}

/// The method denoted by the request line's first token.
pub open spec fn classify_method(tok: Seq<u8>) -> Method {
    if tok == "GET".spec_bytes() {
        Method::Get
    } else if tok == "POST".spec_bytes() {
        Method::Post
    } else {
        Method::Other
    }
}

/// The `Content-Length` gathered from the header lines occupying
/// `s[i..end)`, each line CRLF-terminated; `cl` is the value gathered so
/// far. Callers pass `end` at most `s.len()`.
pub open spec fn parse_headers_spec(s: Seq<u8>, i: int, end: int, cl: Option<int>) -> Result<
    Option<int>,
    HeadError,
>
    decreases end - i,
{
    if i >= end {
        Ok(cl)
    } else {
        let e = line_end(s, i);
        if !(e + 1 < end && s[e] == 13 && s[e + 1] == 10) {
            Err(HeadError::BadHeader)
        } else {
            let c = name_end(s, i);
            if !(i < c && c < e && s[c] == ':' as u8) {
                Err(HeadError::BadHeader)
            } else {
                let v0 = ows_end(s, c + 1);
                if eq_ci(s.subrange(i, c), "content-length".spec_bytes()) {
                    if cl is Some {
                        Err(HeadError::BadContentLength)
                    } else if !(number_ok(s, v0, 1, 7, true) && ows_end(s, digits_end(s, v0))
                        == e) {
                        Err(HeadError::BadContentLength)
                    } else {
                        parse_headers_spec(s, e + 2, end, Some(number_val(s, v0)))
                    }
                } else {
                    parse_headers_spec(s, e + 2, end, cl)
                }
            }
        }
    }
}

/// The head denoted by `s[0..end)`: the request line, then the header
/// lines. Callers pass `end` at most `s.len()`.
pub open spec fn parse_head_spec(s: Seq<u8>, end: int) -> Result<SpecHead, HeadError> {
    let m = tok_end(s, 0);
    if !(0 < m && m < end && s[m] == ' ' as u8) {
        Err(HeadError::BadRequestLine)
    } else {
        let p = tok_end(s, m + 1);
        if !(m + 1 < p && p < end && s[p] == ' ' as u8) {
            Err(HeadError::BadRequestLine)
        } else {
            let v11 = "HTTP/1.1\r\n".spec_bytes();
            let v10 = "HTTP/1.0\r\n".spec_bytes();
            let http11 = matches_at(s, p + 1, v11);
            if !((http11 || matches_at(s, p + 1, v10)) && v10.len() == v11.len() && p + 1
                + v11.len() <= end) {
                Err(HeadError::BadVersion)
            } else {
                match parse_headers_spec(s, p + 1 + v11.len(), end, None) {
                    Ok(cl) => Ok(
                        SpecHead {
                            method: classify_method(s.subrange(0, m)),
                            path: s.subrange(m + 1, p),
                            http11,
                            content_length: match cl {
                                Some(n) => n,
                                None => 0,
                            },
                        },
                    ),
                    Err(e) => Err(e),
                }
            }
        }
    }
}

/// Scan to the end of the current line's bytes.
fn line_end_exec(s: &[u8], i: usize) -> (j: usize)
    requires
        i <= s@.len(),
    ensures
        j == line_end(s@, i as int),
        i <= j <= s@.len(),
{
    let mut k: usize = i;
    while k < s.len() && s[k] != 13 && s[k] != 10
        invariant
            i <= k <= s@.len(),
            line_end(s@, i as int) == line_end(s@, k as int),
        decreases s@.len() - k,
    {
        assert(line_end(s@, k as int) == line_end(s@, k as int + 1));
        k = k + 1;
    }
    assert(line_end(s@, k as int) == k);
    k
}

/// Scan to the end of the request-line token starting at `i`.
fn tok_end_exec(s: &[u8], i: usize) -> (j: usize)
    requires
        i <= s@.len(),
    ensures
        j == tok_end(s@, i as int),
        i <= j <= s@.len(),
{
    let mut k: usize = i;
    while k < s.len() && s[k] != ' ' as u8 && s[k] != 13 && s[k] != 10
        invariant
            i <= k <= s@.len(),
            tok_end(s@, i as int) == tok_end(s@, k as int),
        decreases s@.len() - k,
    {
        assert(tok_end(s@, k as int) == tok_end(s@, k as int + 1));
        k = k + 1;
    }
    assert(tok_end(s@, k as int) == k);
    k
}

/// Scan to the colon ending the header name starting at `i`.
fn name_end_exec(s: &[u8], i: usize) -> (j: usize)
    requires
        i <= s@.len(),
    ensures
        j == name_end(s@, i as int),
        i <= j <= s@.len(),
{
    let mut k: usize = i;
    while k < s.len() && s[k] != ':' as u8 && s[k] != 13 && s[k] != 10
        invariant
            i <= k <= s@.len(),
            name_end(s@, i as int) == name_end(s@, k as int),
        decreases s@.len() - k,
    {
        assert(name_end(s@, k as int) == name_end(s@, k as int + 1));
        k = k + 1;
    }
    assert(name_end(s@, k as int) == k);
    k
}

/// `b` folded to small letters.
fn lower_exec(b: u8) -> (r: u8)
    ensures
        r == lower(b),
{
    if b >= 'A' as u8 && b <= 'Z' as u8 {
        b + 32
    } else {
        b
    }
}

/// Whether `s[i..j)` equals `lit` up to ASCII case.
fn eq_ci_exec(s: &[u8], i: usize, j: usize, lit: &[u8]) -> (r: bool)
    requires
        i <= j <= s@.len(),
    ensures
        r == eq_ci(s@.subrange(i as int, j as int), lit@),
{
    let ghost name = s@.subrange(i as int, j as int);
    if j - i != lit.len() {
        return false;
    }
    let mut k: usize = 0;
    while k < lit.len()
        invariant
            0 <= k <= lit@.len(),
            i + lit@.len() == j <= s@.len(),
            name == s@.subrange(i as int, j as int),
            forall|m: int| 0 <= m < k ==> lower(name[m]) == lower(#[trigger] lit@[m]),
        decreases lit@.len() - k,
    {
        if lower_exec(s[i + k]) != lower_exec(lit[k]) {
            assert(lower(name[k as int]) != lower(lit@[k as int]));
            return false;
        }
        k = k + 1;
    }
    true
}

/// The method denoted by `s[0..m)`.
fn classify_method_exec(s: &[u8], m: usize) -> (r: Method)
    requires
        m <= s@.len(),
    ensures
        r == classify_method(s@.subrange(0, m as int)),
{
    let ghost tok = s@.subrange(0, m as int);
    let g = "GET".as_bytes();
    if m == g.len() && matches_at_exec(s, 0, g) {
        assert(tok =~= "GET".spec_bytes());
        return Method::Get;
    }
    let p = "POST".as_bytes();
    if m == p.len() && matches_at_exec(s, 0, p) {
        assert(tok =~= "POST".spec_bytes());
        assert(tok != "GET".spec_bytes());
        return Method::Post;
    }
    assert(tok != "GET".spec_bytes());
    assert(tok != "POST".spec_bytes());
    Method::Other
}

/// A `Content-Length` of at most seven digits fits well below `u32`.
proof fn lemma_content_length_fits(s: Seq<u8>, i: int)
    requires
        0 <= i <= s.len(),
        number_ok(s, i, 1, 7, true),
    ensures
        0 <= number_val(s, i) <= 9999999,
{
    lemma_digits_end_le_len(s, i);
    let j = digits_end(s, i);
    let digits = s.subrange(i, j);
    assert forall|m: int| 0 <= m < digits.len() implies crate::bytes::is_digit(
        #[trigger] digits[m],
    ) by {
        lemma_digits_before_end(s, i, i + m);
    }
    lemma_dec_val_bound(digits);
    lemma_pow10_mono(digits.len(), 7);
    assert(crate::bytes::pow10(7) == 10000000) by {
        reveal_with_fuel(crate::bytes::pow10, 8);
    }
}

/// Parse the header lines occupying `s[i..end)`: the `Content-Length`
/// they carry, or the first error.
fn parse_headers(s: &[u8], i: usize, end: usize) -> (r: Result<Option<u32>, HeadError>)
    requires
        i <= end <= s@.len(),
    ensures
        match r {
            Ok(cl) => parse_headers_spec(s@, i as int, end as int, None) == Ok::<
                Option<int>,
                HeadError,
            >(
                match cl {
                    Some(v) => Some(v as int),
                    None => None,
                },
            ),
            Err(e) => parse_headers_spec(s@, i as int, end as int, None) == Err::<
                Option<int>,
                HeadError,
            >(e),
        },
{
    let mut k: usize = i;
    let mut cl: Option<u32> = None;
    loop
        invariant
            i <= k <= end <= s@.len(),
            parse_headers_spec(s@, i as int, end as int, None) == parse_headers_spec(
                s@,
                k as int,
                end as int,
                match cl {
                    Some(v) => Some(v as int),
                    None => None,
                },
            ),
        decreases end - k,
    {
        if k >= end {
            return Ok(cl);
        }
        let e = line_end_exec(s, k);
        if e >= end {
            return Err(HeadError::BadHeader);
        }
        if s[e] != 13 || e + 1 >= end || s[e + 1] != 10 {
            return Err(HeadError::BadHeader);
        }
        let c = name_end_exec(s, k);
        if !(k < c && c < e && s[c] == ':' as u8) {
            return Err(HeadError::BadHeader);
        }
        let v0 = ows_end_exec(s, c + 1);
        if eq_ci_exec(s, k, c, "content-length".as_bytes()) {
            if cl.is_some() {
                return Err(HeadError::BadContentLength);
            }
            match parse_number(s, v0, 1, 7, true, 9999999) {
                Some((v, ve)) => {
                    if ows_end_exec(s, ve) != e {
                        return Err(HeadError::BadContentLength);
                    }
                    cl = Some(v);
                },
                None => {
                    proof {
                        if number_ok(s@, v0 as int, 1, 7, true) {
                            lemma_content_length_fits(s@, v0 as int);
                        }
                    }
                    return Err(HeadError::BadContentLength);
                },
            }
        }
        k = e + 2;
    }
}

/// Parse the request head occupying `s[0..end)`.
pub fn parse_head(s: &[u8], end: usize) -> (r: Result<RequestHead, HeadError>)
    requires
        end <= s@.len(),
    ensures
        match r {
            Ok(h) => parse_head_spec(s@, end as int) == Ok::<SpecHead, HeadError>(h@),
            Err(e) => parse_head_spec(s@, end as int) == Err::<SpecHead, HeadError>(e),
        },
{
    let m = tok_end_exec(s, 0);
    if !(0 < m && m < end && s[m] == ' ' as u8) {
        return Err(HeadError::BadRequestLine);
    }
    let p = tok_end_exec(s, m + 1);
    if !(m + 1 < p && p < end && s[p] == ' ' as u8) {
        return Err(HeadError::BadRequestLine);
    }
    let v11 = "HTTP/1.1\r\n".as_bytes();
    let v10 = "HTTP/1.0\r\n".as_bytes();
    let http11 = matches_at_exec(s, p + 1, v11);
    if !http11 && !matches_at_exec(s, p + 1, v10) {
        return Err(HeadError::BadVersion);
    }
    if v10.len() != v11.len() {
        return Err(HeadError::BadVersion);
    }
    let h0 = p + 1 + v11.len();
    if h0 > end {
        return Err(HeadError::BadVersion);
    }
    match parse_headers(s, h0, end) {
        Ok(cl) => {
            let method = classify_method_exec(s, m);
            let path = copy_range(s, m + 1, p);
            let content_length: usize = match cl {
                Some(v) => v as usize,
                None => 0,
            };
            Ok(RequestHead { method, path, http11, content_length })
        },
        Err(e) => Err(e),
    }
}

/// The blank line that ends a request head: CR LF CR LF.
pub open spec fn head_terminator() -> Seq<u8> {
    seq![13u8, 10u8, 13u8, 10u8]
}

/// The first index at or after `i` where the head terminator starts, or
/// `-1` where it never does.
pub open spec fn head_end_at(s: Seq<u8>, i: int) -> int
    decreases s.len() - i,
{
    if i < 0 || i + head_terminator().len() > s.len() {
        -1
    } else if matches_at(s, i, head_terminator()) {
        i
    } else {
        head_end_at(s, i + 1)
    }
}

/// A complete request, with its head fields and its body.
#[derive(Debug)]
pub struct HttpRequest {
    pub method: Method,
    pub path: Vec<u8>,
    pub http11: bool,
    pub body: Vec<u8>,
}

/// A complete request, in specification terms.
pub struct SpecRequest {
    pub method: Method,
    pub path: Seq<u8>,
    pub http11: bool,
    pub body: Seq<u8>,
}

impl HttpRequest {
    /// The request in specification terms.
    pub open spec fn view(&self) -> SpecRequest {
        SpecRequest {
            method: self.method,
            path: self.path@,
            http11: self.http11,
            body: self.body@,
        }
    }
}

/// What a buffer of received bytes holds so far.
#[derive(Debug)]
pub enum RequestParse {
    /// More bytes must arrive before the answer is known.
    Incomplete,
    /// The head is complete and malformed; the connection is closed.
    Invalid(HeadError),
    /// A complete request, and how many buffer bytes it used.
    Complete(HttpRequest, usize),
}

/// What a buffer of received bytes holds so far, in specification terms.
pub enum SpecParse {
    Incomplete,
    Invalid(HeadError),
    Complete(SpecRequest, int),
}

/// The request denoted by the received bytes `s`, so far.
pub open spec fn parse_request_spec(s: Seq<u8>) -> SpecParse {
    let he = head_end_at(s, 0);
    if he < 0 {
        SpecParse::Incomplete
    } else {
        match parse_head_spec(s, he + 2) {
            Err(e) => SpecParse::Invalid(e),
            Ok(h) => {
                let used = he + 4 + h.content_length;
                if used <= s.len() {
                    SpecParse::Complete(
                        SpecRequest {
                            method: h.method,
                            path: h.path,
                            http11: h.http11,
                            body: s.subrange(he + 4, used),
                        },
                        used,
                    )
                } else {
                    SpecParse::Incomplete
                }
            },
        }
    }
}

/// The four terminator bytes.
fn head_terminator_bytes() -> (v: Vec<u8>)
    ensures
        v@ == head_terminator(),
{
    let mut v: Vec<u8> = Vec::new();
    v.push(13);
    v.push(10);
    v.push(13);
    v.push(10);
    proof {
        assert(v@ =~= head_terminator());
    }
    v
}

/// Find where the head terminator first starts in `s`.
fn find_head_end(s: &[u8]) -> (r: Option<usize>)
    ensures
        match r {
            Some(j) => {
                &&& head_end_at(s@, 0) == j
                &&& j + 4 <= s@.len()
                &&& matches_at(s@, j as int, head_terminator())
            },
            None => head_end_at(s@, 0) == -1,
        },
{
    let term = head_terminator_bytes();
    let n = s.len();
    if n < 4 {
        return None;
    }
    let mut k: usize = 0;
    while k <= n - 4
        invariant
            0 <= k <= n - 4 + 1,
            n == s@.len(),
            4 <= n,
            term@ == head_terminator(),
            head_end_at(s@, 0) == head_end_at(s@, k as int),
        decreases n - k,
    {
        if matches_at_exec(s, k, term.as_slice()) {
            return Some(k);
        }
        assert(head_end_at(s@, k as int) == head_end_at(s@, k as int + 1));
        k = k + 1;
    }
    assert(head_end_at(s@, k as int) == -1);
    None
}

/// Parse whatever prefix of the connection's bytes has arrived: a
/// complete request and the bytes it used, a malformed head, or the news
/// that more bytes are needed.
pub fn parse_request(s: &[u8]) -> (r: RequestParse)
    ensures
        match r {
            RequestParse::Incomplete => parse_request_spec(s@) is Incomplete,
            RequestParse::Invalid(e) => parse_request_spec(s@) == SpecParse::Invalid(e),
            RequestParse::Complete(req, used) => parse_request_spec(s@) == SpecParse::Complete(
                req@,
                used as int,
            ),
        },
{
    let Some(he) = find_head_end(s) else { return RequestParse::Incomplete };
    let n = s.len();
    match parse_head(s, he + 2) {
        Err(e) => RequestParse::Invalid(e),
        Ok(h) => {
            if n - (he + 4) < h.content_length {
                return RequestParse::Incomplete;
            }
            let used = he + 4 + h.content_length;
            let body = copy_range(s, he + 4, used);
            RequestParse::Complete(
                HttpRequest { method: h.method, path: h.path, http11: h.http11, body },
                used,
            )
        },
    }
}

/// The wire form of a plain `HTTP/1.0` GET request for `path` on `host`,
/// as the fetch demo sends it.
pub open spec fn get_request_bytes(host: Seq<u8>, path: Seq<u8>) -> Seq<u8> {
    "GET ".spec_bytes() + path + " HTTP/1.0\r\nHost: ".spec_bytes() + host + "\r\n\r\n".spec_bytes()
}

/// Render the GET request the fetch demo sends: request line, `Host`
/// header, blank line.
pub fn format_get_request(host: &[u8], path: &[u8]) -> (v: Vec<u8>)
    ensures
        v@ == get_request_bytes(host@, path@),
{
    let mut v: Vec<u8> = Vec::new();
    crate::bytes::push_bytes(&mut v, "GET ".as_bytes());
    crate::bytes::push_bytes(&mut v, path);
    crate::bytes::push_bytes(&mut v, " HTTP/1.0\r\nHost: ".as_bytes());
    crate::bytes::push_bytes(&mut v, host);
    crate::bytes::push_bytes(&mut v, "\r\n\r\n".as_bytes());
    v
}

/// The program's panic handler: an unrecoverable fault halts the
/// device, forever. The endless idle loop cannot stand in verified
/// code; the driver performs the halt this orders.
pub fn panic() -> (r: crate::fault::Halt)
    ensures
        r == crate::fault::Halt::Forever,
{
    crate::fault::Halt::Forever
}

} // verus!
