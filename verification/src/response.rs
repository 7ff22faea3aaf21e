//! HTTP responses and their wire form.
//!
//! A response is rendered as its status line, an optional `Content-Type`
//! line, the exact `Content-Length`, a blank line, and the body.

use vstd::prelude::*;

use crate::bytes::push_bytes;
use vstd::string::StringSliceAdditionalSpecFns;

verus! {

/// The media types this service serves.
#[derive(Clone, Copy, Debug, PartialEq, Eq, Structural)]
pub enum ContentType {
    Html,
    Json,
}

/// A response: status code, optional content type, body.
#[derive(Debug)]
pub struct HttpResponse {
    pub status: u16,
    pub content_type: Option<ContentType>,
    pub body: Vec<u8>,
}

/// A response, in specification terms.
pub struct SpecResponse {
    pub status: int,
    pub content_type: Option<ContentType>,
    pub body: Seq<u8>,
}

impl HttpResponse {
    /// The response in specification terms.
    pub open spec fn view(&self) -> SpecResponse {
        SpecResponse {
            status: self.status as int,
            content_type: self.content_type,
            body: self.body@,
        }
    }

    /// The service only ever answers 200, 400 or 404.
    pub open spec fn wf(&self) -> bool {
        self.status == 200 || self.status == 400 || self.status == 404
    }
}

/// The status line for the given code.
pub open spec fn status_line(status: int) -> Seq<u8> {
    if status == 200 {
        "HTTP/1.1 200 OK\r\n".spec_bytes()
    } else if status == 400 {
        "HTTP/1.1 400 Bad Request\r\n".spec_bytes()
    } else {
        "HTTP/1.1 404 Not Found\r\n".spec_bytes()
    }
}

/// The `Content-Type` line, or nothing where the response has no type.
pub open spec fn content_type_line(ct: Option<ContentType>) -> Seq<u8> {
    match ct {
        Some(ContentType::Html) => "Content-Type: text/html\r\n".spec_bytes(),
        Some(ContentType::Json) => "Content-Type: application/json\r\n".spec_bytes(),
        None => Seq::empty(),
    }
}

/// The decimal digits of `n` (most significant first).
pub open spec fn dec_digits(n: int) -> Seq<u8>
    decreases n,
{
    if n < 10 {
        seq![(n + ('0' as u8) as int) as u8]
    } else {
        dec_digits(n / 10).push(((n % 10) + ('0' as u8) as int) as u8)
    }
}

/// The full wire form of a response.
pub open spec fn response_bytes(r: SpecResponse) -> Seq<u8> {
    status_line(r.status) + content_type_line(r.content_type) + "Content-Length: ".spec_bytes()
        + dec_digits(r.body.len() as int) + "\r\n".spec_bytes() + "\r\n".spec_bytes() + r.body
}

/// Render `n` in decimal.
pub fn usize_to_dec(n: usize) -> (v: Vec<u8>)
    ensures
        v@ == dec_digits(n as int),
    decreases n,
{
    if n < 10 {
        let mut v: Vec<u8> = Vec::new();
        v.push((n as u8) + '0' as u8);
        proof {
            assert(v@ =~= dec_digits(n as int));
        }
        v
    } else {
        let mut v = usize_to_dec(n / 10);
        v.push((n % 10) as u8 + '0' as u8);
        v
    }
}

impl HttpResponse {
    /// Render the response in its wire form.
    pub fn to_bytes(&self) -> (v: Vec<u8>)
        ensures
            v@ == response_bytes(self@),
    {
        let mut v: Vec<u8> = Vec::new();
        if self.status == 200 {
            push_bytes(&mut v, "HTTP/1.1 200 OK\r\n".as_bytes());
        } else if self.status == 400 {
            push_bytes(&mut v, "HTTP/1.1 400 Bad Request\r\n".as_bytes());
        } else {
            push_bytes(&mut v, "HTTP/1.1 404 Not Found\r\n".as_bytes());
        }
        match self.content_type {
            Some(ContentType::Html) => push_bytes(&mut v, "Content-Type: text/html\r\n".as_bytes()),
            Some(ContentType::Json) => push_bytes(
                &mut v,
                "Content-Type: application/json\r\n".as_bytes(),
            ),
            None => (),
        }
        push_bytes(&mut v, "Content-Length: ".as_bytes());
        let digits = usize_to_dec(self.body.len());
        push_bytes(&mut v, digits.as_slice());
        push_bytes(&mut v, "\r\n".as_bytes());
        push_bytes(&mut v, "\r\n".as_bytes());
        push_bytes(&mut v, self.body.as_slice());
        proof {
            assert(v@ =~= response_bytes(self@));
        }
        v
    }
}

} // verus!
