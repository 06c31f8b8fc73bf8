use vstd::prelude::*;
use vstd::utf8::encode_utf8;

verus! {

/// The Unicode `White_Space` property, as `char::is_whitespace` uses it.
pub open spec fn is_ws(c: char) -> bool {
    let u = c as u32;
    (0x09 <= u && u <= 0x0d) || u == 0x20 || u == 0x85 || u == 0xa0 || u == 0x1680 || (0x2000 <= u
        && u <= 0x200a) || u == 0x2028 || u == 0x2029 || u == 0x202f || u == 0x205f || u == 0x3000
}

/// Whether `c` is a whitespace character.
pub fn is_whitespace(c: char) -> (r: bool)
    ensures
        r == is_ws(c),
{
    let u = c as u32;
    (0x09 <= u && u <= 0x0d) || u == 0x20 || u == 0x85 || u == 0xa0 || u == 0x1680 || (0x2000 <= u
        && u <= 0x200a) || u == 0x2028 || u == 0x2029 || u == 0x202f || u == 0x205f || u == 0x3000
}

pub open spec fn digit_text(d: nat) -> Seq<char> {
    if d == 0 {
        "0"@
    } else if d == 1 {
        "1"@
    } else if d == 2 {
        "2"@
    } else if d == 3 {
        "3"@
    } else if d == 4 {
        "4"@
    } else if d == 5 {
        "5"@
    } else if d == 6 {
        "6"@
    } else if d == 7 {
        "7"@
    } else if d == 8 {
        "8"@
    } else {
        "9"@
    }
}

/// The decimal notation of `n`, without sign or leading zeros.
pub open spec fn decimal_text(n: nat) -> Seq<char>
    decreases n,
{
    if n < 10 {
        digit_text(n)
    } else {
        decimal_text(n / 10) + digit_text(n % 10)
    }
}

fn digit(d: usize) -> (r: &'static str)
    requires
        d < 10,
    ensures
        r@ == digit_text(d as nat),
{
    match d {
        0 => "0",
        1 => "1",
        2 => "2",
        3 => "3",
        4 => "4",
        5 => "5",
        6 => "6",
        7 => "7",
        8 => "8",
        _ => "9",
    }
}

/// Writes `n` in decimal.
pub fn decimal(n: usize) -> (r: String)
    ensures
        r@ == decimal_text(n as nat),
    decreases n,
{
    if n < 10 {
        String::from_str(digit(n))
    } else {
        let mut s = decimal(n / 10);
        s.append(digit(n % 10));
        s
    }
}

/// The status codes this service answers with.
#[derive(Clone, Copy, Debug, PartialEq, Eq, Structural)]
pub enum Status {
    Success,
    Created,
    BadRequest,
    NotFound,
    InternalError,
}

pub open spec fn status_line_text(s: Status) -> Seq<char> {
    match s {
        Status::Success => "HTTP/1.0 200 OK"@,
        Status::Created => "HTTP/1.0 201 CREATED"@,
        Status::BadRequest => "HTTP/1.0 400 BAD REQUEST"@,
        Status::NotFound => "HTTP/1.0 404 NOT FOUND"@,
        Status::InternalError => "HTTP/1.0 500 INTERNAL SERVER ERROR"@,
    }
}

/// The full response: status line, a `Content-Length` header giving the
/// body's length in UTF-8 bytes, a blank line, then the body.
pub open spec fn response_text(s: Status, body: Seq<char>) -> Seq<char> {
    status_line_text(s) + "\r\nContent-Length: "@ + decimal_text(encode_utf8(body).len()) + "\r\n\r\n"@
        + body
}

impl Status {
    /// The numeric status code.
    pub open spec fn code(self) -> nat {
        match self {
            Status::Success => 200,
            Status::Created => 201,
            Status::BadRequest => 400,
            Status::NotFound => 404,
            Status::InternalError => 500,
        }
    }

    /// The status line, e.g. `HTTP/1.0 404 NOT FOUND`.
    pub fn status_line(self) -> (r: &'static str)
        ensures
            r@ == status_line_text(self),
    {
        match self {
            Status::Success => "HTTP/1.0 200 OK",
            Status::Created => "HTTP/1.0 201 CREATED",
            Status::BadRequest => "HTTP/1.0 400 BAD REQUEST",
            Status::NotFound => "HTTP/1.0 404 NOT FOUND",
            Status::InternalError => "HTTP/1.0 500 INTERNAL SERVER ERROR",
        }
    }
}

/// Renders a complete response with the given status and body.
pub fn format_response(status: Status, contents: &str) -> (r: String)
    ensures
        r@ == response_text(status, contents@),
{
    let mut r = String::from_str(status.status_line());
    r.append("\r\nContent-Length: ");
    let n = decimal(contents.as_bytes().len());
    r.append(n.as_str());
    r.append("\r\n\r\n");
    r.append(contents);
    r
}

pub open spec fn bad_request_body() -> Seq<char> {
    "400 - Bad Request"@
}

pub open spec fn not_found_body() -> Seq<char> {
    "404 - Not Found"@
}

/// The response to a request that could not be understood.
pub fn handle_400() -> (r: String)
    ensures
        r@ == response_text(Status::BadRequest, bad_request_body()),
{
    format_response(Status::BadRequest, "400 - Bad Request")
}

/// The response to a request for which no handler exists.
pub fn handle_404() -> (r: String)
    ensures
        r@ == response_text(Status::NotFound, not_found_body()),
{
    format_response(Status::NotFound, "404 - Not Found")
}

} // verus!
