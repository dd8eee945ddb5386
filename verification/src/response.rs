//! Routing of a parsed request and the framing of the response head.

use vstd::prelude::*;
use crate::http::{all_digits, digit_value, digits_value, is_digit, spec_parse_usize, unsigned_digits};
use crate::text::{chars_eq, chars_of, concat_chars, string_of};

verus! {

/// The port the console prefers, and announces when it has none yet.
pub const DEFAULT_WEB_CONSOLE_PORT: u16 = 18081;

/// The path of the invoke bridge.
pub open spec fn invoke_path() -> Seq<char> {
    "/__cockpit_web__/invoke"@
}

/// The path of the health probe.
pub open spec fn health_path() -> Seq<char> {
    "/__cockpit_web__/health"@
}

pub open spec fn digit_char(d: nat) -> char {
    ((d + 48) as u32) as char
}

/// The decimal notation of `n`, as `Display` writes an unsigned integer.
pub open spec fn decimal(n: nat) -> Seq<char>
    decreases n,
{
    if n < 10 {
        seq![digit_char(n)]
    } else {
        decimal(n / 10).push(digit_char(n % 10))
    }
}

/// The decimal notation of `n`.
pub fn decimal_chars(n: usize) -> (r: Vec<char>)
    ensures
        r@ == decimal(n as nat),
    decreases n,
{
    let d = (n % 10) as u8;
    let c = (d + 48) as char;
    assert(c == digit_char((n % 10) as nat));
    if n < 10 {
        let mut v: Vec<char> = Vec::new();
        v.push(c);
        v
    } else {
        let mut v = decimal_chars(n / 10);
        v.push(c);
        v
    }
}

/// How the console answers a request, by method and path.
pub enum Route {
    /// CORS preflight: `204 No Content`.
    Preflight,
    /// `POST` to the invoke bridge.
    Invoke,
    /// `GET` of the health probe.
    Health,
    /// Any method but `GET` and `HEAD` elsewhere: `405`.
    MethodNotAllowed,
    /// A static file, without its body for `HEAD`.
    Static { head_only: bool },
}

pub open spec fn spec_route(method: Seq<char>, path: Seq<char>) -> Route {
    if method == "OPTIONS"@ {
        Route::Preflight
    } else if method == "POST"@ && path == invoke_path() {
        Route::Invoke
    } else if method == "GET"@ && path == health_path() {
        Route::Health
    } else if method != "GET"@ && method != "HEAD"@ {
        Route::MethodNotAllowed
    } else {
        Route::Static { head_only: method == "HEAD"@ }
    }
}

/// Every `OPTIONS` request is a CORS preflight, whatever its path.
pub proof fn law_options_is_preflight(path: Seq<char>)
    ensures
        spec_route("OPTIONS"@, path) == Route::Preflight,
{
}

/// The method names differ: by length, or by their first letter.
proof fn lemma_method_names()
    ensures
        "OPTIONS"@.len() == 7,
        "POST"@.len() == 4 && "POST"@[0] == 'P',
        "GET"@.len() == 3,
        "HEAD"@.len() == 4 && "HEAD"@[0] == 'H',
{
    reveal_strlit("OPTIONS");
    reveal_strlit("POST");
    reveal_strlit("GET");
    reveal_strlit("HEAD");
}

/// A `POST` to the invoke bridge goes to the bridge.
pub proof fn law_post_invoke_is_invoke()
    ensures
        spec_route("POST"@, invoke_path()) == Route::Invoke,
{
    lemma_method_names();
}

/// A `GET` of the health probe is answered by the probe.
pub proof fn law_get_health_is_health()
    ensures
        spec_route("GET"@, health_path()) == Route::Health,
{
    lemma_method_names();
}

/// A `GET` of any other path, and a `HEAD` of any path, serve a static
/// file; `HEAD` without its body.
pub proof fn law_get_and_head_serve_files(path: Seq<char>)
    ensures
        path != health_path() ==> spec_route("GET"@, path) == (Route::Static { head_only: false }),
        spec_route("HEAD"@, path) == (Route::Static { head_only: true }),
{
    lemma_method_names();
}

/// Any other method is refused with `405`, except a `POST` to the bridge.
pub proof fn law_other_methods_refused(method: Seq<char>, path: Seq<char>)
    requires
        method != "OPTIONS"@,
        method != "GET"@,
        method != "HEAD"@,
        !(method == "POST"@ && path == invoke_path()),
    ensures
        spec_route(method, path) == Route::MethodNotAllowed,
{
}

/// Chooses how to answer a request.
pub fn route_request(method: &str, path: &str) -> (r: Route)
    ensures
        r == spec_route(method@, path@),
{
    let m = chars_of(method);
    let p = chars_of(path);
    if chars_eq(&m, &chars_of("OPTIONS")) {
        Route::Preflight
    } else if chars_eq(&m, &chars_of("POST")) && chars_eq(&p, &chars_of("/__cockpit_web__/invoke")) {
        Route::Invoke
    } else if chars_eq(&m, &chars_of("GET")) && chars_eq(&p, &chars_of("/__cockpit_web__/health")) {
        Route::Health
    } else {
        let is_get = chars_eq(&m, &chars_of("GET"));
        let is_head = chars_eq(&m, &chars_of("HEAD"));
        if !is_get && !is_head {
            Route::MethodNotAllowed
        } else {
            Route::Static { head_only: is_head }
        }
    }
}

/// A response whose content does not depend on the request.
pub struct FixedResponse {
    pub status: u16,
    pub reason: &'static str,
    pub content_type: &'static str,
    pub body: &'static str,
}

/// The answer to a CORS preflight.
pub fn preflight_response() -> (r: FixedResponse)
    ensures
        r.status == 204,
        r.reason@ == "No Content"@,
        r.content_type@ == "text/plain; charset=utf-8"@,
        r.body@ == ""@,
{
    FixedResponse {
        status: 204,
        reason: "No Content",
        content_type: "text/plain; charset=utf-8",
        body: "",
    }
}

/// The answer to a method that the console does not serve.
pub fn method_not_allowed_response() -> (r: FixedResponse)
    ensures
        r.status == 405,
        r.reason@ == "Method Not Allowed"@,
        r.content_type@ == "text/plain; charset=utf-8"@,
        r.body@ == "method not allowed"@,
{
    FixedResponse {
        status: 405,
        reason: "Method Not Allowed",
        content_type: "text/plain; charset=utf-8",
        body: "method not allowed",
    }
}

/// The content type of JSON answers.
pub fn json_content_type() -> (r: &'static str)
    ensures
        r@ == "application/json; charset=utf-8"@,
{
    "application/json; charset=utf-8"
}

/// Status and reason of an invoke answer: `200 OK` when the command
/// succeeded, `400 Bad Request` when it failed.
pub fn invoke_status(ok: bool) -> (r: (u16, &'static str))
    ensures
        ok ==> r.0 == 200 && r.1@ == "OK"@,
        !ok ==> r.0 == 400 && r.1@ == "Bad Request"@,
{
    if ok {
        (200, "OK")
    } else {
        (400, "Bad Request")
    }
}

/// The port that responses announce in `access-control-allow-origin`: the
/// console's own, or the preferred one while it has none.
pub open spec fn announced_port(port: Option<u16>) -> u16 {
    match port {
        Some(p) => p,
        None => DEFAULT_WEB_CONSOLE_PORT,
    }
}

/// The response head: status line, the headers the console always sends,
/// and the blank line.
pub open spec fn spec_response_head(
    status: u16,
    reason: Seq<char>,
    content_type: Seq<char>,
    body_len: nat,
    port: Option<u16>,
) -> Seq<char> {
    "HTTP/1.1 "@ + decimal(status as nat) + " "@ + reason + "\r\ncontent-type: "@ + content_type
        + "\r\ncontent-length: "@ + decimal(body_len) + "\r\ncache-control: no-store\r\nx-content-type-options: nosniff\r\naccess-control-allow-origin: http://127.0.0.1:"@
        + decimal(announced_port(port) as nat)
        + "\r\naccess-control-allow-methods: GET,POST,OPTIONS\r\naccess-control-allow-headers: content-type\r\nconnection: close\r\n\r\n"@
}

/// `decimal` writes the number it is given: reading it back as a `usize`
/// gives that number.
pub proof fn law_decimal_reads_back(n: nat)
    requires
        n <= usize::MAX,
    ensures
        spec_parse_usize(decimal(n)) == Some(n),
        decimal(n).len() > 0,
        decimal(n)[0] == '0' ==> n == 0,
{
    lemma_decimal_digits(n);
    assert(unsigned_digits(decimal(n)) == decimal(n));
}

proof fn lemma_decimal_digits(n: nat)
    ensures
        decimal(n).len() > 0,
        all_digits(decimal(n)),
        digits_value(decimal(n)) == n,
        decimal(n)[0] == '0' ==> n == 0,
        decimal(n)[0] != '+',
    decreases n,
{
    if n >= 10 {
        lemma_decimal_digits(n / 10);
        let d = decimal(n / 10);
        let c = digit_char(n % 10);
        let t = d.push(c);
        assert(t.drop_last() == d);
        assert(t.last() == c);
        assert(digit_value(c) == n % 10);
        assert(digits_value(t) == digits_value(d) * 10 + digit_value(c));
        assert(t[0] == d[0]);
        assert forall|i: int| 0 <= i < t.len() implies is_digit(#[trigger] t[i]) by {
            if i < d.len() {
                assert(t[i] == d[i]);
            }
        }
    } else {
        let t = decimal(n);
        assert(t == seq![digit_char(n)]);
        assert(t.drop_last() =~= Seq::<char>::empty());
        assert(digits_value(t.drop_last()) == 0);
    }
}

/// The status and reason of a response change only its status line: the
/// headers that follow are the same for every status.
pub proof fn law_head_headers_independent_of_status(
    s1: u16,
    r1: Seq<char>,
    s2: u16,
    r2: Seq<char>,
    content_type: Seq<char>,
    body_len: nat,
    port: Option<u16>,
)
    ensures
        ({
            let l1 = ("HTTP/1.1 "@ + decimal(s1 as nat) + " "@ + r1).len();
            let l2 = ("HTTP/1.1 "@ + decimal(s2 as nat) + " "@ + r2).len();
            spec_response_head(s1, r1, content_type, body_len, port).skip(l1 as int)
                == spec_response_head(s2, r2, content_type, body_len, port).skip(l2 as int)
        }),
{
    let l1 = ("HTTP/1.1 "@ + decimal(s1 as nat) + " "@ + r1).len();
    let l2 = ("HTTP/1.1 "@ + decimal(s2 as nat) + " "@ + r2).len();
    let rest = "\r\ncontent-type: "@ + content_type + "\r\ncontent-length: "@ + decimal(body_len)
        + "\r\ncache-control: no-store\r\nx-content-type-options: nosniff\r\naccess-control-allow-origin: http://127.0.0.1:"@
        + decimal(announced_port(port) as nat)
        + "\r\naccess-control-allow-methods: GET,POST,OPTIONS\r\naccess-control-allow-headers: content-type\r\nconnection: close\r\n\r\n"@;
    let p1 = "HTTP/1.1 "@ + decimal(s1 as nat) + " "@ + r1;
    let p2 = "HTTP/1.1 "@ + decimal(s2 as nat) + " "@ + r2;
    assert(spec_response_head(s1, r1, content_type, body_len, port) =~= p1 + rest);
    assert(spec_response_head(s2, r2, content_type, body_len, port) =~= p2 + rest);
    assert((p1 + rest).skip(l1 as int) =~= rest);
    assert((p2 + rest).skip(l2 as int) =~= rest);
}

/// The head declares the length of the body it is sent with, whatever the
/// status: it holds the header line `content-length: <body_len>`.
pub proof fn law_head_declares_body_length(
    status: u16,
    reason: Seq<char>,
    content_type: Seq<char>,
    body_len: nat,
    port: Option<u16>,
)
    ensures
        exists|i: int|
            0 <= i && i + ("\r\ncontent-length: "@ + decimal(body_len) + "\r\n"@).len()
                <= spec_response_head(status, reason, content_type, body_len, port).len()
                && #[trigger] spec_response_head(status, reason, content_type, body_len, port).subrange(
                i,
                i + ("\r\ncontent-length: "@ + decimal(body_len) + "\r\n"@).len(),
            ) == "\r\ncontent-length: "@ + decimal(body_len) + "\r\n"@,
{
    let pre = "HTTP/1.1 "@ + decimal(status as nat) + " "@ + reason + "\r\ncontent-type: "@
        + content_type;
    let mid = "\r\ncontent-length: "@ + decimal(body_len);
    let tail = "\r\ncache-control: no-store\r\nx-content-type-options: nosniff\r\naccess-control-allow-origin: http://127.0.0.1:"@
        + decimal(announced_port(port) as nat)
        + "\r\naccess-control-allow-methods: GET,POST,OPTIONS\r\naccess-control-allow-headers: content-type\r\nconnection: close\r\n\r\n"@;
    reveal_strlit("\r\n");
    reveal_strlit("\r\ncache-control: no-store\r\nx-content-type-options: nosniff\r\naccess-control-allow-origin: http://127.0.0.1:");
    let h = spec_response_head(status, reason, content_type, body_len, port);
    assert(h =~= pre + mid + tail);
    let target = mid + "\r\n"@;
    assert(tail.subrange(0, 2) =~= "\r\n"@);
    assert(h.subrange(pre.len() as int, (pre.len() + target.len()) as int) =~= target);
}

/// Frames the head of a response with `body_len` bytes of body.
pub fn response_head(
    status: u16,
    reason: &str,
    content_type: &str,
    body_len: usize,
    port: Option<u16>,
) -> (r: String)
    ensures
        r@ == spec_response_head(status, reason@, content_type@, body_len as nat, port),
{
    let announced: u16 = match port {
        Some(p) => p,
        None => DEFAULT_WEB_CONSOLE_PORT,
    };
    let mut h = chars_of("HTTP/1.1 ");
    h = concat_chars(&h, &decimal_chars(status as usize));
    h = concat_chars(&h, &chars_of(" "));
    h = concat_chars(&h, &chars_of(reason));
    h = concat_chars(&h, &chars_of("\r\ncontent-type: "));
    h = concat_chars(&h, &chars_of(content_type));
    h = concat_chars(&h, &chars_of("\r\ncontent-length: "));
    h = concat_chars(&h, &decimal_chars(body_len));
    h = concat_chars(
        &h,
        &chars_of(
            "\r\ncache-control: no-store\r\nx-content-type-options: nosniff\r\naccess-control-allow-origin: http://127.0.0.1:",
        ),
    );
    h = concat_chars(&h, &decimal_chars(announced as usize));
    h = concat_chars(
        &h,
        &chars_of(
            "\r\naccess-control-allow-methods: GET,POST,OPTIONS\r\naccess-control-allow-headers: content-type\r\nconnection: close\r\n\r\n",
        ),
    );
    string_of(&h)
}

} // verus!
