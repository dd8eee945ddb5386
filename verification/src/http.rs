//! Reading an HTTP/1.1 request: finding the end of its head, parsing the
//! request line and the declared body length, and the reader that takes the
//! bytes as they arrive and decides when the request is complete.

use vstd::prelude::*;
use vstd::utf8::*;
use crate::text::{
    ascii_lower_seq, chars_eq, chars_of, concat_chars, find_char, first_token, lower_ascii_chars,
    second_token, split_crlf, split_first_token, split_lines_crlf, split_once, string_of, sub_chars,
    trim, trim_chars,
};

verus! {

/// `true` when `buf[i..i + 4]` is the blank line `\r\n\r\n`.
pub open spec fn blank_line_at(buf: Seq<u8>, i: int) -> bool {
    &&& 0 <= i
    &&& i + 4 <= buf.len()
    &&& buf[i] == 13u8
    &&& buf[i + 1] == 10u8
    &&& buf[i + 2] == 13u8
    &&& buf[i + 3] == 10u8
}

/// Position of the first `\r\n\r\n` in `buffer`, the end of the request head.
pub fn find_header_end(buffer: &[u8]) -> (r: Option<usize>)
    ensures
        match r {
            Some(pos) => blank_line_at(buffer@, pos as int)
                && forall|j: int| 0 <= j < pos ==> !blank_line_at(buffer@, j),
            None => forall|j: int| !blank_line_at(buffer@, j),
        },
{
    let n = buffer.len();
    if n < 4 {
        return None;
    }
    let mut i: usize = 0;
    while i <= n - 4
        invariant
            n == buffer@.len(),
            4 <= n,
            i + 3 <= n,
            forall|j: int| 0 <= j < i ==> !blank_line_at(buffer@, j),
        decreases n - i,
    {
        if buffer[i] == 13u8 && buffer[i + 1] == 10u8 && buffer[i + 2] == 13u8 && buffer[i + 3] == 10u8 {
            return Some(i);
        }
        i = i + 1;
    }
    None
}

// ----- numbers ------------------------------------------------------------

pub open spec fn is_digit(c: char) -> bool {
    '0' <= c && c <= '9'
}

pub open spec fn digit_value(c: char) -> nat {
    ((c as u32) - ('0' as u32)) as nat
}

/// The number that the decimal digits `d` denote.
pub open spec fn digits_value(d: Seq<char>) -> nat
    decreases d.len(),
{
    if d.len() == 0 {
        0
    } else {
        digits_value(d.drop_last()) * 10 + digit_value(d.last())
    }
}

/// The digits of a number: `t` without one leading `+`.
pub open spec fn unsigned_digits(t: Seq<char>) -> Seq<char> {
    if t.len() > 0 && t[0] == '+' {
        t.drop_first()
    } else {
        t
    }
}

pub open spec fn all_digits(d: Seq<char>) -> bool {
    forall|i: int| 0 <= i < d.len() ==> is_digit(#[trigger] d[i])
}

/// `str::parse::<usize>`: an optional `+`, then one or more decimal digits
/// whose value fits in `usize`.
pub open spec fn spec_parse_usize(t: Seq<char>) -> Option<nat> {
    let d = unsigned_digits(t);
    if d.len() > 0 && all_digits(d) && digits_value(d) <= usize::MAX {
        Some(digits_value(d))
    } else {
        None
    }
}

proof fn lemma_digits_value_prefix(d: Seq<char>, j: int)
    requires
        0 <= j <= d.len(),
    ensures
        digits_value(d.take(j)) <= digits_value(d),
    decreases d.len(),
{
    if j < d.len() {
        assert(d.drop_last().take(j) == d.take(j));
        lemma_digits_value_prefix(d.drop_last(), j);
    } else {
        assert(d.take(j) == d);
    }
}

/// `str::parse::<usize>` on a sequence of characters.
pub fn parse_usize(t: &Vec<char>) -> (r: Option<usize>)
    ensures
        match r {
            Some(v) => spec_parse_usize(t@) == Some(v as nat),
            None => spec_parse_usize(t@) is None,
        },
{
    let start: usize = if t.len() > 0 && t[0] == '+' {
        1
    } else {
        0
    };
    let ghost d = t@.skip(start as int);
    assert(d == unsigned_digits(t@));
    if start >= t.len() {
        return None;
    }
    let mut v: usize = 0;
    let mut i: usize = start;
    while i < t.len()
        invariant
            start <= i <= t@.len(),
            d == t@.skip(start as int),
            d == unsigned_digits(t@),
            forall|k: int| 0 <= k < i - start ==> is_digit(#[trigger] d[k]),
            v as nat == digits_value(d.take(i - start)),
        decreases t@.len() - i,
    {
        let c = t[i];
        assert(d[i - start] == c);
        if !('0' <= c && c <= '9') {
            assert(!is_digit(d[i - start]));
            return None;
        }
        let dv = (c as u32 - '0' as u32) as usize;
        assert(d.take(i - start + 1).drop_last() == d.take(i - start));
        assert(d.take(i - start + 1).last() == c);
        assert(digit_value(c) == dv);
        assert(digits_value(d.take(i - start + 1)) == digits_value(d.take(i - start)) * 10 + dv);
        match v.checked_mul(10) {
            Some(m) => match m.checked_add(dv) {
                Some(nv) => {
                    v = nv;
                },
                None => {
                    proof {
                        lemma_digits_value_prefix(d, i - start + 1);
                    }
                    return None;
                },
            },
            None => {
                proof {
                    lemma_digits_value_prefix(d, i - start + 1);
                }
                return None;
            },
        }
        i = i + 1;
    }
    assert(d.take(i - start) == d);
    Some(v)
}

// ----- the request head ---------------------------------------------------

/// What a header line says of the body's length: `None` when it is not a
/// `content-length` header, `Some(None)` when its value is not a `usize`.
pub open spec fn content_length_header(line: Seq<char>) -> Option<Option<nat>> {
    match split_once(line, ':') {
        None => None,
        Some((name, value)) => if ascii_lower_seq(trim(name)) == "content-length"@ {
            Some(spec_parse_usize(trim(value)))
        } else {
            None
        },
    }
}

/// The body length that the header lines declare, read in order: the last
/// `content-length` header wins, 0 when there is none, and `None` as soon as
/// one of them does not hold a `usize`.
pub open spec fn scan_content_length(lines: Seq<Seq<char>>) -> Option<nat>
    decreases lines.len(),
{
    if lines.len() == 0 {
        Some(0)
    } else {
        match scan_content_length(lines.drop_last()) {
            None => None,
            Some(v) => match content_length_header(lines.last()) {
                None => Some(v),
                Some(x) => x,
            },
        }
    }
}

/// Reads one header line for a `content-length` value.
pub fn header_content_length(line: &Vec<char>) -> (r: Option<Option<usize>>)
    ensures
        match r {
            None => content_length_header(line@) is None,
            Some(None) => content_length_header(line@) == Some(None::<nat>),
            Some(Some(v)) => content_length_header(line@) == Some(Some(v as nat)),
        },
{
    let k = find_char(line, ':');
    if k == line.len() {
        return None;
    }
    let name = sub_chars(line, 0, k);
    let value = sub_chars(line, k + 1, line.len());
    let lname = lower_ascii_chars(&trim_chars(&name));
    let key = chars_of("content-length");
    if chars_eq(&lname, &key) {
        Some(parse_usize(&trim_chars(&value)))
    } else {
        None
    }
}

/// Named result: the path that `url::Url::parse` gives for `url`, or the
/// text of its error.
pub uninterp spec fn url_path_parse(url: Seq<char>) -> Result<Seq<char>, Seq<char>>;

/// Trusted: `url::Url::parse(url)` followed by `Url::path`; on failure the
/// `Display` text of the `ParseError`. The contract names the result and
/// states nothing more of the WHATWG parser.
#[verifier::external_body]
fn parse_url_path(url: &str) -> (r: Result<String, String>)
    ensures
        match r {
            Ok(p) => url_path_parse(url@) == Ok::<Seq<char>, Seq<char>>(p@),
            Err(e) => url_path_parse(url@) == Err::<Seq<char>, Seq<char>>(e@),
        },
{
    match url::Url::parse(url) {
        Ok(u) => Ok(u.path().to_string()),
        Err(e) => Err(e.to_string()),
    }
}

/// The path of a request target, resolved against the console's origin.
pub open spec fn spec_normalize_request_path(raw: Seq<char>) -> Result<Seq<char>, Seq<char>> {
    match url_path_parse("http://127.0.0.1"@ + raw) {
        Ok(p) => Ok(p),
        Err(e) => Err("invalid request path: "@ + e),
    }
}

/// Resolves a request target such as `/a/../b?x=1` to its path (`/b`).
pub fn normalize_request_path(raw_path: &str) -> (r: Result<String, String>)
    ensures
        match r {
            Ok(p) => spec_normalize_request_path(raw_path@) == Ok::<Seq<char>, Seq<char>>(p@),
            Err(e) => spec_normalize_request_path(raw_path@) == Err::<Seq<char>, Seq<char>>(e@),
        },
{
    let url = string_of(&concat_chars(&chars_of("http://127.0.0.1"), &chars_of(raw_path)));
    match parse_url_path(url.as_str()) {
        Ok(p) => Ok(p),
        Err(e) => Err(string_of(&concat_chars(&chars_of("invalid request path: "), &chars_of(e.as_str())))),
    }
}

/// Named result: the `Display` text of the error that `String::from_utf8`
/// gives for `bytes`.
pub uninterp spec fn utf8_error_text(bytes: Seq<u8>) -> Seq<char>;

/// Trusted: `String::from_utf8`. It succeeds exactly on valid UTF-8 and then
/// holds the decoded characters; its error is shown through `Display`.
#[verifier::external_body]
fn utf8_to_string(bytes: &[u8]) -> (r: Result<String, String>)
    ensures
        match r {
            Ok(s) => valid_utf8(bytes@) && s@ == decode_utf8(bytes@),
            Err(e) => !valid_utf8(bytes@) && e@ == utf8_error_text(bytes@),
        },
{
    String::from_utf8(bytes.to_vec()).map_err(|e| e.to_string())
}


/// The longest request, head and body each, that the console accepts.
pub const MAX_HTTP_REQUEST_BYTES: usize = 2 * 1024 * 1024;

/// The request line and the declared body length of a request head.
pub struct RequestHead {
    pub method: String,
    pub path: String,
    pub content_length: usize,
}

/// A request as the console handles it.
pub struct HttpRequest {
    pub method: String,
    pub path: String,
    pub body: Vec<u8>,
}

/// Why a request could not be read.
pub enum RequestError {
    ReadTimedOut,
    BodyReadTimedOut,
    Io(String),
    ClosedBeforeHeaders,
    TooLarge,
    InvalidUtf8(String),
    InvalidRequestPath(String),
    InvalidContentLength,
    BodyTooLarge,
    ClosedBeforeBody,
}

pub struct HeadView {
    pub method: Seq<char>,
    pub path: Seq<char>,
    pub content_length: nat,
}

pub struct HttpRequestView {
    pub method: Seq<char>,
    pub path: Seq<char>,
    pub body: Seq<u8>,
}

pub enum RequestErrorView {
    ReadTimedOut,
    BodyReadTimedOut,
    Io(Seq<char>),
    ClosedBeforeHeaders,
    TooLarge,
    InvalidUtf8(Seq<char>),
    InvalidRequestPath(Seq<char>),
    InvalidContentLength,
    BodyTooLarge,
    ClosedBeforeBody,
}

impl View for RequestHead {
    type V = HeadView;

    open spec fn view(&self) -> HeadView {
        HeadView {
            method: self.method@,
            path: self.path@,
            content_length: self.content_length as nat,
        }
    }
}

impl View for HttpRequest {
    type V = HttpRequestView;

    open spec fn view(&self) -> HttpRequestView {
        HttpRequestView { method: self.method@, path: self.path@, body: self.body@ }
    }
}

impl View for RequestError {
    type V = RequestErrorView;

    open spec fn view(&self) -> RequestErrorView {
        match self {
            RequestError::ReadTimedOut => RequestErrorView::ReadTimedOut,
            RequestError::BodyReadTimedOut => RequestErrorView::BodyReadTimedOut,
            RequestError::Io(e) => RequestErrorView::Io(e@),
            RequestError::ClosedBeforeHeaders => RequestErrorView::ClosedBeforeHeaders,
            RequestError::TooLarge => RequestErrorView::TooLarge,
            RequestError::InvalidUtf8(e) => RequestErrorView::InvalidUtf8(e@),
            RequestError::InvalidRequestPath(e) => RequestErrorView::InvalidRequestPath(e@),
            RequestError::InvalidContentLength => RequestErrorView::InvalidContentLength,
            RequestError::BodyTooLarge => RequestErrorView::BodyTooLarge,
            RequestError::ClosedBeforeBody => RequestErrorView::ClosedBeforeBody,
        }
    }
}

/// The text that the console logs for a failed request.
pub open spec fn request_error_message(e: RequestErrorView) -> Seq<char> {
    match e {
        RequestErrorView::ReadTimedOut => "request read timed out"@,
        RequestErrorView::BodyReadTimedOut => "request body read timed out"@,
        RequestErrorView::Io(m) => m,
        RequestErrorView::ClosedBeforeHeaders => "connection closed before headers completed"@,
        RequestErrorView::TooLarge => "request too large"@,
        RequestErrorView::InvalidUtf8(m) => m,
        RequestErrorView::InvalidRequestPath(m) => m,
        RequestErrorView::InvalidContentLength => "invalid content-length"@,
        RequestErrorView::BodyTooLarge => "request body too large"@,
        RequestErrorView::ClosedBeforeBody => "connection closed before body completed"@,
    }
}

impl RequestError {
    /// The text that the console logs for this error.
    pub fn message(&self) -> (r: String)
        ensures
            r@ == request_error_message(self@),
    {
        match self {
            RequestError::ReadTimedOut => "request read timed out".to_owned(),
            RequestError::BodyReadTimedOut => "request body read timed out".to_owned(),
            RequestError::Io(m) => m.clone(),
            RequestError::ClosedBeforeHeaders => "connection closed before headers completed".to_owned(),
            RequestError::TooLarge => "request too large".to_owned(),
            RequestError::InvalidUtf8(m) => m.clone(),
            RequestError::InvalidRequestPath(m) => m.clone(),
            RequestError::InvalidContentLength => "invalid content-length".to_owned(),
            RequestError::BodyTooLarge => "request body too large".to_owned(),
            RequestError::ClosedBeforeBody => "connection closed before body completed".to_owned(),
        }
    }
}

/// The request head that the bytes before the blank line describe: the
/// method and target are the first two whitespace-separated words of the
/// first line (`""` and `/` when missing), the target is resolved to its
/// path, and the body length is read from the `content-length` headers.
pub open spec fn spec_parse_head(header: Seq<u8>) -> Result<HeadView, RequestErrorView> {
    if !valid_utf8(header) {
        Err(RequestErrorView::InvalidUtf8(utf8_error_text(header)))
    } else {
        let lines = split_crlf(decode_utf8(header));
        let method = match first_token(lines[0]) {
            Some(t) => t,
            None => Seq::<char>::empty(),
        };
        let raw = match second_token(lines[0]) {
            Some(t) => t,
            None => seq!['/'],
        };
        match spec_normalize_request_path(raw) {
            Err(e) => Err(RequestErrorView::InvalidRequestPath(e)),
            Ok(path) => match scan_content_length(lines.drop_first()) {
                None => Err(RequestErrorView::InvalidContentLength),
                Some(n) => Ok(HeadView { method, path, content_length: n }),
            },
        }
    }
}

proof fn lemma_split_crlf_nonempty(t: Seq<char>)
    ensures
        split_crlf(t).len() >= 1,
{
}

/// Parses the bytes of a request head, without its closing blank line.
pub fn parse_request_head(header: &[u8]) -> (r: Result<RequestHead, RequestError>)
    ensures
        match r {
            Ok(h) => spec_parse_head(header@) == Ok::<HeadView, RequestErrorView>(h@),
            Err(e) => spec_parse_head(header@) == Err::<HeadView, RequestErrorView>(e@),
        },
{
    let text = match utf8_to_string(header) {
        Ok(s) => s,
        Err(e) => {
            return Err(RequestError::InvalidUtf8(e));
        },
    };
    let chars = chars_of(text.as_str());
    let lines = split_lines_crlf(&chars);
    proof {
        lemma_split_crlf_nonempty(chars@);
    }
    let ghost slines = split_crlf(chars@);
    let first = &lines[0];
    let (tok1, rest) = split_first_token(first);
    let method = match tok1 {
        Some(t) => string_of(&t),
        None => String::new(),
    };
    let (tok2, _) = split_first_token(&rest);
    let raw = match tok2 {
        Some(t) => t,
        None => {
            let mut v: Vec<char> = Vec::new();
            v.push('/');
            v
        },
    };
    let raw_s = string_of(&raw);
    let path = match normalize_request_path(raw_s.as_str()) {
        Ok(p) => p,
        Err(e) => {
            return Err(RequestError::InvalidRequestPath(e));
        },
    };
    let mut content_length: Option<usize> = Some(0);
    let mut i: usize = 1;
    while i < lines.len()
        invariant
            1 <= i <= lines@.len(),
            lines@.len() == slines.len(),
            forall|k: int| 0 <= k < lines@.len() ==> #[trigger] lines@[k]@ == slines[k],
            match content_length {
                Some(v) => scan_content_length(slines.subrange(1, i as int)) == Some(v as nat),
                None => scan_content_length(slines.subrange(1, i as int)) is None,
            },
        decreases lines@.len() - i,
    {
        let ghost before = slines.subrange(1, i as int);
        assert(slines.subrange(1, i + 1).drop_last() == before);
        assert(slines.subrange(1, i + 1).last() == lines@[i as int]@);
        let found = header_content_length(&lines[i]);
        content_length = match content_length {
            None => None,
            Some(v) => match found {
                None => Some(v),
                Some(x) => x,
            },
        };
        i = i + 1;
    }
    assert(slines.subrange(1, slines.len() as int) == slines.drop_first());
    match content_length {
        None => Err(RequestError::InvalidContentLength),
        Some(n) => Ok(RequestHead { method, path, content_length: n }),
    }
}


// ----- reading a request --------------------------------------------------

/// Position of the first blank line `\r\n\r\n` in `b`, if any.
pub open spec fn head_end(b: Seq<u8>) -> Option<nat>
    decreases b.len(),
{
    if b.len() < 4 {
        None
    } else if blank_line_at(b, 0) {
        Some(0)
    } else {
        match head_end(b.drop_first()) {
            Some(k) => Some(k + 1),
            None => None,
        }
    }
}

proof fn lemma_head_end_char(b: Seq<u8>, k: int)
    requires
        0 <= k,
        forall|j: int| 0 <= j < k ==> !#[trigger] blank_line_at(b, j),
        k + 4 > b.len() || blank_line_at(b, k),
    ensures
        k + 4 > b.len() && (forall|j: int| !#[trigger] blank_line_at(b, j)) ==> head_end(b) is None,
        blank_line_at(b, k) ==> head_end(b) == Some(k as nat),
    decreases b.len(),
{
    if b.len() >= 4 && !blank_line_at(b, 0) {
        let d = b.drop_first();
        assert forall|j: int| 0 <= j < k - 1 implies !#[trigger] blank_line_at(d, j) by {
            assert(!blank_line_at(b, j + 1));
            if blank_line_at(d, j) {
                assert(d[j] == b[j + 1] && d[j + 1] == b[j + 2] && d[j + 2] == b[j + 3] && d[j
                    + 3] == b[j + 4]);
            }
        }
        if k >= 1 {
            if blank_line_at(b, k) {
                assert(d[k - 1] == b[k] && d[k] == b[k + 1] && d[k + 1] == b[k + 2] && d[k + 2]
                    == b[k + 3]);
                assert(blank_line_at(d, k - 1));
            }
            lemma_head_end_char(d, k - 1);
            if k + 4 > b.len() && (forall|j: int| !#[trigger] blank_line_at(b, j)) {
                assert forall|j: int| !#[trigger] blank_line_at(d, j) by {
                    if blank_line_at(d, j) {
                        assert(d[j] == b[j + 1] && d[j + 1] == b[j + 2] && d[j + 2] == b[j + 3]
                            && d[j + 3] == b[j + 4]);
                        assert(blank_line_at(b, j + 1));
                    }
                }
            }
        }
    }
}

/// The blank line that `find_header_end` reports is the one `head_end` names.
proof fn lemma_find_header_end(b: Seq<u8>, r: Option<usize>)
    requires
        match r {
            Some(pos) => blank_line_at(b, pos as int) && forall|j: int|
                0 <= j < pos ==> !blank_line_at(b, j),
            None => forall|j: int| !blank_line_at(b, j),
        },
    ensures
        match r {
            Some(pos) => head_end(b) == Some(pos as nat),
            None => head_end(b) is None,
        },
{
    match r {
        Some(pos) => {
            lemma_head_end_char(b, pos as int);
        },
        None => {
            let k = if b.len() >= 4 {
                b.len() - 3
            } else {
                0
            };
            lemma_head_end_char(b, k);
        },
    }
}

/// A blank line that ends the head stays the first one as more bytes arrive.
proof fn lemma_head_end_extend(b: Seq<u8>, c: Seq<u8>)
    requires
        head_end(b) is Some,
    ensures
        head_end(b + c) == head_end(b),
    decreases b.len(),
{
    let bc = b + c;
    if !blank_line_at(b, 0) {
        assert(b.len() >= 4);
        assert(bc.drop_first() == b.drop_first() + c);
        lemma_head_end_extend(b.drop_first(), c);
        assert(!blank_line_at(bc, 0));
    } else {
        assert(blank_line_at(bc, 0));
    }
}

/// What the reader is handed: bytes (none when the peer closed), a timeout,
/// or a read error.
pub enum ReadEvent {
    Data(Vec<u8>),
    TimedOut,
    Failed(String),
}

pub enum ReadEventView {
    Data(Seq<u8>),
    TimedOut,
    Failed(Seq<char>),
}

impl View for ReadEvent {
    type V = ReadEventView;

    open spec fn view(&self) -> ReadEventView {
        match self {
            ReadEvent::Data(b) => ReadEventView::Data(b@),
            ReadEvent::TimedOut => ReadEventView::TimedOut,
            ReadEvent::Failed(e) => ReadEventView::Failed(e@),
        }
    }
}

/// What the reader decides after an event: read more, a request (or a
/// connection closed before it sent a byte), or an error.
pub enum ReadOutcome {
    Pending,
    Finished(Option<HttpRequest>),
    Failed(RequestError),
}

pub enum ReadOutcomeView {
    Pending,
    Finished(Option<HttpRequestView>),
    Failed(RequestErrorView),
}

impl View for ReadOutcome {
    type V = ReadOutcomeView;

    open spec fn view(&self) -> ReadOutcomeView {
        match self {
            ReadOutcome::Pending => ReadOutcomeView::Pending,
            ReadOutcome::Finished(None) => ReadOutcomeView::Finished(None),
            ReadOutcome::Finished(Some(r)) => ReadOutcomeView::Finished(Some(r@)),
            ReadOutcome::Failed(e) => ReadOutcomeView::Failed(e@),
        }
    }
}

/// The request made of the head before the blank line at `pos` and the
/// `content_length` bytes after it.
pub open spec fn spec_request(all: Seq<u8>, pos: nat, h: HeadView) -> HttpRequestView {
    HttpRequestView {
        method: h.method,
        path: h.path,
        body: all.skip(pos + 4 as int).take(h.content_length as int),
    }
}

/// What the reader decides once it knows the head ends at `pos`.
pub open spec fn spec_after_head(all: Seq<u8>, pos: nat) -> ReadOutcomeView {
    match spec_parse_head(all.take(pos as int)) {
        Err(e) => ReadOutcomeView::Failed(e),
        Ok(h) => if h.content_length > MAX_HTTP_REQUEST_BYTES {
            ReadOutcomeView::Failed(RequestErrorView::BodyTooLarge)
        } else if all.len() - (pos + 4) >= h.content_length {
            ReadOutcomeView::Finished(Some(spec_request(all, pos, h)))
        } else {
            ReadOutcomeView::Pending
        },
    }
}

/// What the reader decides when `chunk` arrives after `received` (an empty
/// chunk: the peer closed the connection).
pub open spec fn spec_feed_data(received: Seq<u8>, chunk: Seq<u8>) -> ReadOutcomeView {
    let all = received + chunk;
    match head_end(received) {
        None => if chunk.len() == 0 {
            if received.len() == 0 {
                ReadOutcomeView::Finished(None)
            } else {
                ReadOutcomeView::Failed(RequestErrorView::ClosedBeforeHeaders)
            }
        } else if all.len() > MAX_HTTP_REQUEST_BYTES {
            ReadOutcomeView::Failed(RequestErrorView::TooLarge)
        } else {
            match head_end(all) {
                None => ReadOutcomeView::Pending,
                Some(pos) => spec_after_head(all, pos),
            }
        },
        Some(pos) => if chunk.len() == 0 {
            ReadOutcomeView::Failed(RequestErrorView::ClosedBeforeBody)
        } else if all.len() - (pos + 4) > MAX_HTTP_REQUEST_BYTES {
            ReadOutcomeView::Failed(RequestErrorView::BodyTooLarge)
        } else {
            spec_after_head(all, pos)
        },
    }
}

/// What the reader decides on an event, given the bytes received so far.
pub open spec fn spec_feed(received: Seq<u8>, ev: ReadEventView) -> ReadOutcomeView {
    match ev {
        ReadEventView::Data(chunk) => spec_feed_data(received, chunk),
        ReadEventView::TimedOut => ReadOutcomeView::Failed(
            if head_end(received) is None {
                RequestErrorView::ReadTimedOut
            } else {
                RequestErrorView::BodyReadTimedOut
            },
        ),
        ReadEventView::Failed(e) => ReadOutcomeView::Failed(RequestErrorView::Io(e)),
    }
}

/// The bytes received so far still wait for more: no blank line yet within
/// the limit, or a complete, valid head whose body is not complete yet.
pub open spec fn awaiting_more(received: Seq<u8>) -> bool {
    match head_end(received) {
        None => received.len() <= MAX_HTTP_REQUEST_BYTES,
        Some(pos) => match spec_parse_head(received.take(pos as int)) {
            Ok(h) => h.content_length <= MAX_HTTP_REQUEST_BYTES && received.len() - (pos + 4)
                < h.content_length,
            Err(_) => false,
        },
    }
}

/// Reads one request from a stream of events.
pub struct RequestReader {
    buffer: Vec<u8>,
    head: Option<RequestHead>,
    header_end: usize,
    open: bool,
    received: Ghost<Seq<u8>>,
}

fn append_bytes(dst: &mut Vec<u8>, src: &[u8])
    ensures
        final(dst)@ == old(dst)@ + src@,
{
    let mut i: usize = 0;
    while i < src.len()
        invariant
            i <= src@.len(),
            dst@ == old(dst)@ + src@.take(i as int),
        decreases src@.len() - i,
    {
        dst.push(src[i]);
        assert(src@.take(i + 1) == src@.take(i as int).push(src@[i as int]));
        i = i + 1;
    }
    assert(src@.take(src@.len() as int) == src@);
}

fn sub_bytes(b: &Vec<u8>, lo: usize, hi: usize) -> (r: Vec<u8>)
    requires
        lo <= hi <= b@.len(),
    ensures
        r@ == b@.subrange(lo as int, hi as int),
{
    let mut r: Vec<u8> = Vec::new();
    let mut i = lo;
    while i < hi
        invariant
            lo <= i <= hi <= b@.len(),
            r@ == b@.subrange(lo as int, i as int),
        decreases hi - i,
    {
        r.push(b[i]);
        i = i + 1;
    }
    r
}

impl RequestReader {
    /// The bytes received so far.
    pub closed spec fn received(&self) -> Seq<u8> {
        self.received@
    }

    /// The reader still waits for events.
    pub closed spec fn is_open(&self) -> bool {
        self.open
    }

    pub closed spec fn wf(&self) -> bool {
        self.open ==> {
            &&& awaiting_more(self.received@)
            &&& match self.head {
                None => head_end(self.received@) is None && self.buffer@ == self.received@,
                Some(h) => {
                    &&& head_end(self.received@) == Some(self.header_end as nat)
                    &&& spec_parse_head(self.received@.take(self.header_end as int))
                        == Ok::<HeadView, RequestErrorView>(h@)
                    &&& self.buffer@ == self.received@.skip(self.header_end + 4)
                },
            }
        }
    }

    /// A reader that has received nothing yet.
    pub fn new() -> (r: Self)
        ensures
            r.wf(),
            r.is_open(),
            r.received() == Seq::<u8>::empty(),
    {
        RequestReader {
            buffer: Vec::new(),
            head: None,
            header_end: 0,
            open: true,
            received: Ghost(Seq::empty()),
        }
    }

    /// Decides on the head once it is known to end at `pos`.
    fn after_head(&mut self, pos: usize) -> (out: ReadOutcome)
        requires
            old(self).open,
            old(self).head is None,
            old(self).buffer@ == old(self).received@,
            head_end(old(self).received@) == Some(pos as nat),
        ensures
            out@ == spec_after_head(old(self).received@, pos as nat),
            final(self).received@ == old(self).received@,
            final(self).open == (out@ is Pending),
            final(self).wf(),
    {
        proof {
            lemma_head_end_bound(self.received@);
        }
        assert(blank_line_at(self.received@, pos as int));
        let n = self.buffer.len();
        assert(pos + 4 <= n);
        let body_start = pos + 4;
        let header = sub_bytes(&self.buffer, 0, pos);
        assert(header@ == self.received@.take(pos as int));
        let head = match parse_request_head(header.as_slice()) {
            Ok(h) => h,
            Err(e) => {
                self.open = false;
                return ReadOutcome::Failed(e);
            },
        };
        if head.content_length > MAX_HTTP_REQUEST_BYTES {
            self.open = false;
            return ReadOutcome::Failed(RequestError::BodyTooLarge);
        }
        let body = sub_bytes(&self.buffer, body_start, self.buffer.len());
        assert(body@ == self.received@.skip(pos + 4));
        if body.len() >= head.content_length {
            self.open = false;
            let mut b = body;
            b.truncate(head.content_length);
            ReadOutcome::Finished(Some(HttpRequest { method: head.method, path: head.path, body: b }))
        } else {
            self.buffer = body;
            self.header_end = pos;
            self.head = Some(head);
            ReadOutcome::Pending
        }
    }

    /// Takes one event and decides what follows: more reading, a request,
    /// or an error. The decision depends only on the bytes received so far
    /// and the event (`spec_feed`).
    pub fn feed(&mut self, ev: ReadEvent) -> (out: ReadOutcome)
        requires
            old(self).wf(),
            old(self).is_open(),
        ensures
            out@ == spec_feed(old(self).received(), ev@),
            final(self).wf(),
            final(self).is_open() == (out@ is Pending),
            final(self).is_open() ==> awaiting_more(final(self).received()),
            ev@ matches ReadEventView::Data(c) ==> final(self).received() == old(self).received()
                + c,
    {
        match ev {
            ReadEvent::TimedOut => {
                self.open = false;
                if self.head.is_none() {
                    ReadOutcome::Failed(RequestError::ReadTimedOut)
                } else {
                    ReadOutcome::Failed(RequestError::BodyReadTimedOut)
                }
            },
            ReadEvent::Failed(e) => {
                self.open = false;
                ReadOutcome::Failed(RequestError::Io(e))
            },
            ReadEvent::Data(chunk) => {
                let ghost old_received = self.received@;
                if self.head.is_none() {
                    if chunk.len() == 0 {
                        self.open = false;
                        assert(old_received + chunk@ == old_received);
                        if self.buffer.len() == 0 {
                            return ReadOutcome::Finished(None);
                        } else {
                            return ReadOutcome::Failed(RequestError::ClosedBeforeHeaders);
                        }
                    }
                    append_bytes(&mut self.buffer, chunk.as_slice());
                    self.received = Ghost(old_received + chunk@);
                    if self.buffer.len() > MAX_HTTP_REQUEST_BYTES {
                        self.open = false;
                        return ReadOutcome::Failed(RequestError::TooLarge);
                    }
                    let found = find_header_end(self.buffer.as_slice());
                    proof {
                        lemma_find_header_end(self.buffer@, found);
                    }
                    match found {
                        None => ReadOutcome::Pending,
                        Some(pos) => self.after_head(pos),
                    }
                } else {
                    let ghost pos = self.header_end;
                    if chunk.len() == 0 {
                        self.open = false;
                        assert(old_received + chunk@ == old_received);
                        return ReadOutcome::Failed(RequestError::ClosedBeforeBody);
                    }
                    append_bytes(&mut self.buffer, chunk.as_slice());
                    self.received = Ghost(old_received + chunk@);
                    proof {
                        lemma_head_end_extend(old_received, chunk@);
                        lemma_head_end_bound(old_received);
                        assert(self.received@.take(pos as int) == old_received.take(pos as int));
                        assert(self.received@.skip(pos + 4) == old_received.skip(pos + 4)
                            + chunk@);
                    }
                    if self.buffer.len() > MAX_HTTP_REQUEST_BYTES {
                        self.open = false;
                        return ReadOutcome::Failed(RequestError::BodyTooLarge);
                    }
                    let head = self.head.take().unwrap();
                    if self.buffer.len() >= head.content_length {
                        self.open = false;
                        let mut body = Vec::new();
                        std::mem::swap(&mut body, &mut self.buffer);
                        body.truncate(head.content_length);
                        ReadOutcome::Finished(
                            Some(HttpRequest { method: head.method, path: head.path, body }),
                        )
                    } else {
                        self.head = Some(head);
                        ReadOutcome::Pending
                    }
                }
            },
        }
    }
}

/// A request that the reader delivers is what the bytes say: its method and
/// path come from the bytes before the first blank line, and its body is the
/// `content-length` bytes that follow the blank line, no more and no less.
pub proof fn law_delivered_request(received: Seq<u8>, chunk: Seq<u8>)
    requires
        spec_feed_data(received, chunk) matches ReadOutcomeView::Finished(Some(_)),
    ensures
        ({
            let all = received + chunk;
            let req = spec_feed_data(received, chunk)->Finished_0->Some_0;
            &&& head_end(all) is Some
            &&& spec_parse_head(all.take(head_end(all)->Some_0 as int)) is Ok
            &&& {
                let pos = head_end(all)->Some_0;
                let h = spec_parse_head(all.take(pos as int))->Ok_0;
                &&& req.method == h.method
                &&& req.path == h.path
                &&& req.body == all.skip(pos + 4 as int).take(h.content_length as int)
                &&& req.body.len() == h.content_length
            }
        }),
{
    let all = received + chunk;
    if head_end(received) is Some {
        lemma_head_end_extend(received, chunk);
    }
    let pos = head_end(all)->Some_0;
    lemma_head_end_bound(all);
}

/// Within the size limit, how the bytes are split into reads does not
/// change what the reader decides: after a read that leaves it waiting,
/// feeding `b` gives what feeding `a` and `b` together would have given.
pub proof fn law_split_reads(received: Seq<u8>, a: Seq<u8>, b: Seq<u8>)
    requires
        a.len() > 0,
        b.len() > 0,
        received.len() + a.len() + b.len() <= MAX_HTTP_REQUEST_BYTES,
        spec_feed_data(received, a) is Pending,
    ensures
        spec_feed_data(received + a, b) == spec_feed_data(received, a + b),
{
    let all = received + a + b;
    assert(received + (a + b) == all);
    if head_end(received) is Some {
        lemma_head_end_extend(received, a);
        lemma_head_end_extend(received, a + b);
    } else if head_end(received + a) is Some {
        lemma_head_end_extend(received + a, b);
    }
}

proof fn lemma_head_end_bound(b: Seq<u8>)
    ensures
        head_end(b) matches Some(pos) ==> blank_line_at(b, pos as int),
    decreases b.len(),
{
    if b.len() >= 4 && !blank_line_at(b, 0) {
        let d = b.drop_first();
        lemma_head_end_bound(d);
        if let Some(kn) = head_end(d) {
            let k = kn as int;
            assert(d[k] == b[k + 1] && d[k + 1] == b[k + 2] && d[k + 2] == b[k + 3] && d[k
                + 3] == b[k + 4]);
        }
    }
}

} // verus!
