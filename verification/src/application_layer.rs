//! What the server answers to an HTTP request: the request is parsed with
//! httparse, its method picks the page, and the answer is the bytes to send
//! back on the socket.
use vstd::prelude::*;
use vstd::string::StringSliceAdditionalSpecFns;

verus! {

/// What can go wrong while answering a request.
#[derive(Debug, Clone, Copy, PartialEq, Eq, Structural)]
pub enum ApplicationError {
    MethodUnknown,
    RequestParsing,
    RequestUnkown,
    RequestHandling,
    RequestNotImplemented,
    SocketError,
}

/// Number of header slots handed to the request parser.
pub const HEADER_BUFFER_SIZE: usize = 128;

/// Size of the answer to a `GET` or a `POST`; the page is padded with zero bytes up to it.
pub const ANSWER_SIZE: usize = 512;

/// `HTTP/1.1`
pub const HTTP_VERSION: [u8; 8] = [0x48, 0x54, 0x54, 0x50, 0x2f, 0x31, 0x2e, 0x31];

/// ` 200 OK`
pub const OK_STATUS: [u8; 7] = [0x20, 0x32, 0x30, 0x30, 0x20, 0x4f, 0x4b];

/// `\r\n\r\n`
pub const HEAD_END: [u8; 4] = [0x0d, 0x0a, 0x0d, 0x0a];

/// `<html><body><h1>GET!</h1></body></html>\r\n`
pub const GET_PAGE: [u8; 41] = [
    0x3c, 0x68, 0x74, 0x6d, 0x6c, 0x3e, 0x3c, 0x62, 0x6f, 0x64, 0x79, 0x3e, 0x3c, 0x68, 0x31,
    0x3e, 0x47, 0x45, 0x54, 0x21, 0x3c, 0x2f, 0x68, 0x31, 0x3e, 0x3c, 0x2f, 0x62, 0x6f, 0x64,
    0x79, 0x3e, 0x3c, 0x2f, 0x68, 0x74, 0x6d, 0x6c, 0x3e, 0x0d, 0x0a,
];

/// `<html><body><h1>POST!</h1></body></html>\r\n`
pub const POST_PAGE: [u8; 42] = [
    0x3c, 0x68, 0x74, 0x6d, 0x6c, 0x3e, 0x3c, 0x62, 0x6f, 0x64, 0x79, 0x3e, 0x3c, 0x68, 0x31,
    0x3e, 0x50, 0x4f, 0x53, 0x54, 0x21, 0x3c, 0x2f, 0x68, 0x31, 0x3e, 0x3c, 0x2f, 0x62, 0x6f,
    0x64, 0x79, 0x3e, 0x3c, 0x2f, 0x68, 0x74, 0x6d, 0x6c, 0x3e, 0x0d, 0x0a,
];

/// ` 400 Bad Request\r\n\r\n<html><body><h1>BAD REQUEST!</h1></body></html>\r\n`
pub const BAD_REQUEST: [u8; 69] = [
    0x20, 0x34, 0x30, 0x30, 0x20, 0x42, 0x61, 0x64, 0x20, 0x52, 0x65, 0x71, 0x75, 0x65, 0x73,
    0x74, 0x0d, 0x0a, 0x0d, 0x0a, 0x3c, 0x68, 0x74, 0x6d, 0x6c, 0x3e, 0x3c, 0x62, 0x6f, 0x64,
    0x79, 0x3e, 0x3c, 0x68, 0x31, 0x3e, 0x42, 0x41, 0x44, 0x20, 0x52, 0x45, 0x51, 0x55, 0x45,
    0x53, 0x54, 0x21, 0x3c, 0x2f, 0x68, 0x31, 0x3e, 0x3c, 0x2f, 0x62, 0x6f, 0x64, 0x79, 0x3e,
    0x3c, 0x2f, 0x68, 0x74, 0x6d, 0x6c, 0x3e, 0x0d, 0x0a,
];

/// `GET`
pub const GET_METHOD: [u8; 3] = [0x47, 0x45, 0x54];

/// `POST`
pub const POST_METHOD: [u8; 4] = [0x50, 0x4f, 0x53, 0x54];

/// How far the request parser got.
#[derive(Debug, Clone, Copy, PartialEq, Eq, Structural)]
pub enum RequestStatus {
    /// The head is complete; the body starts at this offset.
    Complete(usize),
    /// The bytes end before the head does.
    Partial,
    /// The bytes are not an HTTP request head.
    Invalid,
}

/// The answer to a `GET` or `POST`: status line `HTTP/1.1 200 OK`, the empty line, `page`, then
/// zero bytes up to [`ANSWER_SIZE`].
pub open spec fn ok_answer(page: Seq<u8>) -> Seq<u8> {
    let head = HTTP_VERSION@ + OK_STATUS@ + HEAD_END@ + page;
    head + Seq::new((ANSWER_SIZE - head.len()) as nat, |i: int| 0u8)
}

/// The answer to a request without a method: `HTTP/1.1 400 Bad Request` and its page.
pub open spec fn bad_request_answer() -> Seq<u8> {
    HTTP_VERSION@ + BAD_REQUEST@
}

/// What is answered to a request with this method.
pub open spec fn method_answer(method: Seq<u8>) -> Result<Seq<u8>, ApplicationError> {
    if method == GET_METHOD@ {
        Ok(ok_answer(GET_PAGE@))
    } else if method == POST_METHOD@ {
        Ok(ok_answer(POST_PAGE@))
    } else {
        Err(ApplicationError::RequestNotImplemented)
    }
}

/// What is answered to a request once the parser has reported `status` and `method`.
pub open spec fn request_answer(status: RequestStatus, method: Option<Seq<u8>>) -> Result<
    Seq<u8>,
    ApplicationError,
> {
    match status {
        RequestStatus::Invalid => Err(ApplicationError::RequestParsing),
        _ => match method {
            Some(m) => method_answer(m),
            None => Ok(bad_request_answer()),
        },
    }
}

/// A byte of a method name as this server's clients send it: an upper-case ASCII letter.
pub open spec fn is_method_byte(b: u8) -> bool {
    0x41 <= b <= 0x5a
}

/// A byte of a request target: a visible ASCII character.
pub open spec fn is_target_byte(b: u8) -> bool {
    0x21 <= b <= 0x7e
}

/// A byte of a header name: an ASCII letter, digit or `-`.
pub open spec fn is_header_name_byte(b: u8) -> bool {
    (0x41 <= b <= 0x5a) || (0x61 <= b <= 0x7a) || (0x30 <= b <= 0x39) || b == 0x2d
}

/// A byte of a header value: a visible ASCII character.
pub open spec fn is_header_value_byte(b: u8) -> bool {
    0x21 <= b <= 0x7e
}

/// One header line of a request head.
pub struct HeaderLine {
    pub name: Seq<u8>,
    pub value: Seq<u8>,
}

/// A header line with a non-empty name and a non-empty value made of the bytes above.
pub open spec fn header_line_ok(h: HeaderLine) -> bool {
    &&& h.name.len() > 0
    &&& forall|i: int| 0 <= i < h.name.len() ==> is_header_name_byte(#[trigger] h.name[i])
    &&& h.value.len() > 0
    &&& forall|i: int| 0 <= i < h.value.len() ==> is_header_value_byte(#[trigger] h.value[i])
}

/// `\r\n`
pub open spec fn crlf() -> Seq<u8> {
    seq![0x0du8, 0x0au8]
}

/// The bytes of a header line: `name: value\r\n`.
pub open spec fn header_line_bytes(h: HeaderLine) -> Seq<u8> {
    h.name + seq![0x3au8, 0x20u8] + h.value + crlf()
}

/// The bytes of a list of header lines, in order.
pub open spec fn header_lines_bytes(hs: Seq<HeaderLine>) -> Seq<u8>
    decreases hs.len(),
{
    if hs.len() == 0 {
        seq![]
    } else {
        header_line_bytes(hs[0]) + header_lines_bytes(hs.drop_first())
    }
}

/// The parts of an HTTP/1.1 request head.
pub struct RequestHead {
    pub method: Seq<u8>,
    pub target: Seq<u8>,
    pub headers: Seq<HeaderLine>,
}

/// The bytes of an HTTP/1.1 request head: `METHOD target HTTP/1.1\r\n`, the header lines, then
/// the empty line.
pub open spec fn request_head(h: RequestHead) -> Seq<u8> {
    h.method + seq![0x20u8] + h.target + seq![0x20u8] + HTTP_VERSION@ + crlf()
        + header_lines_bytes(h.headers) + crlf()
}

/// The parts of a request head are well formed: a non-empty upper-case method, a non-empty
/// target of visible characters, and well-formed header lines.
pub open spec fn request_head_ok(h: RequestHead) -> bool {
    &&& h.method.len() > 0
    &&& forall|i: int| 0 <= i < h.method.len() ==> is_method_byte(#[trigger] h.method[i])
    &&& h.target.len() > 0
    &&& forall|i: int| 0 <= i < h.target.len() ==> is_target_byte(#[trigger] h.target[i])
    &&& forall|i: int| 0 <= i < h.headers.len() ==> header_line_ok(#[trigger] h.headers[i])
}

/// `buf` starts with the well-formed request head `h`, which has at most `max_headers` header
/// lines.
pub open spec fn starts_with_head(buf: Seq<u8>, h: RequestHead, max_headers: usize) -> bool {
    &&& request_head_ok(h)
    &&& h.headers.len() <= max_headers
    &&& request_head(h).len() <= buf.len()
    &&& buf.take(request_head(h).len() as int) == request_head(h)
}

/// A parser verdict (`status`, `method`) on `buf` with `max_headers` header slots that treats a
/// well-formed head at the start of `buf` as a complete head with its method.
pub open spec fn parses_heads(
    buf: Seq<u8>,
    max_headers: usize,
    status: RequestStatus,
    method: Option<Seq<u8>>,
) -> bool {
    forall|h: RequestHead|
        #[trigger] starts_with_head(buf, h, max_headers) ==> status == RequestStatus::Complete(
            request_head(h).len() as usize,
        ) && method == Some(h.method)
}

/// The request parser's verdict on `buf` with `max_headers` header slots: how far it got, and
/// the bytes of the method it read, if it got that far.
pub uninterp spec fn httparse_request(buf: Seq<u8>, max_headers: usize) -> (
    RequestStatus,
    Option<Seq<u8>>,
);

/// Calls `httparse::Request::parse` on `buf`, with a request given `max_headers` empty header
/// slots, and reports the status it returned (`Complete`, `Partial`, or an error) together with
/// the request's `method` field afterwards. The contract names that pair `httparse_request` and
/// claims three facts the parser's source shows: a complete head ends within `buf`; a complete
/// head has a method; and a well-formed HTTP/1.1 request head (upper-case method, target of
/// visible characters, `name: value` header lines) with at most `max_headers` header lines, at
/// the start of `buf`, parses as complete at the end of the head, with its method. The header
/// slots run out only on a header line past the `max_headers`-th.
#[verifier::external_body]
fn parse_request<'b>(buf: &'b [u8], max_headers: usize) -> (r: (RequestStatus, Option<&'b str>))
    ensures
        r.0 == httparse_request(buf@, max_headers).0,
        match r.1 {
            Some(m) => httparse_request(buf@, max_headers).1 == Some(m.spec_bytes()),
            None => httparse_request(buf@, max_headers).1 is None,
        },
        r.0 matches RequestStatus::Complete(n) ==> n <= buf@.len() && r.1 is Some,
        parses_heads(
            buf@,
            max_headers,
            r.0,
            match r.1 {
                Some(m) => Some(m.spec_bytes()),
                None => None,
            },
        ),
{
    let mut headers = vec![httparse::EMPTY_HEADER; max_headers];
    let mut request = httparse::Request::new(&mut headers);
    let status = match request.parse(buf) {
        Ok(httparse::Status::Complete(n)) => RequestStatus::Complete(n),
        Ok(httparse::Status::Partial) => RequestStatus::Partial,
        Err(_) => RequestStatus::Invalid,
    };
    (status, request.method)
}

/// Whether two byte strings are equal.
pub fn bytes_equal(a: &[u8], b: &[u8]) -> (r: bool)
    ensures
        r == (a@ == b@),
{
    if a.len() != b.len() {
        return false;
    }
    let mut i: usize = 0;
    while i < a.len()
        invariant
            a@.len() == b@.len(),
            i <= a@.len(),
            forall|j: int| 0 <= j < i ==> a@[j] == b@[j],
        decreases a@.len() - i,
    {
        if a[i] != b[i] {
            return false;
        }
        i = i + 1;
    }
    assert(a@ =~= b@);
    true
}

/// The answer to a `GET`: the GET page in a `200 OK` answer of [`ANSWER_SIZE`] bytes.
pub fn handle_get(_body_buf: &[u8]) -> (r: Vec<u8>)
    ensures
        r@ == ok_answer(GET_PAGE@),
{
    ok_answer_with(&GET_PAGE)
}

/// The answer to a `POST`: the POST page in a `200 OK` answer of [`ANSWER_SIZE`] bytes.
pub fn handle_post(_body_buf: &[u8]) -> (r: Vec<u8>)
    ensures
        r@ == ok_answer(POST_PAGE@),
{
    ok_answer_with(&POST_PAGE)
}

fn ok_answer_with(page: &[u8]) -> (r: Vec<u8>)
    requires
        HTTP_VERSION@.len() + OK_STATUS@.len() + HEAD_END@.len() + page@.len() <= ANSWER_SIZE,
    ensures
        r@ == ok_answer(page@),
{
    let mut answer: Vec<u8> = Vec::with_capacity(ANSWER_SIZE);
    answer.extend_from_slice(&HTTP_VERSION);
    answer.extend_from_slice(&OK_STATUS);
    answer.extend_from_slice(&HEAD_END);
    answer.extend_from_slice(page);
    let ghost head = answer@;
    assert(head =~= HTTP_VERSION@ + OK_STATUS@ + HEAD_END@ + page@);
    while answer.len() < ANSWER_SIZE
        invariant
            head.len() <= answer@.len() <= ANSWER_SIZE,
            answer@.take(head.len() as int) == head,
            forall|j: int| head.len() <= j < answer@.len() ==> answer@[j] == 0u8,
        decreases ANSWER_SIZE - answer@.len(),
    {
        answer.push(0u8);
    }
    assert(answer@ =~= ok_answer(page@));
    answer
}

/// The answer to a request whose method is `method`: the GET or POST page, or
/// `RequestNotImplemented` for any other method.
pub fn handle_method(method: &str, body_buf: &[u8]) -> (r: Result<Vec<u8>, ApplicationError>)
    ensures
        match (r, method_answer(method.spec_bytes())) {
            (Ok(v), Ok(s)) => v@ == s,
            (Err(e), Err(f)) => e == f,
            _ => false,
        },
{
    let m = method.as_bytes();
    if bytes_equal(m, &GET_METHOD) {
        Ok(handle_get(body_buf))
    } else if bytes_equal(m, &POST_METHOD) {
        Ok(handle_post(body_buf))
    } else {
        Err(ApplicationError::RequestNotImplemented)
    }
}

/// The answer to a request without a method: `HTTP/1.1 400 Bad Request` with its page.
pub fn bad_request() -> (r: Vec<u8>)
    ensures
        r@ == bad_request_answer(),
{
    let mut answer: Vec<u8> = Vec::new();
    answer.extend_from_slice(&HTTP_VERSION);
    answer.extend_from_slice(&BAD_REQUEST);
    assert(answer@ =~= bad_request_answer());
    answer
}

/// The answer to the request in `buf`, given what the parser reported on it: `RequestParsing`
/// when it found no request head; the bad-request answer when it read no method; otherwise the
/// answer to the method, with the body taken from the end of the head on (from the start of `buf`
/// when the head is incomplete).
pub fn respond(status: RequestStatus, method: Option<&str>, buf: &[u8]) -> (r: Result<
    Vec<u8>,
    ApplicationError,
>)
    requires
        status matches RequestStatus::Complete(n) ==> n <= buf@.len(),
    ensures
        match (
            r,
            request_answer(
                status,
                match method {
                    Some(m) => Some(m.spec_bytes()),
                    None => None,
                },
            ),
        ) {
            (Ok(v), Ok(s)) => v@ == s,
            (Err(e), Err(f)) => e == f,
            _ => false,
        },
{
    let body_idx: usize = match status {
        RequestStatus::Complete(n) => n,
        RequestStatus::Partial => 0,
        RequestStatus::Invalid => return Err(ApplicationError::RequestParsing),
    };
    match method {
        Some(m) => handle_method(m, vstd::slice::slice_subrange(buf, body_idx, buf.len())),
        None => Ok(bad_request()),
    }
}

/// The answer to the request in `buf`, as the bytes to send back, or the error that stops it.
/// A well-formed HTTP/1.1 request head with at most [`HEADER_BUFFER_SIZE`] header lines at the
/// start of `buf` is answered as its method says: the GET or POST page, or `RequestNotImplemented`.
pub fn handle_request(buf: &[u8]) -> (r: Result<Vec<u8>, ApplicationError>)
    ensures
        match (
            r,
            request_answer(
                httparse_request(buf@, HEADER_BUFFER_SIZE).0,
                httparse_request(buf@, HEADER_BUFFER_SIZE).1,
            ),
        ) {
            (Ok(v), Ok(s)) => v@ == s,
            (Err(e), Err(f)) => e == f,
            _ => false,
        },
        forall|h: RequestHead|
            #[trigger] starts_with_head(buf@, h, HEADER_BUFFER_SIZE) ==> match (
                r,
                method_answer(h.method),
            ) {
                (Ok(v), Ok(s)) => v@ == s,
                (Err(e), Err(f)) => e == f,
                _ => false,
            },
{
    let (status, method) = parse_request(buf, HEADER_BUFFER_SIZE);
    respond(status, method, buf)
}


/// Answer-shape law: the answer to a `GET` or a `POST` is always [`ANSWER_SIZE`] bytes: the status
/// line `HTTP/1.1 200 OK`, the empty line, the page, then zero bytes.
pub proof fn lemma_ok_answer_shape(page: Seq<u8>)
    requires
        page.len() <= ANSWER_SIZE - 19,
    ensures
        ok_answer(page).len() == ANSWER_SIZE,
        ok_answer(page).take(19) == HTTP_VERSION@ + OK_STATUS@ + HEAD_END@,
        ok_answer(page).subrange(19, 19 + page.len() as int) == page,
        forall|i: int| 19 + page.len() <= i < ANSWER_SIZE ==> #[trigger] ok_answer(page)[i] == 0u8,
{
    let head = HTTP_VERSION@ + OK_STATUS@ + HEAD_END@ + page;
    assert(head.len() == 19 + page.len());
    assert(ok_answer(page).take(19) =~= HTTP_VERSION@ + OK_STATUS@ + HEAD_END@);
    assert(ok_answer(page).subrange(19, 19 + page.len() as int) =~= page);
}

/// Dispatch law: a request is refused with `RequestParsing` exactly when the parser found no
/// request head, and with `RequestNotImplemented` exactly when it read a method other than `GET`
/// and `POST`; every other request is answered, with a bad request when no method was read.
pub proof fn lemma_request_answer_cases(status: RequestStatus, method: Option<Seq<u8>>)
    ensures
        request_answer(status, method) == Err::<Seq<u8>, ApplicationError>(
            ApplicationError::RequestParsing,
        ) <==> status == RequestStatus::Invalid,
        request_answer(status, method) == Err::<Seq<u8>, ApplicationError>(
            ApplicationError::RequestNotImplemented,
        ) <==> (status != RequestStatus::Invalid && (method matches Some(m) && m != GET_METHOD@
            && m != POST_METHOD@)),
        request_answer(status, method) == Ok::<Seq<u8>, ApplicationError>(bad_request_answer())
            <==> (status != RequestStatus::Invalid && method is None),
{
    lemma_ok_answer_shape(GET_PAGE@);
    lemma_ok_answer_shape(POST_PAGE@);
    assert(bad_request_answer().len() == 77);
}


/// Method law: `GET` is answered with the GET page, `POST` with the POST page, in a `200 OK`
/// answer, and any other method is refused as not implemented.
pub proof fn lemma_method_answer(method: Seq<u8>)
    ensures
        method == seq![0x47u8, 0x45u8, 0x54u8] ==> method_answer(method) == Ok::<
            Seq<u8>,
            ApplicationError,
        >(ok_answer(GET_PAGE@)),
        method == seq![0x50u8, 0x4fu8, 0x53u8, 0x54u8] ==> method_answer(method) == Ok::<
            Seq<u8>,
            ApplicationError,
        >(ok_answer(POST_PAGE@)),
        method != seq![0x47u8, 0x45u8, 0x54u8] && method != seq![0x50u8, 0x4fu8, 0x53u8, 0x54u8]
            ==> method_answer(method) == Err::<Seq<u8>, ApplicationError>(
            ApplicationError::RequestNotImplemented,
        ),
{
    assert(GET_METHOD@ =~= seq![0x47u8, 0x45u8, 0x54u8]);
    assert(POST_METHOD@ =~= seq![0x50u8, 0x4fu8, 0x53u8, 0x54u8]);
}

} // verus!
