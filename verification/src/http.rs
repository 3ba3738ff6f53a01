//! HTTP responses as five byte fields (status-line opening, status code,
//! reason phrase, the blank line that ends the head, and the body), a
//! builder for them, and their bincode encoding into a byte buffer.
use vstd::prelude::*;

use crate::encoding::{
    lemma_slice_encoding_len, lemma_slice_encoding_prefix, slice_encoding, varint_len, write_slice,
};

verus! {

/// `HTTP/1.1 `, the opening of a status line, with its trailing space.
pub const HTTP_HEADER: [u8; 9] = [0x48, 0x54, 0x54, 0x50, 0x2f, 0x31, 0x2e, 0x31, 0x20];

/// `200`, the status code of a successful response.
pub const CODE: [u8; 3] = [0x32, 0x30, 0x30];

/// ` OK`, the reason phrase that follows the code `200`.
pub const OK_CODE: [u8; 3] = [0x20, 0x4f, 0x4b];

/// `\r\n\r\n`, the line ends that close the head of a response.
pub const START_SEQUENCE: [u8; 4] = [0x0d, 0x0a, 0x0d, 0x0a];

/// What a response or a builder holds, field by field.
pub struct ResponseParts {
    pub http_header: Seq<u8>,
    pub response_code: Seq<u8>,
    pub code_comment: Seq<u8>,
    pub start_sequence: Seq<u8>,
    pub data: Seq<u8>,
}

/// A `200 OK` response over HTTP/1.1 that carries `data`.
pub open spec fn default_parts(data: Seq<u8>) -> ResponseParts {
    ResponseParts {
        http_header: HTTP_HEADER@,
        response_code: CODE@,
        code_comment: OK_CODE@,
        start_sequence: START_SEQUENCE@,
        data,
    }
}

/// The bincode encoding of a response: its five fields in order, each as a byte slice.
pub open spec fn response_encoding(p: ResponseParts) -> Seq<u8> {
    slice_encoding(p.http_header) + slice_encoding(p.response_code) + slice_encoding(
        p.code_comment,
    ) + slice_encoding(p.start_sequence) + slice_encoding(p.data)
}

/// An HTTP response, held as borrowed byte fields.
pub struct HttpResponse<'a> {
    http_header: &'a [u8],
    response_code: &'a [u8],
    code_comment: &'a [u8],
    start_sequence: &'static [u8],
    data: &'a [u8],
}

impl<'a> View for HttpResponse<'a> {
    type V = ResponseParts;

    closed spec fn view(&self) -> ResponseParts {
        ResponseParts {
            http_header: self.http_header@,
            response_code: self.response_code@,
            code_comment: self.code_comment@,
            start_sequence: self.start_sequence@,
            data: self.data@,
        }
    }
}

impl<'a> HttpResponse<'a> {
    /// A `200 OK` response carrying `in_data`.
    pub fn new(in_data: &'a [u8]) -> (r: Self)
        ensures
            r@ == default_parts(in_data@),
    {
        Self {
            http_header: &HTTP_HEADER,
            response_code: &CODE,
            code_comment: &OK_CODE,
            start_sequence: &START_SEQUENCE,
            data: in_data,
        }
    }

    /// Writes the bincode encoding of this response at the start of `buffer`; the bytes after it
    /// keep their values.
    pub fn get_bytes(&self, buffer: &mut [u8])
        requires
            response_encoding(self@).len() <= old(buffer)@.len(),
        ensures
            final(buffer)@ == response_encoding(self@) + old(buffer)@.skip(
                response_encoding(self@).len() as int,
            ),
    {
        let ghost original = buffer@;
        let ghost p = self@;
        proof {
            lemma_slice_encoding_len(p.http_header);
            lemma_slice_encoding_len(p.response_code);
            lemma_slice_encoding_len(p.code_comment);
            lemma_slice_encoding_len(p.start_sequence);
            lemma_slice_encoding_len(p.data);
        }
        let pos0: usize = 0;
        let pos1: usize = match write_slice(self.http_header, buffer, pos0) {
            Some(end) => end,
            None => return ,
        };
        let pos2: usize = match write_slice(self.response_code, buffer, pos1) {
            Some(end) => end,
            None => return ,
        };
        let pos3: usize = match write_slice(self.code_comment, buffer, pos2) {
            Some(end) => end,
            None => return ,
        };
        let pos4: usize = match write_slice(self.start_sequence, buffer, pos3) {
            Some(end) => end,
            None => return ,
        };
        let pos5: usize = match write_slice(self.data, buffer, pos4) {
            Some(end) => end,
            None => return ,
        };
        assert(buffer@ =~= response_encoding(p) + original.skip(pos5 as int));
    }
}

/// Builds an [`HttpResponse`] field by field, starting from a `200 OK` response.
pub struct HttpResponseBuilder<'a> {
    http_header: &'a [u8],
    response_code: &'a [u8],
    code_comment: &'a [u8],
    start_sequence: &'static [u8],
    data: &'a [u8],
}

impl<'a> View for HttpResponseBuilder<'a> {
    type V = ResponseParts;

    closed spec fn view(&self) -> ResponseParts {
        ResponseParts {
            http_header: self.http_header@,
            response_code: self.response_code@,
            code_comment: self.code_comment@,
            start_sequence: self.start_sequence@,
            data: self.data@,
        }
    }
}

impl<'a> HttpResponseBuilder<'a> {
    /// A builder for a `200 OK` response carrying `in_data`.
    pub fn new(in_data: &'a [u8]) -> (r: Self)
        ensures
            r@ == default_parts(in_data@),
    {
        HttpResponseBuilder {
            http_header: &HTTP_HEADER,
            response_code: &CODE,
            code_comment: &OK_CODE,
            start_sequence: &START_SEQUENCE,
            data: in_data,
        }
    }

    /// Replaces the status-line opening.
    pub fn header(self, header: &'a [u8]) -> (r: HttpResponseBuilder<'a>)
        ensures
            r@ == (ResponseParts { http_header: header@, ..self@ }),
            r@ == apply_call(self@, BuilderCall::Header(header@)),
    {
        let mut b = self;
        b.http_header = header;
        b
    }

    /// Replaces the status code.
    pub fn code(self, code: &'a [u8]) -> (r: HttpResponseBuilder<'a>)
        ensures
            r@ == (ResponseParts { response_code: code@, ..self@ }),
            r@ == apply_call(self@, BuilderCall::Code(code@)),
    {
        let mut b = self;
        b.response_code = code;
        b
    }

    /// Replaces the reason phrase.
    pub fn code_comment(self, code_comment: &'a [u8]) -> (r: HttpResponseBuilder<'a>)
        ensures
            r@ == (ResponseParts { code_comment: code_comment@, ..self@ }),
            r@ == apply_call(self@, BuilderCall::CodeComment(code_comment@)),
    {
        let mut b = self;
        b.code_comment = code_comment;
        b
    }

    /// Replaces the body.
    pub fn data(self, data: &'a [u8]) -> (r: HttpResponseBuilder<'a>)
        ensures
            r@ == (ResponseParts { data: data@, ..self@ }),
            r@ == apply_call(self@, BuilderCall::Data(data@)),
    {
        let mut b = self;
        b.data = data;
        b
    }

    /// The response with the fields set so far.
    pub fn build(self) -> (r: HttpResponse<'a>)
        ensures
            r@ == self@,
    {
        HttpResponse {
            http_header: self.http_header,
            response_code: self.response_code,
            code_comment: self.code_comment,
            start_sequence: self.start_sequence,
            data: self.data,
        }
    }
}


/// Every field of `p` is short enough for a slice to hold it.
pub open spec fn parts_fit(p: ResponseParts) -> bool {
    &&& p.http_header.len() <= usize::MAX
    &&& p.response_code.len() <= usize::MAX
    &&& p.code_comment.len() <= usize::MAX
    &&& p.start_sequence.len() <= usize::MAX
    &&& p.data.len() <= usize::MAX
}

/// Number of bytes that the encoding of a field of `n` bytes takes.
pub open spec fn field_encoding_len(n: nat) -> nat {
    varint_len(n) + n
}

/// Size law: the encoding of a response takes, for each field, its length prefix and its bytes;
/// this is the room [`HttpResponse::get_bytes`] needs.
pub proof fn lemma_response_encoding_len(p: ResponseParts)
    ensures
        response_encoding(p).len() == field_encoding_len(p.http_header.len()) + field_encoding_len(
            p.response_code.len(),
        ) + field_encoding_len(p.code_comment.len()) + field_encoding_len(p.start_sequence.len())
            + field_encoding_len(p.data.len()),
{
    lemma_slice_encoding_len(p.http_header);
    lemma_slice_encoding_len(p.response_code);
    lemma_slice_encoding_len(p.code_comment);
    lemma_slice_encoding_len(p.start_sequence);
    lemma_slice_encoding_len(p.data);
}

/// Layout law: a `200 OK` response whose body is shorter than 251 bytes is encoded as each field
/// preceded by its length in one byte: `9 HTTP/1.1␠ 3 200 3 ␠OK 4 \r\n\r\n n body`.
pub proof fn lemma_default_encoding(data: Seq<u8>)
    requires
        data.len() <= 250,
    ensures
        response_encoding(default_parts(data)) == seq![9u8] + HTTP_HEADER@ + seq![3u8] + CODE@
            + seq![3u8] + OK_CODE@ + seq![4u8] + START_SEQUENCE@ + seq![data.len() as u8] + data,
{
    assert(response_encoding(default_parts(data)) =~= seq![9u8] + HTTP_HEADER@ + seq![3u8]
        + CODE@ + seq![3u8] + OK_CODE@ + seq![4u8] + START_SEQUENCE@ + seq![data.len() as u8]
        + data);
}

/// Decoding law: the encoding of a response determines the response: two responses with the same
/// encoding have the same five fields.
pub proof fn lemma_response_encoding_injective(p: ResponseParts, q: ResponseParts)
    requires
        parts_fit(p),
        parts_fit(q),
        response_encoding(p) == response_encoding(q),
    ensures
        p == q,
{
    let tp4 = slice_encoding(p.data);
    let tq4 = slice_encoding(q.data);
    let tp3 = slice_encoding(p.start_sequence) + tp4;
    let tq3 = slice_encoding(q.start_sequence) + tq4;
    let tp2 = slice_encoding(p.code_comment) + tp3;
    let tq2 = slice_encoding(q.code_comment) + tq3;
    let tp1 = slice_encoding(p.response_code) + tp2;
    let tq1 = slice_encoding(q.response_code) + tq2;
    assert(response_encoding(p) =~= slice_encoding(p.http_header) + tp1);
    assert(response_encoding(q) =~= slice_encoding(q.http_header) + tq1);
    lemma_slice_encoding_prefix(p.http_header, tp1, q.http_header, tq1);
    lemma_slice_encoding_prefix(p.response_code, tp2, q.response_code, tq2);
    lemma_slice_encoding_prefix(p.code_comment, tp3, q.code_comment, tq3);
    lemma_slice_encoding_prefix(p.start_sequence, tp4, q.start_sequence, tq4);
    assert(tp4 =~= slice_encoding(p.data) + Seq::<u8>::empty());
    assert(tq4 =~= slice_encoding(q.data) + Seq::<u8>::empty());
    lemma_slice_encoding_prefix(p.data, Seq::<u8>::empty(), q.data, Seq::<u8>::empty());
}

/// One call of a builder setter, with the bytes it was given.
pub enum BuilderCall {
    Header(Seq<u8>),
    Code(Seq<u8>),
    CodeComment(Seq<u8>),
    Data(Seq<u8>),
}

/// What a builder holds after the setter call `c`, when it held `p` before.
pub open spec fn apply_call(p: ResponseParts, c: BuilderCall) -> ResponseParts {
    match c {
        BuilderCall::Header(h) => ResponseParts { http_header: h, ..p },
        BuilderCall::Code(h) => ResponseParts { response_code: h, ..p },
        BuilderCall::CodeComment(h) => ResponseParts { code_comment: h, ..p },
        BuilderCall::Data(h) => ResponseParts { data: h, ..p },
    }
}

/// What a builder holds after the setter calls `calls`, in order, when it held `p` before.
pub open spec fn apply_calls(p: ResponseParts, calls: Seq<BuilderCall>) -> ResponseParts
    decreases calls.len(),
{
    if calls.len() == 0 {
        p
    } else {
        apply_calls(apply_call(p, calls[0]), calls.drop_first())
    }
}

/// Start-sequence law: no chain of setter calls changes the blank line that ends the head, so a
/// response built from [`HttpResponseBuilder::new`] through any setters ends its head with
/// `\r\n\r\n`.
pub proof fn lemma_start_sequence_kept(data: Seq<u8>, p: ResponseParts, calls: Seq<BuilderCall>)
    ensures
        apply_calls(p, calls).start_sequence == p.start_sequence,
        apply_calls(default_parts(data), calls).start_sequence == START_SEQUENCE@,
    decreases calls.len(),
{
    if calls.len() > 0 {
        lemma_start_sequence_kept(data, apply_call(p, calls[0]), calls.drop_first());
        lemma_start_sequence_kept(
            data,
            apply_call(default_parts(data), calls[0]),
            calls.drop_first(),
        );
    }
}

} // verus!
