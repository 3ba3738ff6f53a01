use http_node::encoding::write_slice;
use http_node::http::{HttpResponse, HttpResponseBuilder};

fn encode(response: &HttpResponse<'_>, size: usize) -> Vec<u8> {
    let mut buffer = vec![0xaau8; size];
    response.get_bytes(&mut buffer);
    buffer
}

fn default_encoding(data: &[u8]) -> Vec<u8> {
    let mut expected = vec![9u8];
    expected.extend_from_slice(b"HTTP/1.1 ");
    expected.push(3);
    expected.extend_from_slice(b"200");
    expected.push(3);
    expected.extend_from_slice(b" OK");
    expected.push(4);
    expected.extend_from_slice(b"\r\n\r\n");
    expected.push(data.len() as u8);
    expected.extend_from_slice(data);
    expected
}

#[test]
fn new_response_encodes_default_fields() {
    let response = HttpResponse::new(b"hello");
    let bytes = encode(&response, 64);
    let expected = default_encoding(b"hello");
    assert_eq!(&bytes[..expected.len()], &expected[..]);
    assert!(bytes[expected.len()..].iter().all(|b| *b == 0xaa));
}

#[test]
fn get_bytes_fills_an_exact_buffer() {
    let response = HttpResponse::new(b"");
    let expected = default_encoding(b"");
    assert_eq!(expected.len(), 24);
    assert_eq!(encode(&response, expected.len()), expected);
}

#[test]
fn fresh_builder_builds_the_new_response() {
    let built = HttpResponseBuilder::new(b"page").build();
    assert_eq!(encode(&built, 40), encode(&HttpResponse::new(b"page"), 40));
}

#[test]
fn builder_replaces_each_field() {
    let response = HttpResponseBuilder::new(b"old")
        .header(b"HTTP/1.0 ")
        .code(b"404")
        .code_comment(b" Not Found")
        .data(b"x")
        .build();
    let mut expected = vec![9u8];
    expected.extend_from_slice(b"HTTP/1.0 ");
    expected.push(3);
    expected.extend_from_slice(b"404");
    expected.push(10);
    expected.extend_from_slice(b" Not Found");
    expected.push(4);
    expected.extend_from_slice(b"\r\n\r\n");
    expected.push(1);
    expected.extend_from_slice(b"x");
    assert_eq!(encode(&response, expected.len()), expected);
}

#[test]
fn last_setter_call_wins() {
    let response = HttpResponseBuilder::new(b"a").data(b"b").data(b"cd").build();
    assert_eq!(encode(&response, 30), default_encoding(b"cd").into_iter().chain(std::iter::repeat(0xaa)).take(30).collect::<Vec<u8>>());
}

#[test]
fn long_body_gets_a_three_byte_length() {
    let body = vec![7u8; 300];
    let response = HttpResponse::new(&body);
    let bytes = encode(&response, 400);
    let head = 10 + 4 + 4 + 5;
    assert_eq!(bytes[head], 251);
    assert_eq!(bytes[head + 1], 44);
    assert_eq!(bytes[head + 2], 1);
    assert!(bytes[head + 3..head + 303].iter().all(|b| *b == 7));
    assert!(bytes[head + 303..].iter().all(|b| *b == 0xaa));
}

#[test]
fn write_slice_reports_the_end_of_what_it_wrote() {
    let mut dst = [0u8; 8];
    assert_eq!(write_slice(b"abc", &mut dst, 2), Some(6));
    assert_eq!(dst, [0, 0, 3, b'a', b'b', b'c', 0, 0]);
}

#[test]
fn write_slice_refuses_what_does_not_fit() {
    let mut dst = [0u8; 4];
    assert_eq!(write_slice(b"abcd", &mut dst, 0), None);
    assert_eq!(write_slice(b"", &mut dst, 4), None);
    assert_eq!(write_slice(b"", &mut dst, 3), Some(4));
}

#[test]
fn length_prefixes_keep_fields_apart() {
    let a = HttpResponseBuilder::new(b"").header(b"ab").build();
    let b = HttpResponseBuilder::new(b"b").header(b"a").build();
    let size = 40;
    assert_ne!(encode(&a, size), encode(&b, size));
}

#[test]
fn very_long_body_gets_a_five_byte_length() {
    let body = vec![1u8; 70_000];
    let response = HttpResponse::new(&body);
    let bytes = encode(&response, 70_100);
    let head = 23;
    assert_eq!(&bytes[head..head + 5], &[252, 0x70, 0x11, 0x01, 0x00]);
    assert!(bytes[head + 5..head + 5 + 70_000].iter().all(|b| *b == 1));
    assert!(bytes[head + 5 + 70_000..].iter().all(|b| *b == 0xaa));
}

#[test]
fn setter_chains_keep_the_start_sequence() {
    let response = HttpResponseBuilder::new(b"a")
        .data(b"b")
        .code(b"500")
        .header(b"X")
        .code_comment(b" Err")
        .code(b"201")
        .data(b"")
        .build();
    let bytes = encode(&response, 64);
    let mut expected = vec![1u8, b'X', 3];
    expected.extend_from_slice(b"201");
    expected.push(4);
    expected.extend_from_slice(b" Err");
    expected.push(4);
    expected.extend_from_slice(b"\r\n\r\n");
    expected.push(0);
    assert_eq!(&bytes[..expected.len()], &expected[..]);
}
