use http_node::application_layer::{
    bad_request, bytes_equal, handle_get, handle_method, handle_post, handle_request, respond,
    ApplicationError, RequestStatus, ANSWER_SIZE,
};

fn ok_answer(page: &[u8]) -> Vec<u8> {
    let mut v = b"HTTP/1.1 200 OK\r\n\r\n".to_vec();
    v.extend_from_slice(page);
    v.resize(ANSWER_SIZE, 0);
    v
}

const GET_PAGE: &[u8] = b"<html><body><h1>GET!</h1></body></html>\r\n";
const POST_PAGE: &[u8] = b"<html><body><h1>POST!</h1></body></html>\r\n";
const BAD: &[u8] =
    b"HTTP/1.1 400 Bad Request\r\n\r\n<html><body><h1>BAD REQUEST!</h1></body></html>\r\n";

#[test]
fn get_request_gets_the_get_page() {
    let answer = handle_request(b"GET / HTTP/1.1\r\nHost: x\r\n\r\n").unwrap();
    assert_eq!(answer.len(), 512);
    assert_eq!(answer, ok_answer(GET_PAGE));
}

#[test]
fn post_request_gets_the_post_page() {
    let answer = handle_request(b"POST /form HTTP/1.1\r\nContent-Length: 3\r\n\r\nabc").unwrap();
    assert_eq!(answer, ok_answer(POST_PAGE));
}

#[test]
fn other_method_is_not_implemented() {
    assert_eq!(
        handle_request(b"PUT / HTTP/1.1\r\n\r\n"),
        Err(ApplicationError::RequestNotImplemented)
    );
}

#[test]
fn garbage_is_a_parsing_error() {
    assert_eq!(handle_request(b"\x01\x02 / HTTP/1.1\r\n\r\n"), Err(ApplicationError::RequestParsing));
}

#[test]
fn too_many_headers_is_a_parsing_error() {
    let mut request = b"GET / HTTP/1.1\r\n".to_vec();
    for i in 0..129 {
        request.extend_from_slice(format!("X-{}: v\r\n", i).as_bytes());
    }
    request.extend_from_slice(b"\r\n");
    assert_eq!(handle_request(&request), Err(ApplicationError::RequestParsing));
}

#[test]
fn empty_request_gets_bad_request() {
    assert_eq!(handle_request(b"").unwrap(), BAD.to_vec());
}

#[test]
fn partial_request_without_method_gets_bad_request() {
    assert_eq!(handle_request(b"GET").unwrap(), BAD.to_vec());
}

#[test]
fn partial_request_with_method_is_answered() {
    assert_eq!(handle_request(b"GET /inde").unwrap(), ok_answer(GET_PAGE));
}

#[test]
fn handle_method_dispatches() {
    assert_eq!(handle_method("GET", b"").unwrap(), ok_answer(GET_PAGE));
    assert_eq!(handle_method("POST", b"body").unwrap(), ok_answer(POST_PAGE));
    assert_eq!(handle_method("get", b""), Err(ApplicationError::RequestNotImplemented));
    assert_eq!(handle_method("GETS", b""), Err(ApplicationError::RequestNotImplemented));
}

#[test]
fn ok_answers_have_the_fixed_size() {
    let get = handle_get(b"ignored");
    let post = handle_post(b"");
    assert_eq!(get.len(), ANSWER_SIZE);
    assert_eq!(post.len(), ANSWER_SIZE);
    assert_eq!(&get[..19], b"HTTP/1.1 200 OK\r\n\r\n");
    assert!(get[19 + GET_PAGE.len()..].iter().all(|b| *b == 0));
    assert!(post[19 + POST_PAGE.len()..].iter().all(|b| *b == 0));
}

#[test]
fn bad_request_answer_bytes() {
    assert_eq!(bad_request(), BAD.to_vec());
}

#[test]
fn respond_follows_the_parser_status() {
    let buf = b"GET / HTTP/1.1\r\n\r\nrest";
    assert_eq!(respond(RequestStatus::Invalid, Some("GET"), buf), Err(ApplicationError::RequestParsing));
    assert_eq!(respond(RequestStatus::Complete(18), Some("GET"), buf).unwrap(), ok_answer(GET_PAGE));
    assert_eq!(respond(RequestStatus::Partial, Some("POST"), buf).unwrap(), ok_answer(POST_PAGE));
    assert_eq!(respond(RequestStatus::Partial, None, buf).unwrap(), BAD.to_vec());
    assert_eq!(respond(RequestStatus::Complete(0), Some("DELETE"), buf), Err(ApplicationError::RequestNotImplemented));
}

#[test]
fn bytes_equal_compares_contents() {
    assert!(bytes_equal(b"GET", b"GET"));
    assert!(!bytes_equal(b"GET", b"GEt"));
    assert!(!bytes_equal(b"GET", b"GE"));
    assert!(bytes_equal(b"", b""));
}
