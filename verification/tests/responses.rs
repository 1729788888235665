use tinyserve::response::{
    build_file_response, build_response_head, build_simple_response, u64_to_dec,
};

#[test]
fn decimal_formatting_is_exact() {
    assert_eq!(u64_to_dec(0), "0");
    assert_eq!(u64_to_dec(7), "7");
    assert_eq!(u64_to_dec(10), "10");
    assert_eq!(u64_to_dec(12345), "12345");
    assert_eq!(u64_to_dec(10485761), "10485761");
    assert_eq!(u64_to_dec(u64::MAX), "18446744073709551615");
}

#[test]
fn response_head_is_well_formed() {
    let h = build_response_head("200 OK", "text/html; charset=UTF-8", 42);
    assert_eq!(
        h,
        "HTTP/1.1 200 OK\r\nContent-Type: text/html; charset=UTF-8\r\nContent-Length: 42\r\n\r\n"
    );
}

#[test]
fn simple_response_counts_its_body() {
    let r = build_simple_response("404 Not Found", "Not found");
    let expected =
        "HTTP/1.1 404 Not Found\r\nContent-Type: text/plain; charset=UTF-8\r\nContent-Length: 9\r\n\r\nNot found";
    assert_eq!(r, expected.as_bytes());
}

#[test]
fn over_capacity_response_is_well_formed() {
    let r = build_simple_response("503 Service Unavailable", "Server busy");
    let expected =
        "HTTP/1.1 503 Service Unavailable\r\nContent-Type: text/plain; charset=UTF-8\r\nContent-Length: 11\r\n\r\nServer busy";
    assert_eq!(r, expected.as_bytes());
}

#[test]
fn file_response_for_get_carries_the_body() {
    let body: Vec<u8> = b"<html>hi</html>".to_vec();
    let r = build_file_response(&body, true);
    let mut expected = format!(
        "HTTP/1.1 200 OK\r\nContent-Type: text/html; charset=UTF-8\r\nContent-Length: {}\r\n\r\n",
        body.len()
    )
    .into_bytes();
    expected.extend(body.iter().copied());
    assert_eq!(r, expected);
}

#[test]
fn file_response_for_head_has_no_body_but_full_length() {
    let body: Vec<u8> = b"0123456789".to_vec();
    let r = build_file_response(&body, false);
    let expected = format!(
        "HTTP/1.1 200 OK\r\nContent-Type: text/html; charset=UTF-8\r\nContent-Length: {}\r\n\r\n",
        body.len()
    );
    assert_eq!(r, expected.as_bytes());
}
