use web_server::response::HttpResponse;

#[test]
fn success_serialization_is_exact() {
    let r = HttpResponse::Okay("<h1>Hi</h1>".to_string());
    assert_eq!(
        r.into_string(),
        "HTTP/1.1 200 OK\r\nContent-Length: 11\r\nContent-Type: text/html\r\n\r\n<h1>Hi</h1>"
    );
}

#[test]
fn bad_request_serialization_is_exact() {
    let r = HttpResponse::BadRequest("Bad Request".to_string());
    assert_eq!(
        r.into_string(),
        "HTTP/1.1 400 Bad Request\r\nContent-Length: 11\r\nContent-Type: text/html\r\n\r\nBad Request"
    );
}

#[test]
fn internal_error_serialization_is_exact() {
    let r = HttpResponse::InternalServerError("Internal Error".to_string());
    assert_eq!(
        r.into_string(),
        "HTTP/1.1 500 Internal Server Error\r\nContent-Length: 14\r\nContent-Type: text/html\r\n\r\nInternal Error"
    );
}

#[test]
fn not_found_serialization_is_exact() {
    let r = HttpResponse::NotFound("nope".to_string());
    assert_eq!(
        r.into_string(),
        "HTTP/1.1 404 Not Found\r\nContent-Length: 4\r\nContent-Type: text/html\r\n\r\nnope"
    );
}

#[test]
fn status_lines_match_the_table() {
    assert_eq!(
        HttpResponse::Okay(String::new()).status_line(),
        "HTTP/1.1 200 OK"
    );
    assert_eq!(
        HttpResponse::BadRequest(String::new()).status_line(),
        "HTTP/1.1 400 Bad Request"
    );
    assert_eq!(
        HttpResponse::InternalServerError(String::new()).status_line(),
        "HTTP/1.1 500 Internal Server Error"
    );
    assert_eq!(
        HttpResponse::NotFound(String::new()).status_line(),
        "HTTP/1.1 404 Not Found"
    );
}

#[test]
fn content_length_counts_bytes_not_characters() {
    // "héllo" is five characters but six bytes in UTF-8.
    let r = HttpResponse::Okay("h\u{e9}llo".to_string());
    let wire = r.into_string();
    assert!(wire.contains("Content-Length: 6\r\n"));
    assert_eq!("h\u{e9}llo".len(), 6);
}

#[test]
fn empty_body_has_content_length_zero() {
    let r = HttpResponse::Okay(String::new());
    assert_eq!(
        r.into_string(),
        "HTTP/1.1 200 OK\r\nContent-Length: 0\r\nContent-Type: text/html\r\n\r\n"
    );
}

#[test]
fn body_accessor_returns_the_body() {
    let r = HttpResponse::NotFound("gone".to_string());
    assert_eq!(r.body(), "gone");
}

#[test]
fn serialization_round_trip_per_variant() {
    // For every variant: the serialized text opens with the fixed status
    // line, and the Content-Length header holds the exact byte length.
    let bodies = ["", "x", "some longer body \u{2603}"];
    for body in bodies {
        let variants = [
            HttpResponse::Okay(body.to_string()),
            HttpResponse::BadRequest(body.to_string()),
            HttpResponse::InternalServerError(body.to_string()),
            HttpResponse::NotFound(body.to_string()),
        ];
        for r in variants {
            let status = r.status_line().to_string();
            let wire = r.into_string();
            assert!(wire.starts_with(&format!("{status}\r\n")));
            assert!(wire.contains(&format!("\r\nContent-Length: {}\r\n", body.len())));
            assert!(wire.ends_with(body));
        }
    }
}
