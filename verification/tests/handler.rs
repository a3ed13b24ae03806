use web_server::handler::request_head;

fn lines(items: &[&str]) -> Vec<String> {
    items.iter().map(|s| s.to_string()).collect()
}

#[test]
fn stops_at_the_first_empty_line() {
    let read = lines(&["GET / HTTP/1.1", "Host: localhost", "", "trailing"]);
    assert_eq!(
        request_head(&read),
        lines(&["GET / HTTP/1.1", "Host: localhost"])
    );
}

#[test]
fn takes_everything_without_a_terminator() {
    let read = lines(&["GET / HTTP/1.1", "Host: localhost"]);
    assert_eq!(request_head(&read), read);
}

#[test]
fn empty_first_line_gives_an_empty_request() {
    assert_eq!(request_head(&lines(&["", "GET / HTTP/1.1"])), lines(&[]));
    assert_eq!(request_head(&lines(&[])), lines(&[]));
}
