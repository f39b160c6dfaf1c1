use webapp::form::FormData;
use webapp::html::{full_page, render_form, render_table, Record};
use webapp::http::{handle_request, parse_request, parse_request_bytes, redirect_text, render_page, response_text, Outcome};

#[test]
fn request_parts() {
    let raw = "POST /?x=1 HTTP/1.1\r\nHost: a\r\nContent-Length: 3\r\n\r\na=b";
    assert_eq!(
        parse_request(raw),
        Some(("POST".to_string(), "/?x=1".to_string(), "a=b".to_string()))
    );
    assert_eq!(
        parse_request("GET / HTTP/1.1\r\nHost: a\r\n"),
        Some(("GET".to_string(), "/".to_string(), "".to_string()))
    );
    assert_eq!(
        parse_request("  GET\t  /path"),
        Some(("GET".to_string(), "/path".to_string(), "".to_string()))
    );
    assert_eq!(parse_request("GET\r\n\r\nbody"), None);
    assert_eq!(parse_request(""), None);
    assert_eq!(
        parse_request("PUT /x\r\n\r\nfirst\r\n\r\nsecond"),
        Some(("PUT".to_string(), "/x".to_string(), "second".to_string()))
    );
}

#[test]
fn response_and_redirect_text() {
    assert_eq!(
        response_text("200 OK", "ā<b>"),
        "HTTP/1.1 200 OK\r\nContent-Type: text/html; charset=utf-8\r\nContent-Length: 5\r\nConnection: close\r\n\r\nā<b>"
    );
    assert_eq!(
        response_text("405 Method Not Allowed", ""),
        "HTTP/1.1 405 Method Not Allowed\r\nContent-Type: text/html; charset=utf-8\r\nContent-Length: 0\r\nConnection: close\r\n\r\n"
    );
    assert_eq!(
        redirect_text("/?ok=1"),
        "HTTP/1.1 303 See Other\r\nLocation: /?ok=1\r\nContent-Length: 0\r\nConnection: close\r\n\r\n"
    );
}

#[test]
fn unknown_route_is_not_found() {
    match handle_request("GET", "/other?ok=1", "") {
        Outcome::Respond { status, body } => {
            assert_eq!(status, "404 Not Found");
            assert_eq!(body, "<h1>404</h1>");
        }
        _ => panic!("expected a 404"),
    }
}

#[test]
fn other_methods_are_not_allowed() {
    match handle_request("DELETE", "/", "") {
        Outcome::Respond { status, body } => {
            assert_eq!(status, "405 Method Not Allowed");
            assert_eq!(body, "");
        }
        _ => panic!("expected a 405"),
    }
}

#[test]
fn get_shows_blank_form_and_toast_on_request() {
    match handle_request("GET", "/", "") {
        Outcome::Page { status, data, errors, show_toast } => {
            assert_eq!(status, "200 OK");
            assert_eq!(data.first_name, "");
            assert_eq!(data.age, 0);
            assert!(errors.is_empty());
            assert!(!show_toast);
        }
        _ => panic!("expected the page"),
    }
    match handle_request("GET", "/?ok=1", "") {
        Outcome::Page { show_toast, .. } => assert!(show_toast),
        _ => panic!("expected the page"),
    }
    match handle_request("GET", "/?a=2&ok=10", "") {
        Outcome::Page { show_toast, .. } => assert!(show_toast),
        _ => panic!("expected the page"),
    }
}

#[test]
fn valid_post_is_stored_and_redirected() {
    let body = "first_name=Anna&last_name=Berg&phone=12345678&address=Main+St+5&age=40";
    match handle_request("POST", "/", body) {
        Outcome::Store { data, location } => {
            assert_eq!(data.first_name, "Anna");
            assert_eq!(data.address, "Main St 5");
            assert_eq!(data.age, 40);
            assert_eq!(location, "/?ok=1");
            match handle_request("GET", &location, "") {
                Outcome::Page { show_toast, .. } => assert!(show_toast),
                _ => panic!("expected the page"),
            }
        }
        _ => panic!("expected the entry to be stored"),
    }
}

#[test]
fn invalid_post_is_shown_again() {
    let body = "first_name=A&last_name=Berg&phone=123&address=Main+St+5&age=40";
    match handle_request("POST", "/?ok=1", body) {
        Outcome::Page { status, data, errors, show_toast } => {
            assert_eq!(status, "400 Bad Request");
            assert_eq!(data.first_name, "A");
            assert_eq!(
                errors,
                vec![
                    "First Name must be at least 2 characters.".to_string(),
                    "Phone Number must be exactly 8 digits (got 3).".to_string(),
                ]
            );
            assert!(show_toast);
        }
        _ => panic!("expected the page"),
    }
}

#[test]
fn page_combines_form_and_table() {
    let records = vec![Record {
        id: 7,
        first_name: "Anna".to_string(),
        last_name: "Berg".to_string(),
        phone: "12345678".to_string(),
        address: "Main 5".to_string(),
        age: 40,
        created_at: "2024-01-02 03:04:05".to_string(),
    }];
    let d = FormData::default();
    let errs: Vec<String> = vec!["x".to_string()];
    let page = render_page(&d, &errs, &records, true);
    let expected = full_page(&render_form(&d, &errs, false), &render_table(&records), 1, true);
    assert_eq!(page, expected);
}

#[test]
fn request_bytes_are_read_as_text() {
    assert_eq!(
        parse_request_bytes("POST / HTTP/1.1\r\nHost: a\r\n\r\nfirst_name=Jānis".as_bytes()),
        Some(("POST".to_string(), "/".to_string(), "first_name=Jānis".to_string()))
    );
    assert_eq!(
        parse_request_bytes(b"GET /\xff HTTP/1.1\r\n\r\n"),
        Some(("GET".to_string(), "/\u{fffd}".to_string(), "".to_string()))
    );
}
