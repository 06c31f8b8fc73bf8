use movie_server::{
    decimal, format_response, handle_400, handle_404, is_whitespace, parse_request_line,
    plan_request, render_created, render_fetched, render_removed, render_updated, request_body,
    route, same_text, sanitize_body, BackendError, Endpoint, Plan, Resource, Status, StoreOutcome,
    Verb,
};

fn response(status_line: &str, body: &str) -> String {
    format!("{}\r\nContent-Length: {}\r\n\r\n{}", status_line, body.len(), body)
}

fn expect_respond(plan: Plan) -> String {
    match plan {
        Plan::Respond(r) => r,
        _ => panic!("expected an immediate response"),
    }
}

#[test]
fn request_line_method_and_path() {
    let r = "GET /api/movies HTTP/1.1\r\nHost: localhost\r\n\r\n";
    assert_eq!(parse_request_line(r), ("GET", "/api/movies"));
}

#[test]
fn request_line_extra_whitespace() {
    assert_eq!(parse_request_line("  POST \t /api/actors   x\r\n"), ("POST", "/api/actors"));
}

#[test]
fn request_line_one_word_is_empty() {
    assert_eq!(parse_request_line("GET\r\n/api/movies\r\n"), ("", ""));
}

#[test]
fn request_line_empty_input() {
    assert_eq!(parse_request_line(""), ("", ""));
    assert_eq!(parse_request_line("\nGET /api/movies"), ("", ""));
    assert_eq!(parse_request_line("   \r\n"), ("", ""));
}

#[test]
fn request_line_unicode_whitespace() {
    assert_eq!(parse_request_line("PUT\u{3000}/api/reviews"), ("PUT", "/api/reviews"));
    assert!(is_whitespace('\u{85}'));
    assert!(!is_whitespace('x'));
}

#[test]
fn routing_table_covers_twelve_pairs() {
    let verbs = [("GET", Verb::Get), ("POST", Verb::Post), ("PUT", Verb::Put), ("DELETE", Verb::Delete)];
    let paths = [
        ("/api/movies", Resource::Movies),
        ("/api/actors", Resource::Actors),
        ("/api/reviews", Resource::Reviews),
    ];
    for (m, verb) in verbs {
        for (p, resource) in paths {
            assert_eq!(route(m, p), Some(Endpoint { verb, resource }));
        }
    }
}

#[test]
fn routing_unknown_pairs_are_none() {
    assert_eq!(route("PATCH", "/api/movies"), None);
    assert_eq!(route("get", "/api/movies"), None);
    assert_eq!(route("GET", "/api/movies/"), None);
    assert_eq!(route("GET", "/"), None);
    assert_eq!(route("", ""), None);
}

#[test]
fn text_comparison() {
    assert!(same_text("abc", "abc"));
    assert!(!same_text("abc", "abd"));
    assert!(!same_text("abc", "ab"));
}

#[test]
fn decimal_numbers() {
    assert_eq!(decimal(0), "0");
    assert_eq!(decimal(7), "7");
    assert_eq!(decimal(1024), "1024");
    assert_eq!(decimal(usize::MAX), usize::MAX.to_string());
}

#[test]
fn response_format_counts_bytes() {
    assert_eq!(format_response(Status::Success, "abc"), "HTTP/1.0 200 OK\r\nContent-Length: 3\r\n\r\nabc");
    assert_eq!(
        format_response(Status::InternalError, "é"),
        "HTTP/1.0 500 INTERNAL SERVER ERROR\r\nContent-Length: 2\r\n\r\né"
    );
    assert_eq!(format_response(Status::Created, ""), "HTTP/1.0 201 CREATED\r\nContent-Length: 0\r\n\r\n");
}

#[test]
fn bad_request_and_not_found() {
    assert_eq!(handle_400(), "HTTP/1.0 400 BAD REQUEST\r\nContent-Length: 17\r\n\r\n400 - Bad Request");
    assert_eq!(handle_404(), "HTTP/1.0 404 NOT FOUND\r\nContent-Length: 15\r\n\r\n404 - Not Found");
}

#[test]
fn body_after_first_separator() {
    assert_eq!(request_body("a\r\n\r\nb\r\n\r\nc"), Some("b\r\n\r\nc"));
    assert_eq!(request_body("a\r\n\r\n"), Some(""));
    assert_eq!(request_body("a\r\nb\n\n"), None);
    assert_eq!(request_body(""), None);
}

#[test]
fn body_sanitising() {
    assert_eq!(sanitize_body(" \n{\"a\":1}\0\0\0"), "{\"a\":1}");
    assert_eq!(sanitize_body("\0 \0"), "");
    assert_eq!(sanitize_body("a\0b"), "ab");
}

#[test]
fn get_plans_collection_read() {
    match plan_request("GET /api/movies HTTP/1.1\r\n\r\n") {
        Plan::Fetch { resource, path } => {
            assert_eq!(resource, Resource::Movies);
            assert_eq!(path, "movies");
        }
        _ => panic!("expected a fetch"),
    }
}

#[test]
fn get_empty_collection_is_empty_list() {
    let r = render_fetched(Resource::Movies, Ok("null".to_string()));
    assert_eq!(r, "HTTP/1.0 200 OK\r\nContent-Length: 2\r\n\r\n[]");
}

#[test]
fn get_collection_text_is_passed_on() {
    let r = render_fetched(Resource::Actors, Ok("{\"a\":{\"name\":\"X\"}}".to_string()));
    assert_eq!(r, response("HTTP/1.0 200 OK", "{\"a\":{\"name\":\"X\"}}"));
}

#[test]
fn get_backend_failure_is_500() {
    let r = render_fetched(Resource::Reviews, Err(BackendError));
    assert_eq!(r, response("HTTP/1.0 500 INTERNAL SERVER ERROR", "Failed to retrieve reviews"));
}

#[test]
fn post_movie_plans_creation() {
    let req = "POST /api/movies HTTP/1.1\r\nContent-Type: application/json\r\n\r\n{\"title\":\"X\",\"director\":\"Y\",\"release_year\":1999}\0\0\0";
    match plan_request(req) {
        Plan::Create { resource, path, record } => {
            assert_eq!(resource, Resource::Movies);
            assert_eq!(path, "movies/");
            assert_eq!(record, "{\"title\":\"X\",\"director\":\"Y\",\"release_year\":1999}");
        }
        _ => panic!("expected a creation"),
    }
    assert_eq!(render_created(Resource::Movies, StoreOutcome::Stored), response("HTTP/1.0 201 CREATED", "Movie created"));
    assert_eq!(
        render_created(Resource::Movies, StoreOutcome::Failed),
        response("HTTP/1.0 500 INTERNAL SERVER ERROR", "Failed to create movie")
    );
    assert_eq!(render_created(Resource::Movies, StoreOutcome::Malformed), handle_400());
}

#[test]
fn post_without_body_is_400() {
    assert_eq!(expect_respond(plan_request("POST /api/actors HTTP/1.1\r\n")), handle_400());
}

#[test]
fn put_without_id_is_400() {
    let req = "PUT /api/actors HTTP/1.1\r\n\r\n{\"name\":\"Z\",\"date_of_birth\":1970}";
    assert_eq!(expect_respond(plan_request(req)), handle_400());
}

#[test]
fn put_with_numeric_id_is_400() {
    let req = "PUT /api/actors HTTP/1.1\r\n\r\n{\"id\":12}";
    assert_eq!(expect_respond(plan_request(req)), handle_400());
}

#[test]
fn put_malformed_json_is_400() {
    let req = "PUT /api/movies HTTP/1.1\r\n\r\n{\"id\":";
    assert_eq!(expect_respond(plan_request(req)), handle_400());
    assert_eq!(expect_respond(plan_request("PUT /api/movies HTTP/1.1\r\n")), handle_400());
}

#[test]
fn put_with_id_plans_update() {
    let req = "PUT /api/movies HTTP/1.1\r\n\r\n {\"id\":\"m1\",\"title\":\"New\"} \0\0";
    match plan_request(req) {
        Plan::Update { resource, path, document } => {
            assert_eq!(resource, Resource::Movies);
            assert_eq!(path, "movies/m1");
            assert_eq!(document, "{\"id\":\"m1\",\"title\":\"New\"}");
        }
        _ => panic!("expected an update"),
    }
    assert_eq!(render_updated(Resource::Movies, Ok(())), response("HTTP/1.0 200 OK", "Movie updated"));
    assert_eq!(
        render_updated(Resource::Actors, Err(BackendError)),
        response("HTTP/1.0 500 INTERNAL SERVER ERROR", "Failed to update actor")
    );
}

#[test]
fn delete_review_failing_backend_is_500() {
    let req = "DELETE /api/reviews HTTP/1.1\r\n\r\n{\"id\":\"abc\"}";
    match plan_request(req) {
        Plan::Remove { resource, path } => {
            assert_eq!(resource, Resource::Reviews);
            assert_eq!(path, "reviews/abc");
        }
        _ => panic!("expected a deletion"),
    }
    let r = render_removed(Resource::Reviews, Err(BackendError));
    assert!(r.starts_with("HTTP/1.0 500 "));
    assert_eq!(r, response("HTTP/1.0 500 INTERNAL SERVER ERROR", "Failed to delete review"));
    assert!(!r.split("\r\n\r\n").nth(1).unwrap().is_empty());
    assert_eq!(render_removed(Resource::Reviews, Ok(())), response("HTTP/1.0 200 OK", "Review deleted"));
}

#[test]
fn short_request_line_is_404() {
    assert_eq!(expect_respond(plan_request("GET\r\n\r\n")), handle_404());
    assert_eq!(expect_respond(plan_request("")), handle_404());
    assert_eq!(expect_respond(plan_request("\0\0\0\0")), handle_404());
}

#[test]
fn unknown_route_is_404() {
    assert_eq!(expect_respond(plan_request("GET /api/directors HTTP/1.1\r\n\r\n")), handle_404());
    assert_eq!(expect_respond(plan_request("PATCH /api/movies HTTP/1.1\r\n\r\n{}")), handle_404());
}

#[test]
fn truncated_buffer_request() {
    let mut buf = String::from("DELETE /api/movies HTTP/1.1\r\n\r\n{\"id\":\"q\"}");
    while buf.len() < 1024 {
        buf.push('\0');
    }
    match plan_request(&buf) {
        Plan::Remove { path, .. } => assert_eq!(path, "movies/q"),
        _ => panic!("expected a deletion"),
    }
}

#[test]
fn get_empty_object_collection_is_empty_list() {
    let r = render_fetched(Resource::Movies, Ok("{}".to_string()));
    assert_eq!(r, "HTTP/1.0 200 OK\r\nContent-Length: 2\r\n\r\n[]");
    let r = render_fetched(Resource::Actors, Ok("[]".to_string()));
    assert_eq!(r, "HTTP/1.0 200 OK\r\nContent-Length: 2\r\n\r\n[]");
}

#[test]
fn put_review_failing_backend_is_500() {
    let req = "PUT /api/reviews HTTP/1.1\r\n\r\n{\"id\":\"r1\",\"rating\":3}";
    match plan_request(req) {
        Plan::Update { resource, path, document } => {
            assert_eq!(resource, Resource::Reviews);
            assert_eq!(path, "reviews/r1");
            assert_eq!(document, "{\"id\":\"r1\",\"rating\":3}");
        }
        _ => panic!("expected an update"),
    }
    let r = render_updated(Resource::Reviews, Err(BackendError));
    assert_eq!(r, response("HTTP/1.0 500 INTERNAL SERVER ERROR", "Failed to update review"));
}
