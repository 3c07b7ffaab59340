use smallweb::get_start_page;
use smallweb::greet;
use smallweb::resolver::FailurePolicy;
use smallweb::resolver::FetchRequest;
use smallweb::resolver::NavState;
use smallweb::resolver::NavStep;
use smallweb::resolver::Protocol;
use smallweb::resolver::on_fetch_outcome;
use smallweb::resolver::start_navigation;

fn expect_step(s: NavState) -> NavStep {
    match s {
        NavState::Fetching(step) => step,
        NavState::Finished(Ok(c)) => panic!("navigation finished early with content {}", c),
        NavState::Finished(Err(e)) => panic!("navigation finished early with error {}", e),
    }
}

#[test]
fn gemini_url_without_path_gets_trailing_slash() {
    let step = expect_step(start_navigation(&"gemini://example.org".to_string()));
    assert!(matches!(step.request.protocol, Protocol::Gemini));
    assert_eq!(step.request.host, "example.org");
    assert_eq!(step.request.port, 1965);
    assert_eq!(step.request.payload, "gemini://example.org/");
    assert_eq!(step.request.request_line(), "gemini://example.org/\r\n");
}

#[test]
fn gemini_url_with_path_is_sent_verbatim() {
    let step = expect_step(start_navigation(&"gemini://example.org/doc.gmi".to_string()));
    assert_eq!(step.request.payload, "gemini://example.org/doc.gmi");
    assert_eq!(step.request.port, 1965);
}

#[test]
fn gemini_explicit_port_is_kept() {
    let step = expect_step(start_navigation(&"gemini://example.org:1966/x".to_string()));
    assert_eq!(step.request.port, 1966);
    assert_eq!(step.request.payload, "gemini://example.org:1966/x");
}

#[test]
fn bare_host_is_retried_with_gemini_prefix() {
    let step = expect_step(start_navigation(&"example.org".to_string()));
    assert!(matches!(step.request.protocol, Protocol::Gemini));
    assert_eq!(step.request.host, "example.org");
    assert_eq!(step.request.port, 1965);
    assert_eq!(step.request.payload, "gemini://example.org/");
}

#[test]
fn unparsable_input_becomes_search_query() {
    let step = expect_step(start_navigation(&"not a url".to_string()));
    assert!(matches!(step.request.protocol, Protocol::Gemini));
    assert_eq!(step.request.host, "kennedy.gemi.dev");
    assert_eq!(step.request.port, 1965);
    assert_eq!(
        step.request.payload,
        "gemini://kennedy.gemi.dev/search?not a url"
    );
    assert!(matches!(step.on_failure, FailurePolicy::InvalidUrl));
}

#[test]
fn failed_search_for_unparsable_input_is_invalid_url() {
    let step = expect_step(start_navigation(&"not a url".to_string()));
    match on_fetch_outcome(step, Err("connection refused".to_string())) {
        NavState::Finished(Err(e)) => assert_eq!(e, "Invalid URL format"),
        _ => panic!("expected a final error"),
    }
}

#[test]
fn finger_explicit_user_info_wins() {
    let step = expect_step(start_navigation(&"finger://user@example.org".to_string()));
    assert!(matches!(step.request.protocol, Protocol::Finger));
    assert_eq!(step.request.payload, "user");
    assert_eq!(step.request.port, 79);
}

#[test]
fn finger_path_loses_leading_slash() {
    let step = expect_step(start_navigation(&"finger://example.org/bob".to_string()));
    assert_eq!(step.request.payload, "bob");
}

#[test]
fn finger_without_user_or_path_sends_empty_line() {
    let step = expect_step(start_navigation(&"finger://example.org".to_string()));
    assert_eq!(step.request.payload, "");
    assert_eq!(step.request.port, 79);
    assert_eq!(step.request.request_line(), "\r\n");
}

#[test]
fn gopher_defaults_to_port_70() {
    let step = expect_step(start_navigation(&"gopher://example.org/1/menu".to_string()));
    assert!(matches!(step.request.protocol, Protocol::Gopher));
    assert_eq!(step.request.host, "example.org");
    assert_eq!(step.request.port, 70);
    assert_eq!(step.request.payload, "/1/menu");
}

#[test]
fn unsupported_scheme_is_rejected() {
    match start_navigation(&"https://example.org".to_string()) {
        NavState::Finished(Err(e)) => assert_eq!(
            e,
            "Unsupported URL scheme. Only gemini, gopher, and finger are supported."
        ),
        _ => panic!("expected a final error"),
    }
}

#[test]
fn gemini_url_without_host_is_rejected() {
    match start_navigation(&"gemini:document".to_string()) {
        NavState::Finished(Err(e)) => assert_eq!(e, "Invalid host in URL"),
        _ => panic!("expected a final error"),
    }
}

#[test]
fn gopher_response_is_returned_verbatim() {
    let step = expect_step(start_navigation(&"gopher://example.org/1/menu".to_string()));
    match on_fetch_outcome(step, Ok(b"1A menu line\tselector\thost\t70\r\n".to_vec())) {
        NavState::Finished(Ok(c)) => assert_eq!(c, "1A menu line\tselector\thost\t70\r\n"),
        _ => panic!("expected content"),
    }
}

#[test]
fn gopher_transport_error_is_reported_against_input() {
    let step = expect_step(start_navigation(&"gopher://example.org/1/menu".to_string()));
    match on_fetch_outcome(step, Err("TCP connection failed: refused".to_string())) {
        NavState::Finished(Err(e)) => assert_eq!(
            e,
            "Failed to fetch gopher://example.org/1/menu: TCP connection failed: refused"
        ),
        _ => panic!("expected a final error"),
    }
}

#[test]
fn gemini_success_finishes_with_body() {
    let step = expect_step(start_navigation(&"gemini://example.org".to_string()));
    match on_fetch_outcome(step, Ok(b"20 text/gemini\r\nHi".to_vec())) {
        NavState::Finished(Ok(c)) => assert_eq!(c, "Hi"),
        _ => panic!("expected content"),
    }
}

#[test]
fn gemini_failure_falls_back_to_search() {
    let step = expect_step(start_navigation(&"gemini://example.org".to_string()));
    let fallback = match on_fetch_outcome(step, Ok(b"51 Not found\r\n".to_vec())) {
        NavState::Fetching(next) => next,
        _ => panic!("expected a fallback fetch"),
    };
    assert!(matches!(fallback.request.protocol, Protocol::Gemini));
    assert_eq!(fallback.request.host, "kennedy.gemi.dev");
    assert_eq!(fallback.request.port, 1965);
    assert_eq!(
        fallback.request.payload,
        "gemini://kennedy.gemi.dev/search?gemini://example.org"
    );
    match on_fetch_outcome(fallback, Err("no route".to_string())) {
        NavState::Finished(Err(e)) => {
            assert_eq!(e, "Failed to fetch gemini://example.org/: no route")
        }
        _ => panic!("expected a final error"),
    }
}

#[test]
fn gemini_transport_error_also_falls_back_to_search() {
    let step = expect_step(start_navigation(&"gemini://example.org".to_string()));
    match on_fetch_outcome(step, Err("TLS connection failed: handshake".to_string())) {
        NavState::Fetching(next) => {
            assert_eq!(next.request.host, "kennedy.gemi.dev");
            assert!(matches!(next.on_failure, FailurePolicy::Report { .. }));
        }
        _ => panic!("expected a fallback fetch"),
    }
}

#[test]
fn search_fallback_success_is_final_content() {
    let step = expect_step(start_navigation(&"gemini://example.org".to_string()));
    let fallback = match on_fetch_outcome(step, Ok(b"40 busy\r\n".to_vec())) {
        NavState::Fetching(next) => next,
        _ => panic!("expected a fallback fetch"),
    };
    match on_fetch_outcome(fallback, Ok(b"20 text/gemini\r\nresults".to_vec())) {
        NavState::Finished(Ok(c)) => assert_eq!(c, "results"),
        _ => panic!("expected content"),
    }
}

#[test]
fn malformed_header_also_triggers_gemini_fallback() {
    let step = expect_step(start_navigation(&"gemini://example.org".to_string()));
    match on_fetch_outcome(step, Ok(b"20\r\nbody without meta".to_vec())) {
        NavState::Fetching(next) => assert_eq!(next.request.host, "kennedy.gemi.dev"),
        _ => panic!("expected a fallback fetch"),
    }
}

#[test]
fn request_line_appends_crlf() {
    let req = FetchRequest {
        protocol: Protocol::Gopher,
        host: "example.org".to_string(),
        port: 70,
        payload: "/sel".to_string(),
    };
    assert_eq!(req.request_line(), "/sel\r\n");
}

#[test]
fn start_page_is_fixed() {
    assert_eq!(get_start_page(), "gemini://gemini.circumlunar.space/");
}

#[test]
fn greeting_wraps_the_name() {
    assert_eq!(greet("Ferris".to_string()), "Hello, Ferris!");
}
