use smallweb::gemini::parse_gemini_response;

#[test]
fn success_with_body() {
    match parse_gemini_response(b"20 text/gemini\r\nHello, world!") {
        Ok(g) => {
            assert_eq!(g.status, "20");
            assert_eq!(g.meta, "text/gemini");
            assert_eq!(g.body, "Hello, world!");
        }
        Err(m) => panic!("expected success, got {}", m),
    }
}

#[test]
fn permanent_failure_message() {
    match parse_gemini_response(b"51 Not found\r\n") {
        Ok(_) => panic!("expected failure"),
        Err(m) => assert_eq!(m, "Permanent failure (51): Not found"),
    }
}

#[test]
fn redirect_message() {
    match parse_gemini_response(b"31 gemini://elsewhere.org/\r\n") {
        Ok(_) => panic!("expected failure"),
        Err(m) => assert_eq!(m, "Redirect (31): gemini://elsewhere.org/"),
    }
}

#[test]
fn temporary_failure_message() {
    match parse_gemini_response(b"44 slow down\r\n") {
        Ok(_) => panic!("expected failure"),
        Err(m) => assert_eq!(m, "Temporary failure (44): slow down"),
    }
}

#[test]
fn certificate_required_message() {
    match parse_gemini_response(b"60 certificate please\r\n") {
        Ok(_) => panic!("expected failure"),
        Err(m) => assert_eq!(m, "Client certificate required (60): certificate please"),
    }
}

#[test]
fn unknown_status_message() {
    match parse_gemini_response(b"99 strange\r\n") {
        Ok(_) => panic!("expected failure"),
        Err(m) => assert_eq!(m, "Unknown status code: 99 - strange"),
    }
}

#[test]
fn one_digit_code_is_unknown() {
    match parse_gemini_response(b"2 oops\r\n") {
        Ok(_) => panic!("expected failure"),
        Err(m) => assert_eq!(m, "Unknown status code: 2 - oops"),
    }
}

#[test]
fn single_token_status_line() {
    match parse_gemini_response(b"20\r\nHello") {
        Ok(_) => panic!("expected failure"),
        Err(m) => assert_eq!(m, "Invalid status line format"),
    }
}

#[test]
fn no_crlf_at_all() {
    match parse_gemini_response(b"just some bytes with no header") {
        Ok(_) => panic!("expected failure"),
        Err(m) => assert_eq!(m, "Invalid status line format"),
    }
}

#[test]
fn empty_response() {
    match parse_gemini_response(b"") {
        Ok(_) => panic!("expected failure"),
        Err(m) => assert_eq!(m, "Invalid status line format"),
    }
}

#[test]
fn meta_tokens_rejoined_with_single_spaces() {
    match parse_gemini_response(b"20  text/gemini \t charset=utf-8\r\nbody") {
        Ok(g) => {
            assert_eq!(g.status, "20");
            assert_eq!(g.meta, "text/gemini charset=utf-8");
            assert_eq!(g.body, "body");
        }
        Err(m) => panic!("expected success, got {}", m),
    }
}

#[test]
fn invalid_utf8_body_is_replaced_not_rejected() {
    match parse_gemini_response(b"20 ok\r\n\xFF\xFEabc") {
        Ok(g) => {
            assert_eq!(g.body, "\u{FFFD}\u{FFFD}abc");
        }
        Err(m) => panic!("expected success, got {}", m),
    }
}

#[test]
fn body_keeps_later_crlf_pairs() {
    match parse_gemini_response(b"20 text/gemini\r\nline one\r\nline two\r\n") {
        Ok(g) => assert_eq!(g.body, "line one\r\nline two\r\n"),
        Err(m) => panic!("expected success, got {}", m),
    }
}
