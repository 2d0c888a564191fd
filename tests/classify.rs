use rpc_watch::classify::{
    classify, contains_text, decimal_string, ErrorLabel, Failure, FailureClass, RpcErrorBody,
};

fn rpc(code: i64, message: &str) -> Failure {
    Failure::JsonRpc(RpcErrorBody { code, message: message.to_string() })
}

#[test]
fn http_429_is_retried_under_429() {
    let v = classify(&Failure::HttpStatus(429));
    assert!(v.retry);
    assert_eq!(v.class, FailureClass::RateLimited);
    assert_eq!(v.label.text(), "429");
}

#[test]
fn rpc_code_429_is_retried_under_429() {
    let v = classify(&rpc(429, "too many requests"));
    assert!(v.retry);
    assert_eq!(v.label, ErrorLabel::TooManyRequests);
    assert_eq!(v.label.text(), "429");
}

#[test]
fn project_rate_limit_code() {
    let v = classify(&rpc(-32005, "exceeded project rate limit"));
    assert!(v.retry);
    assert_eq!(v.label.text(), "-32005");
}

#[test]
fn address_rate_limit_needs_message() {
    let v = classify(&rpc(-32016, "your IP hit the rate limit, slow down"));
    assert!(v.retry);
    assert_eq!(v.label.text(), "-32016");
    let w = classify(&rpc(-32016, "something else"));
    assert!(!w.retry);
    assert_eq!(w.label.text(), "unknown");
}

#[test]
fn header_not_found_is_retried_under_its_message() {
    let v = classify(&rpc(-32000, "header not found"));
    assert!(v.retry);
    assert_eq!(v.label.text(), "header not found");
    let w = classify(&rpc(-32000, "header not found!"));
    assert!(!w.retry);
}

#[test]
fn daily_limit_is_retried_under_its_message() {
    let m = "daily request count exceeded, request rate limited";
    let v = classify(&rpc(-32001, m));
    assert!(v.retry);
    assert_eq!(v.label.text(), m);
}

#[test]
fn other_http_status_is_terminal_under_its_number() {
    let v = classify(&Failure::HttpStatus(503));
    assert!(!v.retry);
    assert_eq!(v.class, FailureClass::HttpError);
    assert_eq!(v.label.text(), "503");
    assert_eq!(classify(&Failure::HttpStatus(5)).label.text(), "5");
    assert_eq!(classify(&Failure::HttpStatus(65535)).label.text(), "65535");
}

#[test]
fn malformed_body_uses_embedded_error() {
    let v = classify(&Failure::Malformed(Some(RpcErrorBody {
        code: -32005,
        message: "limit".to_string(),
    })));
    assert!(v.retry);
    assert_eq!(v.label.text(), "-32005");
    let w = classify(&Failure::Malformed(None));
    assert!(!w.retry);
    assert_eq!(w.class, FailureClass::MalformedResponse);
    assert_eq!(w.label.text(), "unknown");
}

#[test]
fn other_failures_are_unknown() {
    let v = classify(&Failure::Transport);
    assert!(!v.retry);
    assert_eq!(v.label.text(), "unknown");
    let w = classify(&rpc(-32601, "method not found"));
    assert!(!w.retry);
    assert_eq!(w.class, FailureClass::Unknown);
    let t = classify(&Failure::Timeout);
    assert!(t.retry);
    assert_eq!(t.class, FailureClass::Timeout);
}

#[test]
fn priority_order_code_before_message() {
    let v = classify(&rpc(-32005, "header not found"));
    assert_eq!(v.label, ErrorLabel::ProjectRateLimit);
}

#[test]
fn decimal_strings() {
    assert_eq!(decimal_string(0), "0");
    assert_eq!(decimal_string(10), "10");
    assert_eq!(decimal_string(429), "429");
}

#[test]
fn infix_search() {
    assert!(contains_text("hit rate limit", "rate limit"));
    assert!(contains_text("rate limit", "rate limit"));
    assert!(!contains_text("rate limi", "rate limit"));
    assert!(!contains_text("rate-limit", "rate limit"));
    assert!(contains_text("", ""));
    assert!(contains_text("ünïcode rate limit", "rate limit"));
}
