use rpc_watch::classify::{ErrorLabel, Failure, RpcErrorBody};
use rpc_watch::transport::{backoff_ms, CallTracker, MetricOp, NextStep};

fn completions(ops: &[MetricOp]) -> (usize, usize) {
    let lat = ops.iter().filter(|o| **o == MetricOp::ObserveLatency).count();
    let req = ops.iter().filter(|o| **o == MetricOp::CountRequest).count();
    (lat, req)
}

#[test]
fn backoff_doubles_from_500ms() {
    assert_eq!(backoff_ms(1), 500);
    assert_eq!(backoff_ms(2), 1000);
    assert_eq!(backoff_ms(3), 2000);
    assert_eq!(backoff_ms(10), 256000);
}

#[test]
fn rate_limit_exhaustion_after_eleven_failures() {
    let mut call = CallTracker::new();
    let mut all = Vec::new();
    for i in 1..=10u32 {
        let (ops, next) = call.on_failure(&Failure::HttpStatus(429));
        assert_eq!(ops, vec![MetricOp::CountError(ErrorLabel::TooManyRequests)]);
        assert_eq!(next, NextStep::RetryAfter(backoff_ms(i)));
        all.extend(ops);
    }
    assert!(!call.is_finished());
    assert_eq!(call.rate_limit_retries(), 10);
    let (ops, next) = call.on_failure(&Failure::HttpStatus(429));
    assert!(matches!(next, NextStep::GiveUp(v) if v.label == ErrorLabel::TooManyRequests));
    assert_eq!(ops[0], MetricOp::CountError(ErrorLabel::TooManyRequests));
    all.extend(ops);
    assert!(call.is_finished());
    let errors = all.iter().filter(|o| matches!(o, MetricOp::CountError(_))).count();
    assert_eq!(errors, 11);
    assert_eq!(completions(&all), (1, 1));
}

#[test]
fn timeouts_get_three_retries() {
    let mut call = CallTracker::new();
    for _ in 0..3 {
        let (_, next) = call.on_failure(&Failure::Timeout);
        assert!(matches!(next, NextStep::RetryAfter(_)));
    }
    let (ops, next) = call.on_failure(&Failure::Timeout);
    assert!(matches!(next, NextStep::GiveUp(_)));
    assert_eq!(completions(&ops), (1, 1));
}

#[test]
fn success_after_retries_completes_once() {
    let mut call = CallTracker::new();
    let mut all = Vec::new();
    let header = Failure::JsonRpc(RpcErrorBody {
        code: -32000,
        message: "header not found".to_string(),
    });
    let (ops, next) = call.on_failure(&header);
    assert_eq!(next, NextStep::RetryAfter(500));
    all.extend(ops);
    let (ops, next) = call.on_failure(&Failure::Timeout);
    assert_eq!(next, NextStep::RetryAfter(500));
    all.extend(ops);
    all.extend(call.on_success());
    assert_eq!(completions(&all), (1, 1));
    assert_eq!(
        all[..2],
        [
            MetricOp::CountError(ErrorLabel::HeaderNotFound),
            MetricOp::CountError(ErrorLabel::Unknown)
        ]
    );
    assert!(call.on_success().is_empty());
    assert_eq!(call.on_failure(&Failure::Timeout), (vec![], NextStep::Finished));
}

#[test]
fn terminal_failure_completes_at_once() {
    let mut call = CallTracker::new();
    let (ops, next) = call.on_failure(&Failure::HttpStatus(500));
    assert_eq!(
        ops,
        vec![
            MetricOp::CountError(ErrorLabel::Status(500)),
            MetricOp::ObserveLatency,
            MetricOp::CountRequest
        ]
    );
    assert!(matches!(next, NextStep::GiveUp(v) if !v.retry));
    assert!(call.on_success().is_empty());
}
