use fib_bench::handler::{index, payload, Payload, FIB_INDEX, LANGUAGE};

#[test]
fn constants_are_fixed() {
    assert_eq!(LANGUAGE, "Rust");
    assert_eq!(FIB_INDEX, 30);
}

#[test]
fn payload_holds_what_it_is_given() {
    let p = payload(5, 7);
    assert_eq!(p, Payload { language: "Rust", fibonacci_30: 5, compute_time_ms: 7 });
    let q = payload(u64::MAX, u128::MAX);
    assert_eq!(q.language, "Rust");
    assert_eq!(q.fibonacci_30, u64::MAX);
    assert_eq!(q.compute_time_ms, u128::MAX);
}

#[test]
fn index_reports_the_thirtieth_number() {
    let p = index();
    assert_eq!(p.language, "Rust");
    assert_eq!(p.fibonacci_30, 832_040);
}

#[test]
fn index_measures_a_plausible_time() {
    let before = std::time::Instant::now();
    let p = index();
    let outer = before.elapsed().as_millis();
    // The time in the response is an unsigned count of whole milliseconds,
    // and the handler cannot have measured more than its caller did.
    assert!(p.compute_time_ms <= outer);
}

#[test]
fn repeated_requests_are_independent() {
    let first = index();
    let second = index();
    let third = index();
    assert_eq!(first.fibonacci_30, 832_040);
    assert_eq!(second.fibonacci_30, first.fibonacci_30);
    assert_eq!(third.fibonacci_30, first.fibonacci_30);
    assert_eq!(second.language, first.language);
    assert_eq!(third.language, first.language);
}

#[test]
fn every_request_computes_anew() {
    // A handler that kept its first result would answer later requests in no
    // time; here each request does the whole recursion, so a run of requests
    // takes measurably longer than the clock's resolution.
    let before = std::time::Instant::now();
    let mut total: u128 = 0;
    for _ in 0..20 {
        let p = index();
        assert_eq!(p.fibonacci_30, 832_040);
        total += p.compute_time_ms;
    }
    let outer = before.elapsed();
    assert!(outer.as_micros() > 0);
    assert!(total <= outer.as_millis());
}
