use metobs::{classify_response, Attempt, Backoff, Error, Step, INITIAL_DELAY_MS, MAX_ATTEMPTS};

/// Drives a fresh backoff through `outcomes` with the given jitter and returns
/// the result, the waits and the number of attempts used.
fn drive(outcomes: Vec<Attempt>, jitter: u64) -> (Option<Attempt>, Vec<u64>, usize) {
    let mut backoff = Backoff::new();
    let mut waits = Vec::new();
    let mut used = 0;
    for outcome in outcomes {
        used += 1;
        match backoff.next(outcome, jitter) {
            Step::Finish(result) => return (Some(result), waits, used),
            Step::Wait(ms) => waits.push(ms),
        }
    }
    (None, waits, used)
}

fn throttled(n: usize) -> Vec<Attempt> {
    (0..n).map(|_| Err(Error::Throttling)).collect()
}

#[test]
fn success_status_passes_body() {
    match classify_response(200, "ok".to_string()) {
        Ok(b) => assert_eq!(b, "ok"),
        Err(e) => panic!("unexpected {:?}", e),
    }
    assert!(matches!(classify_response(299, "x".to_string()), Ok(_)));
    assert!(matches!(classify_response(204, String::new()), Ok(_)));
}

#[test]
fn status_429_is_throttling() {
    assert!(matches!(classify_response(429, "slow".to_string()), Err(Error::Throttling)));
}

#[test]
fn other_statuses_are_api_errors() {
    match classify_response(404, "missing".to_string()) {
        Err(Error::ApiError(s, b)) => {
            assert_eq!(s, 404);
            assert_eq!(b, "missing");
        }
        other => panic!("unexpected {:?}", other),
    }
    assert!(matches!(classify_response(500, String::new()), Err(Error::ApiError(500, _))));
    assert!(matches!(classify_response(199, String::new()), Err(Error::ApiError(199, _))));
    assert!(matches!(classify_response(300, String::new()), Err(Error::ApiError(300, _))));
}

#[test]
fn throttled_then_success_succeeds() {
    for k in 0..(MAX_ATTEMPTS as usize) {
        let mut outcomes = throttled(k);
        outcomes.push(Ok("body".to_string()));
        let (result, waits, used) = drive(outcomes, 1000);
        match result {
            Some(Ok(b)) => assert_eq!(b, "body"),
            other => panic!("unexpected {:?}", other),
        }
        assert_eq!(used, k + 1);
        assert_eq!(waits.len(), k);
    }
}

#[test]
fn five_throttles_fail_with_throttling() {
    let (result, waits, used) = drive(throttled(5), 1000);
    assert!(matches!(result, Some(Err(Error::Throttling))));
    assert_eq!(used, 5);
    assert_eq!(waits.len(), 4);
}

#[test]
fn fatal_error_stops_at_once() {
    let outcomes = vec![
        Err(Error::ApiError(500, "boom".to_string())),
        Ok("never".to_string()),
    ];
    let (result, waits, used) = drive(outcomes, 1000);
    assert!(matches!(result, Some(Err(Error::ApiError(500, _)))));
    assert_eq!(used, 1);
    assert!(waits.is_empty());

    let outcomes = vec![Err(Error::NetworkError("down".to_string())), Ok("never".to_string())];
    let (result, _, used) = drive(outcomes, 1000);
    assert!(matches!(result, Some(Err(Error::NetworkError(_)))));
    assert_eq!(used, 1);
}

#[test]
fn backoff_doubles_from_initial_delay() {
    let (_, waits, _) = drive(throttled(5), 1000);
    assert_eq!(INITIAL_DELAY_MS, 100);
    assert_eq!(waits, vec![100, 200, 400, 800]);
}

#[test]
fn jitter_scales_each_wait() {
    let (_, waits, _) = drive(throttled(5), 750);
    assert_eq!(waits, vec![75, 150, 300, 600]);
    let (_, waits, _) = drive(throttled(5), 1249);
    assert_eq!(waits, vec![124, 249, 499, 999]);
}
