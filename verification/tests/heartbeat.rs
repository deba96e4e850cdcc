use heartbeat::checks::{default_status, Check, CheckKind, Config, Status};
use heartbeat::decimal::to_decimal;
use heartbeat::execute::{complete_run, http_outcome, kind_of, record_status, status_from_result};
use heartbeat::scheduler::{due, think};

fn http_check(name: &str, interval: u64) -> Check {
    Check {
        name: name.to_string(),
        interval,
        kind: CheckKind::Http { url: format!("http://{}.example", name), status: 200 },
        last_run: None,
        last_status: None,
    }
}

#[test]
fn default_status_is_200() {
    assert_eq!(default_status(), 200);
}

#[test]
fn decimal_rendering() {
    assert_eq!(to_decimal(0), "0");
    assert_eq!(to_decimal(7), "7");
    assert_eq!(to_decimal(10), "10");
    assert_eq!(to_decimal(200), "200");
    assert_eq!(to_decimal(500), "500");
    assert_eq!(to_decimal(65535), "65535");
}

#[test]
fn http_outcome_expected_code_succeeds() {
    assert!(http_outcome(200, 200).is_ok());
    assert!(http_outcome(404, 404).is_ok());
}

#[test]
fn http_outcome_mismatch_names_both_codes() {
    let r = http_outcome(200, 500);
    assert_eq!(r.unwrap_err(), "Expected 200, got status 500");
    let r = http_outcome(301, 200);
    assert_eq!(r.unwrap_err(), "Expected 301, got status 200");
}

#[test]
fn status_wraps_probe_success() {
    match status_from_result(Ok(()), 42) {
        Status::Success(elapsed) => assert_eq!(elapsed, 42),
        Status::Fail(_, _) => panic!("success result must record Success"),
    }
}

#[test]
fn status_wraps_probe_failure() {
    match status_from_result(Err("connection refused".to_string()), 7) {
        Status::Fail(elapsed, reason) => {
            assert_eq!(elapsed, 7);
            assert_eq!(reason, "connection refused");
        }
        Status::Success(_) => panic!("failed result must record Fail"),
    }
}

#[test]
fn never_run_check_is_due() {
    assert!(due(&None, 1000, 0));
    assert!(due(&None, u64::MAX, 5));
}

#[test]
fn due_only_after_interval() {
    assert!(!due(&Some(100), 1000, 100));
    assert!(!due(&Some(100), 1000, 1099));
    assert!(due(&Some(100), 1000, 1100));
    assert!(due(&Some(100), 1000, 5000));
    assert!(due(&Some(100), 0, 100));
}

#[test]
fn first_pass_dispatches_everything() {
    let mut config = Config { checks: vec![http_check("a", 1000), http_check("b", 60000)] };
    let dispatched = think(&mut config, 5);
    assert_eq!(dispatched, vec!["a".to_string(), "b".to_string()]);
    // Marking happened before the dispatch list was handed back.
    assert_eq!(config.checks[0].last_run, Some(5));
    assert_eq!(config.checks[1].last_run, Some(5));
}

#[test]
fn no_redispatch_before_interval_elapses() {
    let mut config = Config { checks: vec![http_check("a", 1000)] };
    let first = think(&mut config, 0);
    assert_eq!(first.len(), 1);
    // Still in flight or not, the same due period never dispatches twice.
    let again = think(&mut config, 999);
    assert!(again.is_empty());
    assert_eq!(config.checks[0].last_run, Some(0));
    let later = think(&mut config, 1000);
    assert_eq!(later, vec!["a".to_string()]);
    assert_eq!(config.checks[0].last_run, Some(1000));
}

#[test]
fn checks_run_at_their_own_cadence() {
    let mut config = Config { checks: vec![http_check("fast", 1000), http_check("slow", 10000)] };
    let mut fast_runs: u32 = 0;
    let mut slow_runs: u32 = 0;
    let mut now: u64 = 0;
    while now < 10000 {
        for name in think(&mut config, now) {
            if name == "fast" {
                fast_runs += 1;
            } else {
                slow_runs += 1;
            }
        }
        now += 1000;
    }
    assert_eq!(fast_runs, 10);
    assert_eq!(slow_runs, 1);
}

#[test]
fn recorded_status_is_exactly_the_completed_one() {
    let mut config = Config { checks: vec![http_check("a", 1000), http_check("b", 1000)] };
    let found = complete_run(&mut config, &"a".to_string(), Err("Expected 200, got status 500".to_string()), 31);
    assert!(found);
    match config.checks[0].last_status.as_ref().unwrap() {
        Status::Fail(elapsed, reason) => {
            assert_eq!(*elapsed, 31);
            assert_eq!(reason, "Expected 200, got status 500");
        }
        Status::Success(_) => panic!("a failed probe must record Fail"),
    }
    // No other check's state was touched.
    assert!(config.checks[1].last_status.is_none());
}

#[test]
fn later_status_write_replaces_wholesale() {
    let mut config = Config { checks: vec![http_check("a", 1000)] };
    assert!(record_status(&mut config, &"a".to_string(), Status::Success(12)));
    assert!(record_status(&mut config, &"a".to_string(), Status::Fail(99, "timed out".to_string())));
    // The final status is the later write, whole: no field of the first survives.
    match config.checks[0].last_status.as_ref().unwrap() {
        Status::Fail(elapsed, reason) => {
            assert_eq!(*elapsed, 99);
            assert_eq!(reason, "timed out");
        }
        Status::Success(_) => panic!("the later write must win"),
    }
}

#[test]
fn unknown_name_is_reported_not_swallowed() {
    let mut config = Config { checks: vec![http_check("a", 1000)] };
    assert!(!record_status(&mut config, &"ghostly".to_string(), Status::Success(1)));
    assert!(config.checks[0].last_status.is_none());
    assert!(kind_of(&config, &"ghostly".to_string()).is_none());
}

#[test]
fn kind_lookup_finds_the_named_check() {
    let config = Config {
        checks: vec![
            http_check("web", 1000),
            Check {
                name: "db".to_string(),
                interval: 5000,
                kind: CheckKind::Tcp { host: "db.example".to_string(), port: 5432 },
                last_run: None,
                last_status: None,
            },
        ],
    };
    match kind_of(&config, &"db".to_string()) {
        Some(CheckKind::Tcp { host, port }) => {
            assert_eq!(host, "db.example");
            assert_eq!(port, 5432);
        }
        _ => panic!("expected the tcp check"),
    }
    match kind_of(&config, &"web".to_string()) {
        Some(CheckKind::Http { url, status }) => {
            assert_eq!(url, "http://web.example");
            assert_eq!(status, 200);
        }
        _ => panic!("expected the http check"),
    }
}

#[test]
fn snapshot_clone_preserves_every_check() {
    let mut config = Config { checks: vec![http_check("a", 1000), http_check("b", 2000)] };
    config.checks[0].last_run = Some(4);
    config.checks[0].last_status = Some(Status::Success(2));
    let snapshot = config.clone();
    assert_eq!(snapshot.checks.len(), 2);
    assert_eq!(snapshot.checks[0].name, "a");
    assert_eq!(snapshot.checks[0].last_run, Some(4));
    match snapshot.checks[0].last_status.as_ref().unwrap() {
        Status::Success(elapsed) => assert_eq!(*elapsed, 2),
        Status::Fail(_, _) => panic!("snapshot must keep the recorded status"),
    }
    assert_eq!(snapshot.checks[1].name, "b");
    assert_eq!(snapshot.checks[1].interval, 2000);
}
