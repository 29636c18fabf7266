use novarch::classify::{is_network_or_download_error, mentions_network_failure};
use novarch::runner::{confirms, is_affirmative, next_step, Outcome, Runner, Step};

fn failed(text: &str) -> Outcome {
    Outcome::Failed { error_output: text.to_string() }
}

#[test]
fn timeout_is_retried_after_backoff() {
    let mut r = Runner::new();
    let s = r.record(&failed("error: Connection timed out while fetching core.db"));
    assert_eq!(s, Step::RetryAfter { seconds: 5 });
    assert_eq!(r.attempts(), 1);
}

#[test]
fn other_failure_asks_the_user() {
    let mut r = Runner::new();
    let s = r.record(&failed("error: invalid option '-Z'"));
    assert_eq!(s, Step::AskRetry);
}

#[test]
fn network_failures_give_up_after_three_attempts() {
    let mut r = Runner::new();
    assert_eq!(r.record(&failed("curl error")), Step::RetryAfter { seconds: 5 });
    assert_eq!(r.record(&failed("curl error")), Step::RetryAfter { seconds: 10 });
    assert_eq!(r.record(&failed("curl error")), Step::GiveUp);
    assert_eq!(r.attempts(), 3);
}

#[test]
fn success_stops() {
    let mut r = Runner::new();
    assert_eq!(r.record(&failed("could not resolve host")), Step::RetryAfter { seconds: 5 });
    assert_eq!(r.record(&Outcome::Succeeded), Step::Done);
}

#[test]
fn command_that_cannot_start_gives_up() {
    let mut r = Runner::new();
    assert_eq!(r.record(&Outcome::NotStarted), Step::GiveUp);
}

#[test]
fn next_step_values() {
    assert_eq!(next_step(1, true, false), Step::Done);
    assert_eq!(next_step(2, false, true), Step::RetryAfter { seconds: 10 });
    assert_eq!(next_step(3, false, true), Step::GiveUp);
    assert_eq!(next_step(7, false, false), Step::AskRetry);
}

#[test]
fn classification_ignores_case() {
    assert!(is_network_or_download_error("Connection Timed Out"));
    assert!(is_network_or_download_error("HTTP Error 503: service unavailable"));
    assert!(is_network_or_download_error("SSL handshake failed"));
    assert!(!is_network_or_download_error("error: invalid option"));
    assert!(!is_network_or_download_error(""));
}

#[test]
fn classification_of_lowered_text() {
    assert!(mentions_network_failure("error: failed retrieving file 'core.db'"));
    assert!(mentions_network_failure("no route to host"));
    assert!(!mentions_network_failure("Connection Timed Out"));
    assert!(!mentions_network_failure("permission denied"));
}

#[test]
fn replies_that_confirm() {
    assert!(confirms("y"));
    assert!(confirms("Y\n"));
    assert!(confirms("  y  "));
    assert!(confirms(""));
    assert!(confirms("\n"));
    assert!(!confirms("n"));
    assert!(!confirms("yes"));
    assert!(is_affirmative(" "));
    assert!(!is_affirmative("Y"));
}
