//! The decisions of a send run, driven the way the caller's loop drives
//! them, and the flattening of error chains.

use eruser::send::{error_chain, sender_for, Outcome, SendRun, Step, Summary, Transport};

/// Drive a run over `total` brokers: `results[i]` is what sending to the
/// i-th broker would give (`true` for delivered), and `cancel_after` cancels
/// once that many brokers have been dealt with. Returns the totals, the
/// outcomes in order, and how many sends reached the transport.
fn drive(
    total: usize,
    daily_limit: Option<usize>,
    results: &[bool],
    cancel_after: Option<usize>,
) -> (Summary, Vec<Outcome>, usize) {
    let mut run = SendRun::new(total, daily_limit);
    let mut outcomes = Vec::new();
    let mut transported = 0;
    while !run.is_finished() {
        let cancelled = cancel_after.is_some_and(|n| run.done >= n);
        match run.next_step(cancelled) {
            Step::Stop => {
                run.stop();
                break;
            }
            Step::Skip => outcomes.push(run.skip()),
            Step::Send => {
                transported += 1;
                let outcome = if results[run.done] {
                    Outcome::Sent { message_id: format!("<{}@example.com>", run.done) }
                } else {
                    Outcome::Failed { error: "refused".to_string() }
                };
                run.record(&outcome);
                outcomes.push(outcome);
            }
        }
    }
    (run.summary, outcomes, transported)
}

#[test]
fn summary_counts_attempts_excluding_skips() {
    let summary = Summary {
        sent: 3,
        failed: 2,
        skipped: 10,
        cancelled: false,
    };
    assert_eq!(summary.attempted(), 5);
}

#[test]
fn every_broker_gets_one_message() {
    let (summary, outcomes, transported) = drive(3, None, &[true, true, true], None);
    assert_eq!(summary.sent, 3);
    assert_eq!(summary.failed, 0);
    assert_eq!(summary.skipped, 0);
    assert!(!summary.cancelled);
    assert_eq!(outcomes.len(), 3);
    assert_eq!(transported, 3);
}

/// A bad address among many must not stop the others.
#[test]
fn one_failure_does_not_stop_the_run() {
    let (summary, outcomes, _) = drive(3, None, &[true, false, true], None);
    assert_eq!(summary.sent, 2);
    assert_eq!(summary.failed, 1);
    assert!(matches!(outcomes[1], Outcome::Failed { .. }));
}

#[test]
fn the_daily_limit_stops_sending_but_still_reports_every_broker() {
    let (summary, outcomes, transported) = drive(4, Some(2), &[true; 4], None);

    assert_eq!(summary.sent, 2);
    assert_eq!(summary.skipped, 2);
    assert_eq!(transported, 2);
    assert_eq!(
        outcomes[2],
        Outcome::SkippedOverLimit,
        "brokers past the cap should still be reported, as skipped"
    );
}

/// A failed attempt still consumed a send, so it counts against the cap.
#[test]
fn failures_count_against_the_daily_limit() {
    let (summary, _, _) = drive(3, Some(2), &[false, true, true], None);

    assert_eq!(summary.failed, 1);
    assert_eq!(summary.sent, 1);
    assert_eq!(summary.skipped, 1);
}

#[test]
fn cancelling_before_the_run_sends_nothing() {
    let (summary, _, transported) = drive(2, None, &[true, true], Some(0));

    assert!(summary.cancelled);
    assert_eq!(summary.sent, 0);
    assert_eq!(summary.skipped, 2);
    assert_eq!(transported, 0);
}

#[test]
fn cancelling_mid_run_stops_after_the_current_broker() {
    let (summary, _, transported) = drive(3, None, &[true, true, true], Some(1));

    assert!(summary.cancelled);
    assert_eq!(summary.sent, 1);
    assert_eq!(summary.skipped, 2);
    assert_eq!(transported, 1);
}

#[test]
fn an_empty_broker_list_is_a_no_op() {
    let (summary, outcomes, _) = drive(0, None, &[], None);
    assert_eq!(summary, Summary::default());
    assert!(outcomes.is_empty());
}

/// The pause comes between sends, never after the last broker or after one
/// skipped without contacting anything.
#[test]
fn the_rate_limit_delay_is_applied_between_sends_but_not_after_the_last() {
    let mut run = SendRun::new(3, None);
    let mut pauses = 0;
    while !run.is_finished() {
        run.record(&Outcome::Sent { message_id: String::new() });
        if run.pause_after(false, 2000) {
            pauses += 1;
        }
    }
    // Two gaps between three brokers, and none trailing the last.
    assert_eq!(pauses, 2);

    let skipping = SendRun::new(3, Some(0));
    assert!(!skipping.pause_after(true, 2000));
    assert!(!SendRun::new(3, None).pause_after(false, 0));
}

#[test]
fn error_chain_flattens_nested_sources() {
    let chain = vec![
        "invalid email: invalid recipient address".to_string(),
        "invalid recipient address".to_string(),
        "malformed address: not-an-address".to_string(),
    ];
    let flattened = error_chain(&chain);
    assert!(flattened.contains("invalid recipient address"));
    assert!(
        flattened.contains("not-an-address"),
        "the detail that identifies the problem must survive: {flattened}"
    );
    assert_eq!(
        flattened,
        "invalid email: invalid recipient address: invalid recipient address: malformed address: not-an-address"
    );
}

#[test]
fn error_chain_does_not_repeat_a_link_that_restates_its_parent() {
    let chain = vec![
        "subject contains a line break".to_string(),
        "subject contains a line break".to_string(),
    ];
    assert_eq!(error_chain(&chain), "subject contains a line break");
}

#[test]
fn sender_for_picks_the_dry_run_transport() {
    let config = eruser::config::EmailConfig {
        provider: "smtp".into(),
        from: "jane@example.com".into(),
        ..Default::default()
    };

    assert!(matches!(sender_for(&config, true), Transport::DryRun));
    match sender_for(&config, false) {
        Transport::Configured(picked) => assert_eq!(picked.provider, "smtp"),
        Transport::DryRun => panic!("a real run must not be a dry run"),
    }
}
