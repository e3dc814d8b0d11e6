//! Where a reply moves its broker, and what a scan reads and stores.

use eruser::history::PipelineStatus;
use eruser::inbox::classifier::ResponseType;
use eruser::inbox::scan::{display_name, domain_of_address, stage_for, ScanOptions, DEFAULT_DAYS};
use eruser::inbox::Email;

#[test]
fn each_reply_moves_the_broker_to_the_matching_stage() {
    assert_eq!(stage_for(ResponseType::Success), PipelineStatus::Confirmed);
    assert_eq!(
        stage_for(ResponseType::FormRequired),
        PipelineStatus::FormRequired
    );
    assert_eq!(
        stage_for(ResponseType::ConfirmationRequired),
        PipelineStatus::AwaitingConfirmation
    );
    assert_eq!(stage_for(ResponseType::Rejected), PipelineStatus::Rejected);
    assert_eq!(
        stage_for(ResponseType::Pending),
        PipelineStatus::AwaitingResponse
    );
}

/// A bounce means the request never arrived. That is a failure of the send,
/// not a refusal by the broker, and filing it as a rejection would say the
/// company answered when it never saw the request.
#[test]
fn a_bounce_is_a_failure_rather_than_a_rejection() {
    assert_eq!(stage_for(ResponseType::Bounced), PipelineStatus::Failed);
    assert_ne!(stage_for(ResponseType::Bounced), PipelineStatus::Rejected);
}

/// An unreadable reply still means the broker answered, so the broker is
/// waiting on something rather than finished.
#[test]
fn an_unreadable_reply_leaves_the_broker_awaiting_a_response() {
    assert_eq!(
        stage_for(ResponseType::Unknown),
        PipelineStatus::AwaitingResponse
    );
}

/// A mailbox holds a great deal that has nothing to do with eruser.
#[test]
fn unmatched_mail_is_left_out_by_default() {
    assert!(!ScanOptions::default().include_unmatched);
    assert_eq!(ScanOptions::default().days, DEFAULT_DAYS);
}

#[test]
fn a_sender_is_named_by_the_best_thing_available() {
    let mut email = Email::default();
    assert_eq!(display_name(&email), "unknown sender");

    email.from = "privacy@acme.example".into();
    assert_eq!(display_name(&email), "privacy@acme.example");

    email.from_name = "Acme Privacy Team".into();
    assert_eq!(display_name(&email), "Acme Privacy Team");

    email.broker_name = "Acme Data".into();
    assert_eq!(display_name(&email), "Acme Data");
}

#[test]
fn an_address_reduces_to_its_domain() {
    assert_eq!(domain_of_address("Privacy@ACME.example"), "acme.example");
    assert_eq!(domain_of_address("not-an-address"), "");
}

