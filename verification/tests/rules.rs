//! The library's own rules on concrete values: accounts and passwords,
//! scans and reclassification, drafting runs, auto-send, and the form list.

use eruser::broker::Broker;
use eruser::config::Profile;
use eruser::decision::Answer;
use eruser::history::accounts::{capacity_of, remaining_today, AccountScope, SenderAccount};
use eruser::history::drafts::{draft_task, pending_count, NewReplyDraft, ReplyDraft};
use eruser::history::types::{form_stats_of, forms_with_status, FormRow, NewRecord};
use eruser::config::{check_inbox_settings, InboxSettingsProblem};
use eruser::history::users::{
    check_login, check_password, check_sign_in, new_password_hash, normalize_username,
    AccountError,
};
use eruser::history::{DraftStatus, FormStatus, PipelineStatus, ReplyType, Status, TaskType};
use eruser::inbox::classifier::{classify, ResponseType};
use eruser::inbox::monitor::{
    broker_domains, broker_emails, parse_message, uid_batches, Envelope, EnvelopeAddress,
    FetchedMessage,
};
use eruser::inbox::scan::{
    considered, reclassification_changes, reclassify, response_for, stage_update, ScanRun,
    StoredReply,
};
use eruser::inbox::Email;
use eruser::reply::auto_send::{recipient, send_check, SendResult};
use eruser::reply::pipeline::{
    context_for, draft_record, DraftAction, DraftEvent, DraftPhase, DraftRun,
};
use eruser::reply::{chat_url, check_status, first_choice, validate, Error, RawDraft};
use eruser::text::{decimal_string, signed_decimal_string};

fn profile() -> Profile {
    Profile {
        first_name: "Jane".into(),
        last_name: "Doe".into(),
        email: "jane@example.com".into(),
        ..Default::default()
    }
}

// -------------------------------------------------------------------
// Accounts and passwords
// -------------------------------------------------------------------

#[test]
fn a_username_is_trimmed_and_checked() {
    assert_eq!(normalize_username("  jane.doe ").unwrap(), "jane.doe");
    assert_eq!(normalize_username("   "), Err(AccountError::MissingUsername));
    assert_eq!(normalize_username("jane doe"), Err(AccountError::InvalidUsername));
    assert_eq!(normalize_username("jané"), Err(AccountError::InvalidUsername));
    // Normalizing what came back changes nothing.
    let once = normalize_username(" a-b_c ").unwrap();
    assert_eq!(normalize_username(&once).unwrap(), once);
}

#[test]
fn a_password_is_counted_in_characters() {
    assert_eq!(check_password("short"), Err(AccountError::PasswordTooShort));
    assert!(check_password("éééééééé").is_ok());
    assert_eq!(
        new_password_hash("seven77"),
        Err(AccountError::PasswordTooShort)
    );
}

/// A password that was stored signs in, and another does not.
#[test]
fn a_stored_password_signs_in_and_a_wrong_one_does_not() {
    let hash = new_password_hash("correct horse").expect("a hash");
    assert_ne!(hash, "correct horse", "the password itself is never stored");
    assert_eq!(check_login(Some(&hash), "correct horse"), Ok(()));
    assert_eq!(
        check_login(Some(&hash), "wrong horse"),
        Err(AccountError::WrongPassword)
    );
    assert_eq!(
        check_login(None, "correct horse"),
        Err(AccountError::NoPasswordSet)
    );
    assert_eq!(
        check_login(Some("not a hash"), "correct horse"),
        Err(AccountError::WrongPassword)
    );
}

fn account(id: i64, address: &str, limit: i64) -> SenderAccount {
    SenderAccount {
        id,
        user_id: 1,
        label: String::new(),
        scope: AccountScope::Personal,
        provider: "smtp".into(),
        from_address: address.into(),
        smtp: Default::default(),
        api_key: String::new(),
        daily_limit: limit,
        enabled: true,
        priority: 0,
        created_at: None,
    }
}

/// A shared mailbox has one allowance, however many people send through it,
/// and what is left never goes below zero.
#[test]
fn capacity_is_what_is_left_of_each_allowance() {
    let capacity = capacity_of(
        vec![account(1, "one@gmail.com", 250), account(2, "two@gmail.com", 10)],
        &vec![(1, 40), (2, 15)],
    );
    assert_eq!(capacity[0].sent_today, 40);
    assert_eq!(capacity[0].remaining, 210);
    assert_eq!(capacity[1].remaining, 0);
    assert_eq!(remaining_today(&capacity), 210);
}

#[test]
fn an_account_builds_its_own_mail_settings() {
    let mut resend = account(3, "jane@example.com", 100);
    resend.provider = "resend".into();
    resend.api_key = "re_key".into();
    let config = resend.email_config();
    assert_eq!(config.provider, "resend");
    assert_eq!(config.from, "jane@example.com");
    assert_eq!(config.resend.api_key, "re_key");
    assert_eq!(config.sendgrid.api_key, "re_key");
}

// -------------------------------------------------------------------
// Scans and reclassification
// -------------------------------------------------------------------

fn reply(broker_id: &str, subject: &str, body: &str) -> Email {
    Email {
        from: format!("privacy@{broker_id}.example"),
        from_domain: format!("{broker_id}.example"),
        subject: subject.to_string(),
        body: body.to_string(),
        broker_id: broker_id.to_string(),
        broker_name: format!("Broker {broker_id}"),
        received_at: Some(1_786_000_000),
        ..Default::default()
    }
}

#[test]
fn a_scan_reads_broker_mail_and_only_that_unless_asked() {
    let emails = vec![
        reply("acme", "Re: request", "We have removed your data."),
        Email { subject: "Newsletter".into(), ..Default::default() },
        reply("beta", "Re: request", "Please use our opt-out form."),
    ];
    assert_eq!(considered(&emails, false), vec![0, 2]);
    assert_eq!(considered(&emails, true), vec![0, 1, 2]);
}

#[test]
fn a_classified_reply_is_stored_against_its_broker() {
    let email = reply(
        "acme",
        "Re: Personal Data Removal Request",
        "Please use our opt-out form: https://acme.example/opt-out",
    );
    let result = classify(&email);
    let row = response_for(7, &email, &result).expect("a broker reply is stored");

    assert_eq!(row.user_id, 7);
    assert_eq!(row.response_type, eruser::history::ResponseType::FormRequired);
    assert_eq!(row.form_url, "https://acme.example/opt-out");
    assert_eq!(row.broker_name, "Broker acme");
    assert_eq!(row.email_body, "Please use our opt-out form: https://acme.example/opt-out");
    assert!(row.received_at.is_some());
    assert_eq!(stage_update(&email, result.response_type), Some(PipelineStatus::FormRequired));

    let unmatched = Email { subject: "hello".into(), ..Default::default() };
    assert!(response_for(7, &unmatched, &classify(&unmatched)).is_none());
    assert_eq!(stage_update(&unmatched, ResponseType::Success), None);
}

#[test]
fn a_scan_counts_what_it_did() {
    let mut run = ScanRun::new(3, 2);
    let acme = reply("acme", "Undeliverable", "x");
    run.count(&acme, ResponseType::Bounced, true, true);
    let stranger = Email::default();
    run.count(&stranger, ResponseType::Unknown, false, false);
    run.finish(&[]);

    assert_eq!(run.summary.fetched, 3);
    assert_eq!(run.summary.matched, 1);
    assert_eq!(run.summary.stored, 1);
    assert_eq!(run.summary.advanced, 1);
    assert_eq!(run.summary.bounced, 1);
    assert_eq!(run.done, 2);
}

fn stored(subject: &str, body: &str) -> StoredReply {
    StoredReply {
        broker_id: "acme".into(),
        broker_name: "Broker acme".into(),
        response_type: eruser::history::ResponseType::Unknown,
        email_from: "privacy@acme.example".into(),
        email_subject: subject.into(),
        email_body: body.into(),
        form_url: String::new(),
        confirm_url: String::new(),
        needs_review: true,
    }
}

#[test]
fn reclassifying_corrects_a_stored_reply_from_its_body() {
    let old = stored(
        "Re: Personal Data Removal Request",
        "Please use our opt-out form: https://acme.example/opt-out",
    );
    let new = reclassify(&old);
    assert_eq!(new.response_type, ResponseType::FormRequired);
    assert_eq!(new.form_url, "https://acme.example/opt-out");
    assert!(!new.needs_review, "it is no longer ambiguous");
    assert!(reclassification_changes(&old, &new, false));
}

#[test]
fn reclassifying_without_a_body_falls_back_to_the_subject() {
    let old = stored("Your Request Has Been Received", "");
    let new = reclassify(&old);
    assert_eq!(new.response_type, ResponseType::Pending);
    assert_eq!(new.form_url, "");
}

#[test]
fn reclassifying_leaves_an_unchanged_reply_alone() {
    let old = stored("Hello", "");
    let new = reclassify(&old);
    assert_eq!(new.response_type, ResponseType::Unknown);
    assert!(!reclassification_changes(&old, &new, true));
    assert!(reclassification_changes(&old, &new, false));
}

// -------------------------------------------------------------------
// Reading fetched messages
// -------------------------------------------------------------------

#[test]
fn a_fetched_message_is_matched_to_its_broker() {
    let brokers = [Broker {
        id: "acme".into(),
        name: "Acme Data".into(),
        email: "privacy@acme.example".into(),
        ..Default::default()
    }];
    let index = broker_domains(&brokers);
    let message = FetchedMessage {
        uid: Some(42),
        envelope: Some(Envelope {
            subject: Some(b"Re: your request".to_vec()),
            message_id: Some(b"<m1@acme.example>".to_vec()),
            from: vec![EnvelopeAddress {
                name: Some(b"Acme Privacy".to_vec()),
                mailbox: Some(b"privacy".to_vec()),
                host: Some(b"ACME.example".to_vec()),
            }],
        }),
        body: Some(
            b"From: privacy@acme.example\r\nContent-Type: text/plain\r\n\r\nDone.\r\n".to_vec(),
        ),
    };

    let email = parse_message(&message, &index).expect("an envelope was there");
    assert_eq!(email.uid, 42);
    assert_eq!(email.subject, "Re: your request");
    assert_eq!(email.from, "privacy@ACME.example");
    assert_eq!(email.from_domain, "acme.example");
    assert_eq!(email.from_name, "Acme Privacy");
    assert_eq!(email.broker_id, "acme");
    assert_eq!(email.broker_name, "Acme Data");
    assert!(email.body.contains("Done."));

    let bare = FetchedMessage { uid: None, envelope: None, body: None };
    assert!(parse_message(&bare, &index).is_none());
}

#[test]
fn uids_are_fetched_in_sorted_batches() {
    let uids: Vec<u32> = (1..=120).rev().collect();
    let batches = uid_batches(uids);
    assert_eq!(batches.len(), 3);
    assert!(batches[0].starts_with("1,2,3,"));
    assert!(batches[0].ends_with(",50"));
    assert!(batches[2].starts_with("101,"));
    assert!(batches[2].ends_with(",120"));
    assert!(uid_batches(Vec::new()).is_empty());
}

#[test]
fn only_broker_mail_is_kept_in_order() {
    let kept = broker_emails(vec![
        reply("acme", "a", ""),
        Email::default(),
        reply("beta", "b", ""),
    ]);
    let ids: Vec<&str> = kept.iter().map(|e| e.broker_id.as_str()).collect();
    assert_eq!(ids, ["acme", "beta"]);
}

// -------------------------------------------------------------------
// Drafting runs and auto-send
// -------------------------------------------------------------------

#[test]
fn a_drafting_run_stops_at_its_cap() {
    let mut run = DraftRun::new(5, 2);
    assert!(!run.is_full());
    assert_eq!(run.step(DraftEvent::Begin), DraftAction::Route);
    assert_eq!(
        run.step(DraftEvent::Routed(Some(ReplyType::Confirm))),
        DraftAction::CheckExisting(ReplyType::Confirm)
    );
    assert_eq!(run.step(DraftEvent::HasDraft(false)), DraftAction::Compose(ReplyType::Confirm));
    assert_eq!(run.asked, 1);
    assert_eq!(run.step(DraftEvent::Composed(true)), DraftAction::Validate(ReplyType::Confirm));
    assert_eq!(run.step(DraftEvent::Validated(true)), DraftAction::Store(ReplyType::Confirm));
    assert_eq!(run.step(DraftEvent::Stored), DraftAction::Next);
    assert_eq!(run.summary.drafted, 1);
    assert!(!run.is_full());
}

#[test]
fn a_kept_draft_answers_in_the_brokers_thread() {
    let reply = stored("Opt out request received", "Please confirm by replying.");
    let context = context_for(ReplyType::Confirm, &reply, &profile());
    assert_eq!(context.original_body, "Please confirm by replying.");
    let draft = validate(
        &RawDraft { body: "  My request stands; please complete it.  ".into() },
        &context,
    )
    .expect("a plain confirmation passes");
    assert_eq!(draft.body, "My request stands; please complete it.");
    assert_eq!(
        draft.validation,
        "{\"banned_phrases\":\"passed\",\"fact_check\":\"passed\",\"length\":38}"
    );

    let record = draft_record(3, &reply, ReplyType::Confirm, &draft, "canned:confirm_stands");
    assert_eq!(record.subject, "Re: Opt out request received");
    assert_eq!(record.in_reply_to, "Opt out request received");
    assert_eq!(record.model, "canned:confirm_stands");
    assert_eq!(NewReplyDraft::default().validation, "{}");
}

fn waiting_draft(reply_type: ReplyType, body: &str) -> ReplyDraft {
    ReplyDraft {
        id: 12,
        user_id: 1,
        broker_id: "acme".into(),
        broker_name: "Acme Data".into(),
        reply_type,
        in_reply_to: "Your request".into(),
        subject: "Re: Your request".into(),
        body: body.into(),
        model: "canned:confirm_stands".into(),
        status: DraftStatus::Draft,
        validation: "{}".into(),
        created_at: None,
        sent_at: None,
    }
}

#[test]
fn only_a_waiting_whitelisted_draft_that_passes_may_go_alone() {
    let whitelist = vec!["confirm".to_string(), "id_verification".to_string()];
    let ok = waiting_draft(ReplyType::Confirm, "My request stands.");
    assert_eq!(
        send_check(&ok, &whitelist, &profile()),
        Ok(Ok("My request stands.".to_string()))
    );

    let sent = ReplyDraft { status: DraftStatus::Sent, ..ok.clone() };
    assert_eq!(
        send_check(&sent, &whitelist, &profile()),
        Ok(Err(SendResult::NotEligible("the draft was already sent".into())))
    );

    let id = waiting_draft(ReplyType::IdVerification, "What do you need?");
    assert_eq!(
        send_check(&id, &whitelist, &profile()),
        Ok(Err(SendResult::NotEligible(
            "id_verification replies are not on the auto-send whitelist; a person has to send this"
                .into()
        )))
    );

    let promising = waiting_draft(ReplyType::Confirm, "I will send my passport.");
    assert_eq!(
        send_check(&promising, &whitelist, &profile()),
        Err(Error::DraftRefused(eruser::reply::ValidationError::PromisesDocuments))
    );

    assert_eq!(recipient(Some("privacy@acme.example".into())), Ok("privacy@acme.example".into()));
    assert!(recipient(Some(String::new())).is_err());
    assert!(recipient(None).is_err());
}

#[test]
fn a_draft_that_breaks_the_rules_is_refused_in_words() {
    let whitelist = vec!["confirm".to_string()];
    let promising =
        waiting_draft(ReplyType::Confirm, "I will send my passport in the morning post.");
    let refused = send_check(&promising, &whitelist, &profile()).unwrap_err();
    assert!(refused.message().contains("refused"));
    assert_eq!(
        refused.message(),
        "the draft was refused: the draft promises to send documents, which eruser never does"
    );
    assert_eq!(
        Error::Wording("no pre-written reply exists for confirm".into()).message(),
        "the reply's wording could not be prepared: no pre-written reply exists for confirm"
    );
    assert_eq!(
        Error::DrafterUnavailable("timeout".into()).message(),
        "the drafting model could not be reached: timeout"
    );
}

#[test]
fn a_draft_waits_on_the_task_list() {
    let draft = waiting_draft(ReplyType::Confirm, "x");
    let task = draft_task(&draft);
    assert_eq!(task.task_type, TaskType::DraftReply);
    assert_eq!(task.browser_state, "12");
    assert_eq!(
        task.notes,
        "Draft #12 \u{2014} a reply to \"Your request\" is written and waiting to be sent"
    );
    let sent = ReplyDraft { status: DraftStatus::Sent, ..draft.clone() };
    assert_eq!(pending_count(&[draft, sent]), 1);
}

#[test]
fn a_drafting_model_answer_is_read_defensively() {
    assert_eq!(
        chat_url("http://localhost:11434/v1//"),
        "http://localhost:11434/v1/chat/completions"
    );
    assert!(check_status(true, 200).is_ok());
    assert_eq!(
        check_status(false, 503),
        Err(Error::DrafterUnavailable("the drafting model answered HTTP 503".into()))
    );
    assert_eq!(first_choice(vec!["Hello".into(), "Other".into()]).unwrap().body, "Hello");
    assert_eq!(
        first_choice(Vec::new()),
        Err(Error::DrafterUnavailable("the drafting model returned no choices".into()))
    );
}

// -------------------------------------------------------------------
// History rows
// -------------------------------------------------------------------

fn form_row(broker_id: &str, task_id: i64, task_status: &str, pipeline: &str) -> FormRow {
    FormRow {
        broker_id: broker_id.into(),
        broker_name: format!("Broker {broker_id}"),
        form_url: format!("https://{broker_id}.example/opt-out"),
        email_subject: "Re: request".into(),
        detected_at: None,
        task_id,
        task_status: task_status.into(),
        pipeline_status: pipeline.into(),
    }
}

/// The join can give several rows per broker; the newest, listed first,
/// wins, and a task says more than the pipeline stage.
#[test]
fn the_form_list_names_each_broker_once() {
    let forms = forms_with_status(&[
        form_row("acme", 4, "pending", "form_required"),
        form_row("acme", 0, "", "form_filled"),
        form_row("beta", 0, "", "confirmed"),
        form_row("gamma", 0, "", "rejected"),
        form_row("delta", 9, "completed", "failed"),
    ]);
    let statuses: Vec<(&str, FormStatus)> =
        forms.iter().map(|f| (f.broker_id.as_str(), f.status)).collect();
    assert_eq!(
        statuses,
        [
            ("acme", FormStatus::Captcha),
            ("beta", FormStatus::Filled),
            ("gamma", FormStatus::Skipped),
            ("delta", FormStatus::Filled),
        ]
    );
}

#[test]
fn every_form_is_counted_in_one_state() {
    let stats = form_stats_of(&[
        FormStatus::Pending,
        FormStatus::Filled,
        FormStatus::Filled,
        FormStatus::Captcha,
        FormStatus::Skipped,
    ]);
    assert_eq!(stats.pending, 1);
    assert_eq!(stats.filled, 2);
    assert_eq!(stats.captcha, 1);
    assert_eq!(stats.failed, 0);
    assert_eq!(stats.skipped, 1);
}

#[test]
fn a_model_is_told_how_the_patterns_read_the_email() {
    assert_eq!(
        eruser::reply::routing::classifier_note(eruser::history::ResponseType::Pending),
        "\nThe pattern classifier read this email as: received and being worked on.\n"
    );
}

#[test]
fn a_record_is_built_for_its_user_and_account() {
    let record = NewRecord::sent("acme", "Acme", "privacy@acme.example", "gdpr", "<id>", 100)
        .for_user(3)
        .through_account(Some(8));
    assert_eq!(record.user_id, 3);
    assert_eq!(record.sender_account_id, Some(8));
    assert_eq!(record.status, Status::Sent);
    assert_eq!(record.sent_at, Some(100));
    let failed = NewRecord::failed("acme", "Acme", "a@b.example", "gdpr", "refused", 5);
    assert_eq!(failed.status, Status::Failed);
    assert_eq!(failed.error, "refused");
    assert_eq!(failed.message_id, "");
}

#[test]
fn numbers_are_written_in_decimal() {
    assert_eq!(decimal_string(0), "0");
    assert_eq!(decimal_string(1234567890), "1234567890");
    assert_eq!(signed_decimal_string(-42), "-42");
    assert_eq!(signed_decimal_string(i64::MIN), i64::MIN.to_string());
}


/// Drive a drafting run the way the caller does, answering every question
/// the same way: each reply deserves a confirmation, `has_draft` says
/// whether one exists, and the wording composes and passes when asked.
fn drive(considered: usize, max: u32, has_draft: bool, passes: bool) -> DraftRun {
    let mut run = DraftRun::new(considered, max);
    let mut action = run.step(DraftEvent::Begin);
    let mut steps = 0;
    while action != DraftAction::Finish && steps < 1000 {
        let event = match action {
            DraftAction::Next => DraftEvent::Begin,
            DraftAction::Route => DraftEvent::Routed(Some(ReplyType::Confirm)),
            DraftAction::CheckExisting(_) => DraftEvent::HasDraft(has_draft),
            DraftAction::Compose(_) => DraftEvent::Composed(true),
            DraftAction::Validate(_) => DraftEvent::Validated(passes),
            DraftAction::Store(_) => DraftEvent::Stored,
            DraftAction::Finish => unreachable!(),
        };
        action = run.step(event);
        steps += 1;
    }
    run
}

#[test]
fn a_driven_drafting_run_stops_at_its_cap() {
    let run = drive(5, 2, false, true);
    assert_eq!(run.summary.considered, 5);
    assert_eq!(run.summary.drafted, 2);
    assert_eq!(run.done, 2);
    assert_eq!(run.phase, DraftPhase::Done);
}

#[test]
fn a_second_drafting_run_finds_every_draft_and_writes_none() {
    let run = drive(1, 50, true, true);
    assert_eq!(run.summary.drafted, 0);
    assert_eq!(run.summary.already_answered, 1);
}

#[test]
fn refused_wording_is_counted_and_the_run_goes_on() {
    let run = drive(3, 50, false, false);
    assert_eq!(run.summary.refused, 3);
    assert_eq!(run.summary.drafted, 0);
    assert_eq!(run.done, 3);
    assert_eq!(run.asked, 3);
}

/// The cap bounds how often wording is asked for, not how many drafts are
/// kept: a model whose drafts keep failing is not asked once per reply.
#[test]
fn the_cap_counts_requests_for_wording_not_kept_drafts() {
    let run = drive(5, 1, false, false);
    assert_eq!(run.asked, 1);
    assert_eq!(run.summary.refused, 1);
    assert_eq!(run.summary.drafted, 0);
    assert_eq!(run.done, 1);
    assert_eq!(run.phase, DraftPhase::Done);
    let kept = drive(5, 2, false, true);
    assert_eq!((kept.asked, kept.summary.drafted, kept.summary.considered), (2, 2, 5));
}

#[test]
fn an_event_the_run_is_not_waiting_for_changes_nothing() {
    let mut run = DraftRun::new(2, 1);
    assert_eq!(run.step(DraftEvent::Begin), DraftAction::Route);
    let before = run;
    assert_eq!(run.step(DraftEvent::Stored), DraftAction::Route);
    assert_eq!(run, before);
    assert_eq!(run.step(DraftEvent::Routed(None)), DraftAction::Next);
    assert_eq!(run.done, 1);
}


#[test]
fn inbox_settings_are_checked_before_connecting() {
    assert_eq!(check_inbox_settings("imap.example", 993, "jane@example.com", "pw"), Ok(()));
    assert_eq!(
        check_inbox_settings("  ", 993, "jane@example.com", "pw"),
        Err(InboxSettingsProblem::NoServer)
    );
    assert_eq!(
        check_inbox_settings("imap.example", 0, "jane@example.com", "pw"),
        Err(InboxSettingsProblem::NoPort)
    );
    assert_eq!(
        check_inbox_settings("imap.example", 993, "", "pw"),
        Err(InboxSettingsProblem::NoCredentials)
    );
    assert_eq!(
        check_inbox_settings("imap.example", 993, "jane@example.com", ""),
        Err(InboxSettingsProblem::NoCredentials)
    );
    assert_eq!(InboxSettingsProblem::NoPort.message(), "no port is set");
}

#[test]
fn an_unknown_name_signs_in_like_a_wrong_password() {
    let hash = new_password_hash("correct horse battery").unwrap();
    assert_eq!(check_sign_in(None, "anything at all"), Err(AccountError::WrongPassword));
    assert_eq!(check_sign_in(Some(None), "anything at all"), Err(AccountError::NoPasswordSet));
    assert_eq!(check_sign_in(Some(Some(&hash)), "correct horse battery"), Ok(()));
    assert_eq!(
        check_sign_in(Some(Some(&hash)), "wrong horse battery"),
        Err(AccountError::WrongPassword)
    );
}
