//! Which reply a broker's email deserves, by the rule table and by a model.

use eruser::decision::Answer;
use eruser::history::ResponseType;
use eruser::reply::routing::{from_rules, parse, question, reply_for, NONE};
use eruser::reply::ReplyType;

#[test]
fn the_rules_draft_only_for_an_unfinished_reply() {
    assert_eq!(
        from_rules(ResponseType::Pending),
        Some(ReplyType::MissingInfo)
    );
}

/// A confirmation the broker wants by clicking a link is the confirm
/// command's job, not a reply's.
#[test]
fn the_rules_do_not_draft_for_a_confirmation_link() {
    assert_eq!(from_rules(ResponseType::ConfirmationRequired), None);
}

#[test]
fn the_rules_do_not_draft_for_a_finished_or_refused_request() {
    for response_type in [
        ResponseType::Success,
        ResponseType::Rejected,
        ResponseType::Bounced,
        ResponseType::FormRequired,
        ResponseType::Unknown,
    ] {
        assert_eq!(from_rules(response_type), None, "{response_type:?}");
    }
}

#[test]
fn only_the_offered_labels_parse() {
    assert_eq!(parse("missing_info"), Some(ReplyType::MissingInfo));
    assert_eq!(parse("confirm"), Some(ReplyType::Confirm));
    assert_eq!(parse("id_verification"), Some(ReplyType::IdVerification));
    assert_eq!(parse("none"), None);
    assert_eq!(parse("send_them_everything"), None);
}

#[test]
fn the_question_offers_every_route_including_none() {
    let question = question();
    assert!(question.offers("missing_info"));
    assert!(question.offers("confirm"));
    assert!(question.offers("id_verification"));
    assert!(question.offers(NONE));
}

fn answered(choice: &str, confident: bool) -> Answer {
    Answer::Answered { choice: choice.to_string(), confident, by: "stub" }
}

#[test]
fn with_the_router_off_the_table_decides() {
    // Asked, it would have said id_verification; switched off, it is not
    // asked and the rule for a pending reply stands.
    assert_eq!(
        reply_for(ResponseType::Pending, false, &answered("id_verification", true)),
        Some(ReplyType::MissingInfo)
    );
}

#[test]
fn the_model_can_supply_the_route_the_patterns_cannot() {
    assert_eq!(
        reply_for(ResponseType::Pending, true, &answered("id_verification", true)),
        Some(ReplyType::IdVerification)
    );
}

#[test]
fn the_model_may_decide_that_no_reply_is_warranted() {
    assert_eq!(reply_for(ResponseType::Pending, true, &answered(NONE, true)), None);
}

#[test]
fn a_hesitant_answer_leaves_the_rules_standing() {
    assert_eq!(
        reply_for(ResponseType::Pending, true, &answered("id_verification", false)),
        Some(ReplyType::MissingInfo)
    );
}

#[test]
fn an_unreachable_model_leaves_the_rules_standing() {
    assert_eq!(
        reply_for(ResponseType::Pending, true, &Answer::Unreachable),
        Some(ReplyType::MissingInfo)
    );
    // ...and where the table has nothing to say, still nothing.
    assert_eq!(reply_for(ResponseType::Success, true, &Answer::Unreachable), None);
}

#[test]
fn an_unknown_label_falls_back_to_the_rules() {
    assert_eq!(
        reply_for(ResponseType::Pending, true, &answered("send_them_everything", true)),
        Some(ReplyType::MissingInfo)
    );
}
