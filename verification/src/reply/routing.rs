//! Which reply a broker's email deserves.
//!
//! The rule table stays the default: an acknowledged-but-unfinished reply
//! gets the missing-information reply. What the table deliberately does not
//! guess is the other two, since no pattern tells "reply to confirm" from
//! "click to confirm", or a request for a date of birth from one for a
//! passport. When a decision model is configured it may be asked, and may
//! also answer that the email needs no reply at all. Whatever is decided,
//! the outcome is a draft on the task list: nothing routes to a send.

use vstd::prelude::*;

use super::ReplyType;
use crate::decision::{labels_of, Answer, Choice, ChoiceOption};
use crate::history::types::reply_type_named;
use crate::history::ResponseType;

verus! {

/// The answer that means "leave this one alone".
pub const NONE: &'static str = "none";

/// The verdict the rule table gives, with no model involved.
///
/// A confirmation wanted by clicking a link is left out on purpose: that is
/// the confirm command's job, and drafting a reply for it would duplicate it.
pub open spec fn rule_for(t: ResponseType) -> Option<ReplyType> {
    match t {
        ResponseType::Pending => Some(ReplyType::MissingInfo),
        _ => None,
    }
}

/// The verdict the rule table gives, with no model involved.
pub fn from_rules(response_type: ResponseType) -> (r: Option<ReplyType>)
    ensures
        r == rule_for(response_type),
{
    match response_type {
        ResponseType::Pending => Some(ReplyType::MissingInfo),
        _ => None,
    }
}

/// Read a reply type back from a label. Only the labels this module offers
/// can arrive here, and anything else is ignored rather than trusted.
pub fn parse(label: &str) -> (r: Option<ReplyType>)
    ensures
        r == reply_type_named(label@),
{
    match ReplyType::parse(label) {
        Ok(t) => Some(t),
        Err(_) => None,
    }
}

/// How the pattern classifier read the email, in a line.
pub open spec fn reading_of(t: ResponseType) -> Seq<char> {
    match t {
        ResponseType::Success => "the removal is done"@,
        ResponseType::Bounced => "the address no longer accepts mail"@,
        ResponseType::FormRequired => "there is an opt-out form to fill in"@,
        ResponseType::ConfirmationRequired => "there is a link to click to confirm"@,
        ResponseType::Rejected => "the broker refused, or holds nothing"@,
        ResponseType::Pending => "received and being worked on"@,
        ResponseType::Unknown => "could not tell what this reply says"@,
    }
}

/// How the pattern classifier read the email, in a line.
pub fn read_as(response_type: ResponseType) -> (r: &'static str)
    ensures
        r@ == reading_of(response_type),
{
    match response_type {
        ResponseType::Success => "the removal is done",
        ResponseType::Bounced => "the address no longer accepts mail",
        ResponseType::FormRequired => "there is an opt-out form to fill in",
        ResponseType::ConfirmationRequired => "there is a link to click to confirm",
        ResponseType::Rejected => "the broker refused, or holds nothing",
        ResponseType::Pending => "received and being worked on",
        ResponseType::Unknown => "could not tell what this reply says",
    }
}

/// The line added to the state a model reads, saying how the patterns read
/// the email.
pub fn classifier_note(response_type: ResponseType) -> (r: String)
    ensures
        r@ == "\nThe pattern classifier read this email as: "@ + reading_of(response_type)
            + ".\n"@,
{
    let a = crate::text::concat(
        "\nThe pattern classifier read this email as: ",
        read_as(response_type),
    );
    crate::text::concat(a.as_str(), ".\n")
}

/// The labels a routing question offers.
pub open spec fn route_labels() -> Seq<Seq<char>> {
    seq!["missing_info"@, "confirm"@, "id_verification"@, NONE@]
}

/// The question put to a decision model when routing. The criteria are the
/// whole vocabulary: any other answer is no answer.
pub fn question() -> (r: Choice)
    ensures
        labels_of(r.options@) == route_labels(),
{
    let options = vec![
        Choice::option(
            "missing_info",
            "the removal has not happened and the broker asked for something \
                 before it will proceed, so a reply supplying it is warranted",
        ),
        Choice::option(
            "confirm",
            "the broker asked for a reply by email confirming that the removal \
                 request still stands",
        ),
        Choice::option(
            "id_verification",
            "the broker asked the person to prove their identity before acting \
                 on the removal request",
        ),
        Choice::option(
            NONE,
            "the email needs no reply: an acknowledgement, a refusal, a \
                 completed removal, a bounce, or something handled another way",
        ),
    ];
    assert(labels_of(options@) =~= route_labels());
    Choice::new(
        "A data broker has replied to a personal data removal request. \
         Which reply, if any, does this email deserve?",
        options,
    )
}

/// The reply an email deserves, given how the patterns read it, whether a
/// model may be asked, and what it answered.
pub open spec fn route_of(t: ResponseType, enabled: bool, answer: Answer) -> Option<ReplyType> {
    if !enabled {
        rule_for(t)
    } else {
        match answer {
            Answer::Answered { choice, confident, by } => if !confident {
                rule_for(t)
            } else if choice@ == NONE@ {
                None
            } else {
                match reply_type_named(choice@) {
                    Some(r) => Some(r),
                    None => rule_for(t),
                }
            },
            _ => rule_for(t),
        }
    }
}

/// The reply an email deserves, if any.
///
/// Every failure (routing switched off, no model, an unreachable one, an
/// answer below the floor, a label that names no reply) falls back to the
/// rule table. A model that answers `none` is believed, because the email
/// stays on the task list either way.
pub fn reply_for(response_type: ResponseType, enabled: bool, answer: &Answer) -> (r: Option<
    ReplyType,
>)
    ensures
        r == route_of(response_type, enabled, *answer),
{
    let rules = from_rules(response_type);
    if !enabled {
        return rules;
    }
    match answer {
        Answer::Answered { choice, confident, by } => {
            if !*confident {
                return rules;
            }
            if crate::text::same_text(choice.as_str(), NONE) {
                return None;
            }
            match parse(choice.as_str()) {
                Some(t) => Some(t),
                None => rules,
            }
        },
        _ => rules,
    }
}

/// With routing switched off, or with no confident answer, the rule table
/// decides alone.
pub proof fn law_without_a_confident_answer_the_rules_decide(
    t: ResponseType,
    enabled: bool,
    answer: Answer,
)
    requires
        !enabled || !(answer matches Answer::Answered { confident: true, .. }),
    ensures
        route_of(t, enabled, answer) == rule_for(t),
{
}

} // verus!
