//! Sending a draft without a person, for the cases that earn it.
//!
//! The draft is re-validated at send time, the whitelist is checked here
//! rather than trusted from the caller, and identity verification is refused
//! again even though the type check should have kept it away. The mail goes
//! out through the caller's ordinary sender and history, so nothing here
//! bypasses rate limits or daily caps.

use vstd::prelude::*;

use super::{validated, Error, RawDraft, ReplyContext};
use crate::config::Profile;
use crate::history::drafts::ReplyDraft;
use crate::history::types::{draft_status_name, reply_type_name};
use crate::history::DraftStatus;
use crate::text::views;

verus! {

/// What a send attempt came to.
#[derive(Debug, Clone, PartialEq, Eq)]
pub enum SendResult {
    /// It went out.
    Sent { to: String, subject: String },
    /// It did not, and why. Not an error: a draft that must wait for a
    /// person is the system working as designed.
    NotEligible(String),
}

/// Why a draft that is not waiting may not go.
pub open spec fn already_note(status: DraftStatus) -> Seq<char> {
    "the draft was already "@ + draft_status_name(status)
}

/// Why a draft of a type off the whitelist may not go.
pub open spec fn whitelist_note(t: super::ReplyType) -> Seq<char> {
    reply_type_name(t) + " replies are not on the auto-send whitelist; a person has to send this"@
}

/// The context a draft is re-validated against: rebuilt from the draft and
/// the profile, with the rules in force now.
pub open spec fn recheck(draft: ReplyDraft, profile: Profile) -> Result<
    (Seq<char>, Seq<char>),
    super::ValidationError,
> {
    validated(draft.body@, profile.email@)
}

/// Decide whether a stored draft may go out on its own.
///
/// Only a draft still waiting may go, so a sent draft is not sent twice and
/// a discarded one is not resurrected; its type must be on the whitelist
/// (and identity verification never is); and its body must pass the rules
/// in force now. Returns the body to send, a result saying why it may not
/// go, or the refusal.
pub fn send_check(draft: &ReplyDraft, whitelist: &[String], profile: &Profile) -> (r: Result<
    Result<String, SendResult>,
    Error,
>)
    ensures
        draft.status != DraftStatus::Draft ==> (r matches Ok(Err(SendResult::NotEligible(note)))
            && note@ == already_note(draft.status)),
        draft.status == DraftStatus::Draft && !super::auto_sendable(
            draft.reply_type,
            views(whitelist@),
        ) ==> (r matches Ok(Err(SendResult::NotEligible(note))) && note@ == whitelist_note(
            draft.reply_type,
        )),
        draft.status == DraftStatus::Draft && super::auto_sendable(
            draft.reply_type,
            views(whitelist@),
        ) ==> match recheck(*draft, *profile) {
            Ok((body, _)) => r matches Ok(Ok(b)) && b@ == body,
            Err(e) => r == Err::<Result<String, SendResult>, Error>(Error::DraftRefused(e)),
        },
{
    if draft.status != DraftStatus::Draft {
        let note = crate::text::concat("the draft was already ", draft.status.as_str());
        return Ok(Err(SendResult::NotEligible(note)));
    }
    if !draft.reply_type.may_auto_send(whitelist) {
        let note = crate::text::concat(
            draft.reply_type.as_str(),
            " replies are not on the auto-send whitelist; a person has to send this",
        );
        return Ok(Err(SendResult::NotEligible(note)));
    }
    let context = ReplyContext {
        reply_type: draft.reply_type,
        broker_name: draft.broker_name.clone(),
        original_subject: draft.in_reply_to.clone(),
        original_body: String::new(),
        sent_subject: String::new(),
        profile: profile.duplicate(),
    };
    match super::validate(&RawDraft { body: draft.body.clone() }, &context) {
        Ok(checked) => Ok(Ok(checked.body)),
        Err(e) => Err(Error::DraftRefused(e)),
    }
}

/// The address to answer: the sender of the reply the draft answers, when
/// one is known.
pub fn recipient(found: Option<String>) -> (r: Result<String, Error>)
    ensures
        (found matches Some(a) && a@.len() > 0) ==> (r matches Ok(to) && to@ == found->0@),
        !(found matches Some(a) && a@.len() > 0) ==> (r matches Err(Error::DrafterUnavailable(m))
            && m@ == "no broker address is known for this reply; it cannot be answered"@),
{
    match found {
        Some(address) => {
            if !address.as_str().is_empty() {
                return Ok(address);
            }
        },
        None => {},
    }
    Err(
        Error::DrafterUnavailable(
            "no broker address is known for this reply; it cannot be answered".to_string(),
        ),
    )
}

/// The error for a draft the transport did not take.
pub fn delivery_failed(reason: &str) -> (r: Error)
    ensures
        r matches Error::DrafterUnavailable(m) && m@ == "the draft did not go out: "@ + reason@,
{
    Error::DrafterUnavailable(crate::text::concat("the draft did not go out: ", reason))
}

/// A draft of a type that may never go out alone, or one not waiting, is
/// never cleared to send, whatever the whitelist holds.
pub proof fn law_auto_send_only_clears_waiting_whitelisted_drafts(
    draft: ReplyDraft,
    whitelist: Seq<Seq<char>>,
)
    requires
        draft.status != DraftStatus::Draft || draft.reply_type == super::ReplyType::IdVerification,
    ensures
        draft.status != DraftStatus::Draft || !super::auto_sendable(draft.reply_type, whitelist),
{
}

} // verus!
