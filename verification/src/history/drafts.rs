//! Drafted replies, and what becomes of them.
//!
//! A draft is keyed to the broker reply it answers, and it rides the task
//! list as a `draft_reply` task: something prepared that a person has to
//! decide on.

use vstd::prelude::*;

use super::types::{DraftStatus, NewPendingTask, ReplyType, TaskType, DEFAULT_USER_ID};
use crate::text::signed_decimal;

verus! {

/// A drafted reply, as read back.
#[derive(Debug, Clone, PartialEq, Eq)]
pub struct ReplyDraft {
    pub id: i64,
    pub user_id: i64,
    pub broker_id: String,
    pub broker_name: String,
    pub reply_type: ReplyType,
    pub in_reply_to: String,
    pub subject: String,
    pub body: String,
    pub model: String,
    pub status: DraftStatus,
    pub validation: String,
    /// Seconds since the Unix epoch.
    pub created_at: Option<i64>,
    pub sent_at: Option<i64>,
}

/// A new draft to keep.
#[derive(Debug, Clone, PartialEq, Eq)]
pub struct NewReplyDraft {
    pub user_id: i64,
    pub broker_id: String,
    pub broker_name: String,
    pub reply_type: ReplyType,
    pub in_reply_to: String,
    pub subject: String,
    pub body: String,
    pub model: String,
    pub validation: String,
}

impl Default for NewReplyDraft {
    /// A missing-information draft for the default user, with an empty
    /// validation record.
    fn default() -> (r: NewReplyDraft)
        ensures
            r.user_id == DEFAULT_USER_ID,
            r.reply_type == ReplyType::MissingInfo,
            r.broker_id@.len() == 0,
            r.broker_name@.len() == 0,
            r.in_reply_to@.len() == 0,
            r.subject@.len() == 0,
            r.body@.len() == 0,
            r.model@.len() == 0,
            r.validation@ == "{}"@,
    {
        NewReplyDraft {
            user_id: DEFAULT_USER_ID,
            broker_id: String::new(),
            broker_name: String::new(),
            reply_type: ReplyType::MissingInfo,
            in_reply_to: String::new(),
            subject: String::new(),
            body: String::new(),
            model: String::new(),
            validation: "{}".to_string(),
        }
    }
}

/// The note a draft's task carries.
pub open spec fn draft_note(id: i64, in_reply_to: Seq<char>) -> Seq<char> {
    "Draft #"@ + signed_decimal(id as int) + " \u{2014} a reply to \""@ + in_reply_to
        + "\" is written and waiting to be sent"@
}

/// The task that puts a stored draft on the task list, so a person sees it
/// beside every other thing waiting on them. Its browser state names the
/// draft, which is how the task page finds it again.
pub fn draft_task(draft: &ReplyDraft) -> (r: NewPendingTask)
    ensures
        r.user_id == draft.user_id,
        r.broker_id@ == draft.broker_id@,
        r.broker_name@ == draft.broker_name@,
        r.task_type == TaskType::DraftReply,
        r.form_url@.len() == 0,
        r.screenshot_path@.len() == 0,
        r.browser_state@ == signed_decimal(draft.id as int),
        r.notes@ == draft_note(draft.id, draft.in_reply_to@),
{
    let id = crate::text::signed_decimal_string(draft.id);
    let a = crate::text::concat("Draft #", id.as_str());
    let b = crate::text::concat(a.as_str(), " \u{2014} a reply to \"");
    let c = crate::text::concat(b.as_str(), draft.in_reply_to.as_str());
    let notes = crate::text::concat(c.as_str(), "\" is written and waiting to be sent");
    NewPendingTask {
        user_id: draft.user_id,
        broker_id: draft.broker_id.clone(),
        broker_name: draft.broker_name.clone(),
        task_type: TaskType::DraftReply,
        form_url: String::new(),
        screenshot_path: String::new(),
        browser_state: id,
        notes,
    }
}

/// How many drafts are still waiting for a person.
pub open spec fn waiting_count(statuses: Seq<DraftStatus>) -> nat
    decreases statuses.len(),
{
    if statuses.len() == 0 {
        0
    } else {
        waiting_count(statuses.drop_last()) + if statuses.last() == DraftStatus::Draft {
            1nat
        } else {
            0nat
        }
    }
}

/// Count the drafts still waiting.
pub fn pending_count(drafts: &[ReplyDraft]) -> (r: usize)
    ensures
        r == waiting_count(drafts@.map_values(|d: ReplyDraft| d.status)),
{
    let ghost st = drafts@.map_values(|d: ReplyDraft| d.status);
    let mut n: usize = 0;
    let mut i: usize = 0;
    while i < drafts.len()
        invariant
            i <= drafts@.len(),
            st == drafts@.map_values(|d: ReplyDraft| d.status),
            n == waiting_count(st.take(i as int)),
            n <= i,
        decreases drafts@.len() - i,
    {
        proof {
            assert(st.take(i + 1).drop_last() == st.take(i as int));
            assert(st.take(i + 1).last() == drafts@[i as int].status);
        }
        if drafts[i].status == DraftStatus::Draft {
            n = n + 1;
        }
        i = i + 1;
    }
    assert(st.take(drafts@.len() as int) == st);
    n
}

} // verus!
