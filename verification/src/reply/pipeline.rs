//! From replies in history to drafts on the task list: the decisions of a
//! drafting run.
//!
//! Two things happen per reply, and both have a rules-only answer: which
//! reply it deserves (see `routing`), and what that reply says (a shipped
//! candidate, see `choices`, or a model's draft checked by `validate`). The
//! caller reads history, asks the models and writes the drafts; this module
//! keeps the run's totals and builds what is written.

use vstd::prelude::*;

use super::{Draft, ReplyContext, ReplyType};
use crate::config::Profile;
use crate::history::drafts::NewReplyDraft;
use crate::inbox::scan::StoredReply;
use crate::text::views;

verus! {

/// How a drafting run went.
#[derive(Debug, Clone, Copy, PartialEq, Eq, Structural)]
pub struct DraftRunSummary {
    /// Replies considered, before any cap.
    pub considered: usize,
    /// Drafts actually written and kept.
    pub drafted: usize,
    /// Replies that already had a draft.
    pub already_answered: usize,
    /// Attempts the validator refused.
    pub refused: usize,
}

impl Default for DraftRunSummary {
    fn default() -> (r: DraftRunSummary)
        ensures
            r == (DraftRunSummary { considered: 0, drafted: 0, already_answered: 0, refused: 0 }),
    {
        DraftRunSummary { considered: 0, drafted: 0, already_answered: 0, refused: 0 }
    }
}

/// Where a drafting run stands with the reply in hand.
#[derive(Debug, Clone, Copy, PartialEq, Eq, Structural)]
pub enum DraftPhase {
    /// Between replies.
    Idle,
    /// Waiting to hear which reply the broker's email deserves.
    Routing,
    /// Waiting to hear whether a draft of this type already exists.
    Checking(ReplyType),
    /// Waiting for the wording.
    Composing(ReplyType),
    /// Waiting for the rules' verdict on the wording.
    Validating(ReplyType),
    /// Waiting for the kept draft to be stored and put on the task list.
    Storing(ReplyType),
    /// The run is over.
    Done,
}

/// What the caller has to report to a drafting run.
#[derive(Debug, Clone, Copy, PartialEq, Eq, Structural)]
pub enum DraftEvent {
    /// Ready for the next reply.
    Begin,
    /// The reply the broker's email deserves, if any.
    Routed(Option<ReplyType>),
    /// Whether a draft of that type already answers the email.
    HasDraft(bool),
    /// Whether wording could be prepared.
    Composed(bool),
    /// Whether the wording passed the rules.
    Validated(bool),
    /// The draft was stored and put on the task list.
    Stored,
}

/// What a drafting run asks the caller to do next.
#[derive(Debug, Clone, Copy, PartialEq, Eq, Structural)]
pub enum DraftAction {
    /// Stop: every reply is dealt with, or the cap is reached.
    Finish,
    /// Find which reply the current broker email deserves.
    Route,
    /// Look for an existing draft of this type.
    CheckExisting(ReplyType),
    /// Prepare wording of this type.
    Compose(ReplyType),
    /// Hold the wording to the rules.
    Validate(ReplyType),
    /// Store the draft of this type and queue its task.
    Store(ReplyType),
    /// Move on to the next reply.
    Next,
}

/// A drafting run in progress: what it has done with the replies so far.
#[derive(Debug, Clone, Copy, PartialEq, Eq, Structural)]
pub struct DraftRun {
    pub summary: DraftRunSummary,
    /// The most drafts the run may write.
    pub max_drafts: u32,
    /// How many replies have been dealt with.
    pub done: usize,
    /// How many times wording has been asked for: what the cap limits, so
    /// that one run never turns into more prompts than it allows.
    pub asked: u32,
    /// Where the run stands with the reply in hand.
    pub phase: DraftPhase,
}

/// What a run waiting in `phase` asks for.
pub open spec fn waiting_for(phase: DraftPhase) -> DraftAction {
    match phase {
        DraftPhase::Idle => DraftAction::Next,
        DraftPhase::Routing => DraftAction::Route,
        DraftPhase::Checking(t) => DraftAction::CheckExisting(t),
        DraftPhase::Composing(t) => DraftAction::Compose(t),
        DraftPhase::Validating(t) => DraftAction::Validate(t),
        DraftPhase::Storing(t) => DraftAction::Store(t),
        DraftPhase::Done => DraftAction::Finish,
    }
}

/// The run after the reply in hand is dealt with, `s` being its new totals.
pub open spec fn settled(run: DraftRun, s: DraftRunSummary) -> DraftRun {
    DraftRun { summary: s, done: (run.done + 1) as usize, phase: DraftPhase::Idle, ..run }
}

/// The next state of a drafting run, and what it asks for, after `event`.
///
/// Per reply: stop if every reply is dealt with or the cap is reached;
/// else route it (no reply deserved: move on); look for an existing draft
/// (found: counted as already answered); prepare wording (none: move on);
/// hold it to the rules (refused: counted); store it (counted as drafted).
/// An event the run is not waiting for changes nothing, and the run asks
/// again for what it is waiting for.
pub open spec fn step_spec(run: DraftRun, event: DraftEvent) -> (DraftRun, DraftAction) {
    let s = run.summary;
    match (run.phase, event) {
        (DraftPhase::Idle, DraftEvent::Begin) => if run.done >= s.considered || run.asked
            >= run.max_drafts {
            (DraftRun { phase: DraftPhase::Done, ..run }, DraftAction::Finish)
        } else {
            (DraftRun { phase: DraftPhase::Routing, ..run }, DraftAction::Route)
        },
        (DraftPhase::Routing, DraftEvent::Routed(None)) => (settled(run, s), DraftAction::Next),
        (DraftPhase::Routing, DraftEvent::Routed(Some(t))) => (
            DraftRun { phase: DraftPhase::Checking(t), ..run },
            DraftAction::CheckExisting(t),
        ),
        (DraftPhase::Checking(_), DraftEvent::HasDraft(true)) => (
            settled(
                run,
                DraftRunSummary { already_answered: (s.already_answered + 1) as usize, ..s },
            ),
            DraftAction::Next,
        ),
        (DraftPhase::Checking(t), DraftEvent::HasDraft(false)) => (
            DraftRun { phase: DraftPhase::Composing(t), asked: (run.asked + 1) as u32, ..run },
            DraftAction::Compose(t),
        ),
        (DraftPhase::Composing(_), DraftEvent::Composed(false)) => (
            settled(run, s),
            DraftAction::Next,
        ),
        (DraftPhase::Composing(t), DraftEvent::Composed(true)) => (
            DraftRun { phase: DraftPhase::Validating(t), ..run },
            DraftAction::Validate(t),
        ),
        (DraftPhase::Validating(_), DraftEvent::Validated(false)) => (
            settled(run, DraftRunSummary { refused: (s.refused + 1) as usize, ..s }),
            DraftAction::Next,
        ),
        (DraftPhase::Validating(t), DraftEvent::Validated(true)) => (
            DraftRun { phase: DraftPhase::Storing(t), ..run },
            DraftAction::Store(t),
        ),
        (DraftPhase::Storing(_), DraftEvent::Stored) => (
            settled(run, DraftRunSummary { drafted: (s.drafted + 1) as usize, ..s }),
            DraftAction::Next,
        ),
        _ => (run, waiting_for(run.phase)),
    }
}

impl DraftRun {
    /// Each reply dealt with is counted at most once, and the cap holds.
    pub open spec fn wf(&self) -> bool {
        let settled_wording = self.summary.drafted + self.summary.refused;
        &&& self.done <= self.summary.considered
        &&& self.asked <= self.max_drafts
        &&& self.summary.drafted + self.summary.already_answered + self.summary.refused
            <= self.done
        &&& !(self.phase is Idle || self.phase is Done) ==> self.done < self.summary.considered
        &&& (self.phase is Idle || self.phase is Done) ==> settled_wording <= self.asked
        &&& (self.phase is Routing || self.phase is Checking) ==> settled_wording <= self.asked
            && self.asked < self.max_drafts
        &&& (self.phase is Composing || self.phase is Validating || self.phase is Storing)
            ==> settled_wording < self.asked
    }

    /// Take one event: the run moves on as `step_spec` says, and returns
    /// what the caller is to do next.
    pub fn step(&mut self, event: DraftEvent) -> (r: DraftAction)
        requires
            old(self).wf(),
        ensures
            final(self).wf(),
            (*final(self), r) == step_spec(*old(self), event),
    {
        let s = self.summary;
        match (self.phase, event) {
            (DraftPhase::Idle, DraftEvent::Begin) => {
                if self.done >= s.considered || self.asked >= self.max_drafts {
                    self.phase = DraftPhase::Done;
                    DraftAction::Finish
                } else {
                    self.phase = DraftPhase::Routing;
                    DraftAction::Route
                }
            },
            (DraftPhase::Routing, DraftEvent::Routed(None)) => {
                self.done = self.done + 1;
                self.phase = DraftPhase::Idle;
                DraftAction::Next
            },
            (DraftPhase::Routing, DraftEvent::Routed(Some(t))) => {
                self.phase = DraftPhase::Checking(t);
                DraftAction::CheckExisting(t)
            },
            (DraftPhase::Checking(_), DraftEvent::HasDraft(true)) => {
                self.summary.already_answered = s.already_answered + 1;
                self.done = self.done + 1;
                self.phase = DraftPhase::Idle;
                DraftAction::Next
            },
            (DraftPhase::Checking(t), DraftEvent::HasDraft(false)) => {
                self.asked = self.asked + 1;
                self.phase = DraftPhase::Composing(t);
                DraftAction::Compose(t)
            },
            (DraftPhase::Composing(_), DraftEvent::Composed(false)) => {
                self.done = self.done + 1;
                self.phase = DraftPhase::Idle;
                DraftAction::Next
            },
            (DraftPhase::Composing(t), DraftEvent::Composed(true)) => {
                self.phase = DraftPhase::Validating(t);
                DraftAction::Validate(t)
            },
            (DraftPhase::Validating(_), DraftEvent::Validated(false)) => {
                self.summary.refused = s.refused + 1;
                self.done = self.done + 1;
                self.phase = DraftPhase::Idle;
                DraftAction::Next
            },
            (DraftPhase::Validating(t), DraftEvent::Validated(true)) => {
                self.phase = DraftPhase::Storing(t);
                DraftAction::Store(t)
            },
            (DraftPhase::Storing(_), DraftEvent::Stored) => {
                self.summary.drafted = s.drafted + 1;
                self.done = self.done + 1;
                self.phase = DraftPhase::Idle;
                DraftAction::Next
            },
            (phase, _) => match phase {
                DraftPhase::Idle => DraftAction::Next,
                DraftPhase::Routing => DraftAction::Route,
                DraftPhase::Checking(t) => DraftAction::CheckExisting(t),
                DraftPhase::Composing(t) => DraftAction::Compose(t),
                DraftPhase::Validating(t) => DraftAction::Validate(t),
                DraftPhase::Storing(t) => DraftAction::Store(t),
                DraftPhase::Done => DraftAction::Finish,
            },
        }
    }

    /// A run over `considered` replies, writing at most `max_drafts`.
    pub fn new(considered: usize, max_drafts: u32) -> (r: DraftRun)
        ensures
            r.wf(),
            r.summary == (DraftRunSummary {
                considered,
                drafted: 0,
                already_answered: 0,
                refused: 0,
            }),
            r.max_drafts == max_drafts,
            r.done == 0,
            r.asked == 0,
            r.phase == DraftPhase::Idle,
    {
        DraftRun {
            summary: DraftRunSummary { considered, drafted: 0, already_answered: 0, refused: 0 },
            max_drafts,
            done: 0,
            asked: 0,
            phase: DraftPhase::Idle,
        }
    }

    /// The run stops once it has asked for wording as many times as it may.
    pub fn is_full(&self) -> (r: bool)
        ensures
            r == (self.asked >= self.max_drafts),
    {
        self.asked >= self.max_drafts
    }
}

/// However a drafting run goes, it never asks for wording more often than
/// its cap, so it never writes or refuses more drafts than that either, and
/// never counts more outcomes than replies it considered.
pub proof fn law_drafting_respects_its_cap(run: DraftRun)
    requires
        run.wf(),
    ensures
        run.asked <= run.max_drafts,
        run.summary.drafted + run.summary.refused <= run.max_drafts,
        run.summary.drafted <= run.max_drafts,
        run.summary.drafted + run.summary.already_answered + run.summary.refused
            <= run.summary.considered,
{
}

/// One step keeps a run well formed.
pub proof fn lemma_step_keeps_wf(run: DraftRun, event: DraftEvent)
    requires
        run.wf(),
    ensures
        step_spec(run, event).0.wf(),
{
}

/// The run after each of `events` in turn.
pub open spec fn run_after(run: DraftRun, events: Seq<DraftEvent>) -> DraftRun
    decreases events.len(),
{
    if events.len() == 0 {
        run
    } else {
        run_after(step_spec(run, events[0]).0, events.drop_first())
    }
}

/// A run stops only when every reply is dealt with or it has asked for
/// wording as often as its cap allows.
pub proof fn law_a_run_stops_only_when_done_or_full(run: DraftRun)
    requires
        run.wf(),
        run.phase == DraftPhase::Idle,
        step_spec(run, DraftEvent::Begin).1 == DraftAction::Finish,
    ensures
        run.done == run.summary.considered || run.asked == run.max_drafts,
{
}

/// However many steps a run takes, it stays well formed: it never writes
/// more drafts than its cap, and never counts more outcomes than the
/// replies it considered.
pub proof fn law_a_whole_run_respects_its_cap(run: DraftRun, events: Seq<DraftEvent>)
    requires
        run.wf(),
    ensures
        run_after(run, events).wf(),
        run_after(run, events).summary.considered == run.summary.considered,
        run_after(run, events).max_drafts == run.max_drafts,
        run_after(run, events).summary.drafted + run_after(run, events).summary.already_answered
            + run_after(run, events).summary.refused <= run.summary.considered,
    decreases events.len(),
{
    if events.len() > 0 {
        lemma_step_keeps_wf(run, events[0]);
        law_a_whole_run_respects_its_cap(step_spec(run, events[0]).0, events.drop_first());
    }
}

/// Whether `event` makes the run ask for wording for a new reply (the run
/// asks again for the same wording when it hears something else, which is
/// not a new request).
pub open spec fn requests_wording(run: DraftRun, event: DraftEvent) -> bool {
    run.phase is Checking && event == DraftEvent::HasDraft(false)
}

/// How many times wording is asked for over `events`.
pub open spec fn compose_requests(run: DraftRun, events: Seq<DraftEvent>) -> nat
    decreases events.len(),
{
    if events.len() == 0 {
        0
    } else {
        compose_requests(step_spec(run, events[0]).0, events.drop_first()) + if requests_wording(
            run,
            events[0],
        ) {
            1nat
        } else {
            0nat
        }
    }
}

/// Each new request for wording is answered by `Compose`, and only those
/// move the count the cap limits.
pub proof fn lemma_requests_are_counted(run: DraftRun, event: DraftEvent)
    requires
        run.wf(),
    ensures
        requests_wording(run, event) ==> step_spec(run, event).1 is Compose,
        step_spec(run, event).0.asked == run.asked + if requests_wording(run, event) {
            1int
        } else {
            0int
        },
{
}

/// However a run goes, it asks for wording (a prompt to the drafting model,
/// or a pick from the shipped wording) at most as many times as its cap:
/// the first scan of a busy mailbox does not turn into a prompt per reply.
pub proof fn law_a_run_asks_for_wording_at_most_its_cap(run: DraftRun, events: Seq<DraftEvent>)
    requires
        run.wf(),
    ensures
        run_after(run, events).asked == run.asked + compose_requests(run, events),
        run.asked + compose_requests(run, events) <= run.max_drafts,
    decreases events.len(),
{
    if events.len() > 0 {
        lemma_step_keeps_wf(run, events[0]);
        lemma_requests_are_counted(run, events[0]);
        law_a_run_asks_for_wording_at_most_its_cap(step_spec(run, events[0]).0, events.drop_first());
    }
}

/// A run in which every reply it would answer already has its draft (as on
/// a second run over unchanged history) writes nothing: only the word that
/// no draft exists leads on to wording and storing.
pub proof fn law_a_run_that_finds_every_draft_drafts_nothing(
    run: DraftRun,
    events: Seq<DraftEvent>,
)
    requires
        run.wf(),
        !(run.phase is Composing || run.phase is Validating || run.phase is Storing),
        forall|i: int| 0 <= i < events.len() ==> events[i] != DraftEvent::HasDraft(false),
    ensures
        run_after(run, events).summary.drafted == run.summary.drafted,
    decreases events.len(),
{
    if events.len() > 0 {
        let next = step_spec(run, events[0]).0;
        assert(!(next.phase is Composing || next.phase is Validating || next.phase is Storing));
        assert(next.summary.drafted == run.summary.drafted);
        lemma_step_keeps_wf(run, events[0]);
        assert forall|i: int| 0 <= i < events.drop_first().len() implies events.drop_first()[i]
            != DraftEvent::HasDraft(false) by {
            assert(events.drop_first()[i] == events[i + 1]);
        }
        law_a_run_that_finds_every_draft_drafts_nothing(next, events.drop_first());
    }
}

/// What the drafter is given for one stored reply: its facts are the
/// person's profile and the broker's own email, and nothing else.
pub fn context_for(reply_type: ReplyType, reply: &StoredReply, profile: &Profile) -> (r:
    ReplyContext)
    ensures
        r.reply_type == reply_type,
        r.broker_name@ == reply.broker_name@,
        r.original_subject@ == reply.email_subject@,
        r.original_body@ == reply.email_body@,
        r.sent_subject@.len() == 0,
        r.profile == *profile,
{
    ReplyContext {
        reply_type,
        broker_name: reply.broker_name.clone(),
        original_subject: reply.email_subject.clone(),
        original_body: reply.email_body.clone(),
        sent_subject: String::new(),
        profile: profile.duplicate(),
    }
}

/// The draft to keep for a reply: answering it in its own thread, with the
/// checked body, what produced the words, and the record of the checks.
pub fn draft_record(
    user_id: i64,
    reply: &StoredReply,
    reply_type: ReplyType,
    draft: &Draft,
    producer: &str,
) -> (r: NewReplyDraft)
    ensures
        r.user_id == user_id,
        r.broker_id@ == reply.broker_id@,
        r.broker_name@ == reply.broker_name@,
        r.reply_type == reply_type,
        r.in_reply_to@ == reply.email_subject@,
        r.subject@ == super::reply_subject(reply_type, reply.email_subject@),
        r.body@ == draft.body@,
        r.model@ == producer@,
        r.validation@ == draft.validation@,
{
    NewReplyDraft {
        user_id,
        broker_id: reply.broker_id.clone(),
        broker_name: reply.broker_name.clone(),
        reply_type,
        in_reply_to: reply.email_subject.clone(),
        subject: reply_type.subject_for(reply.email_subject.as_str()),
        body: draft.body.clone(),
        model: producer.to_string(),
        validation: draft.validation.clone(),
    }
}

/// Whether a stored draft may go out on its own, per the whitelist. This
/// module only answers the question, and never puts mail on the wire.
pub fn may_auto_send(reply_type: ReplyType, whitelist: &[String]) -> (r: bool)
    ensures
        r == super::auto_sendable(reply_type, views(whitelist@)),
{
    reply_type.may_auto_send(whitelist)
}

} // verus!
