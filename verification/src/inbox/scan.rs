//! Fetch, classify, store: the decisions of a mailbox scan.
//!
//! The caller reads the mailbox and writes history; this module says which
//! messages a scan considers, what is written for each, which stage it moves
//! the broker to, and keeps the totals. It also decides what re-reading a
//! stored reply with the current classifier makes of it.

use vstd::prelude::*;

use super::classifier::{
    classified, classified_by_subject, summary_of, ClassifiedResponse, ClassifiedView, Confidence,
    ResponseType, Summary,
};
use super::Email;
use crate::history::types::{stored_kind, stored_response_type};
use crate::history::PipelineStatus;
use crate::patterns::option_view;
use crate::text::{last_index_of, lowercase_of};

verus! {

/// How far back to look when nothing else is asked for.
pub const DEFAULT_DAYS: i64 = 7;

#[derive(Debug, Clone, Copy, PartialEq, Eq, Structural)]
pub struct ScanOptions {
    /// How many days of mail to read.
    pub days: i64,
    pub user_id: i64,
    /// Store and classify mail that matched no known broker.
    ///
    /// Off by default: a mailbox holds a lot that has nothing to do with
    /// removal requests, and filing it all as broker replies would bury the
    /// real ones.
    pub include_unmatched: bool,
}

impl Default for ScanOptions {
    fn default() -> (r: ScanOptions)
        ensures
            r == (ScanOptions {
                days: DEFAULT_DAYS,
                user_id: crate::history::DEFAULT_USER_ID,
                include_unmatched: false,
            }),
    {
        ScanOptions {
            days: DEFAULT_DAYS,
            user_id: crate::history::DEFAULT_USER_ID,
            include_unmatched: false,
        }
    }
}

/// What one scan did.
#[derive(Debug, Clone, Copy, PartialEq, Eq)]
pub struct ScanSummary {
    /// Messages read from the mailbox.
    pub fetched: usize,
    /// Of those, the ones from a known broker.
    pub matched: usize,
    /// Rows written or updated.
    pub stored: usize,
    /// Brokers whose pipeline stage moved.
    pub advanced: usize,
    /// Addresses that came back as undeliverable.
    pub bounced: usize,
    pub by_type: Summary,
}

/// Progress through one scan.
#[derive(Debug, Clone, PartialEq, Eq)]
pub enum Progress {
    Connected,
    Fetched { count: usize },
    Classified {
        index: usize,
        total: usize,
        broker_name: String,
        response_type: ResponseType,
        confidence: Confidence,
    },
    Finished(ScanSummary),
}

/// Which pipeline stage a reply puts the broker in.
pub open spec fn stage_of(t: ResponseType) -> PipelineStatus {
    match t {
        ResponseType::Success => PipelineStatus::Confirmed,
        ResponseType::FormRequired => PipelineStatus::FormRequired,
        ResponseType::ConfirmationRequired => PipelineStatus::AwaitingConfirmation,
        ResponseType::Rejected => PipelineStatus::Rejected,
        ResponseType::Bounced => PipelineStatus::Failed,
        ResponseType::Pending | ResponseType::Unknown => PipelineStatus::AwaitingResponse,
    }
}

/// Which pipeline stage a reply puts the broker in.
///
/// A bounce means the request never arrived, which is a failure of the send
/// rather than a refusal by the broker; an acknowledgement or an unreadable
/// reply both mean something more is coming.
pub fn stage_for(response_type: ResponseType) -> (r: PipelineStatus)
    ensures
        r == stage_of(response_type),
{
    match response_type {
        ResponseType::Success => PipelineStatus::Confirmed,
        ResponseType::FormRequired => PipelineStatus::FormRequired,
        ResponseType::ConfirmationRequired => PipelineStatus::AwaitingConfirmation,
        ResponseType::Rejected => PipelineStatus::Rejected,
        ResponseType::Bounced => PipelineStatus::Failed,
        ResponseType::Pending | ResponseType::Unknown => PipelineStatus::AwaitingResponse,
    }
}

/// The best name available for the sender.
pub open spec fn display_name_of(e: Email) -> Seq<char> {
    if e.broker_name@.len() > 0 {
        e.broker_name@
    } else if e.from_name@.len() > 0 {
        e.from_name@
    } else if e.from@.len() > 0 {
        e.from@
    } else {
        "unknown sender"@
    }
}

/// The best name available for the sender: the broker, then the display
/// name, then the address.
pub fn display_name(email: &Email) -> (r: String)
    ensures
        r@ == display_name_of(*email),
{
    if !email.broker_name.as_str().is_empty() {
        email.broker_name.clone()
    } else if !email.from_name.as_str().is_empty() {
        email.from_name.clone()
    } else if !email.from.as_str().is_empty() {
        email.from.clone()
    } else {
        proof {
            reveal_strlit("unknown sender");
        }
        "unknown sender".to_string()
    }
}

/// What follows the last `@` of an address, lowercased, or nothing.
pub open spec fn address_domain_of(address: Seq<char>) -> Seq<char> {
    match last_index_of(address, '@') {
        Some(i) => lowercase_of(address.skip(i + 1)),
        None => Seq::empty(),
    }
}

/// The domain part of an address, lowercased; empty when there is no `@`.
pub fn domain_of_address(address: &str) -> (r: String)
    ensures
        r@ == address_domain_of(address@),
{
    let chars = crate::text::chars_of(address);
    let n = chars.len();
    match crate::text::rfind_char(chars.as_slice(), '@') {
        Some(i) => {
            proof {
                crate::text::lemma_last_index(address@, '@');
            }
            let after = crate::text::slice_to_vec(chars.as_slice(), i + 1, n);
            assert(after@ == address@.skip(i + 1));
            let text = crate::text::string_of(after.as_slice());
            crate::text::lowercase(text.as_str())
        },
        None => String::new(),
    }
}

/// Whether a scan reads this message: every broker's reply, and the rest
/// only when asked to.
pub open spec fn is_considered(e: Email, include_unmatched: bool) -> bool {
    include_unmatched || e.broker_id@.len() > 0
}

/// The positions of the messages a scan reads, in mailbox order.
pub open spec fn considered_of(emails: Seq<Email>, include_unmatched: bool) -> Seq<int>
    decreases emails.len(),
{
    if emails.len() == 0 {
        Seq::empty()
    } else {
        let before = considered_of(emails.drop_last(), include_unmatched);
        if is_considered(emails.last(), include_unmatched) {
            before.push(emails.len() - 1)
        } else {
            before
        }
    }
}

/// The positions of the messages a scan reads, in mailbox order.
pub fn considered(emails: &[Email], include_unmatched: bool) -> (r: Vec<usize>)
    ensures
        r@.map_values(|i: usize| i as int) == considered_of(emails@, include_unmatched),
{
    let mut out: Vec<usize> = Vec::new();
    let mut i: usize = 0;
    while i < emails.len()
        invariant
            i <= emails@.len(),
            out@.map_values(|k: usize| k as int) == considered_of(
                emails@.take(i as int),
                include_unmatched,
            ),
        decreases emails@.len() - i,
    {
        proof {
            assert(emails@.take(i + 1).drop_last() == emails@.take(i as int));
            assert(emails@.take(i + 1).last() == emails@[i as int]);
        }
        if include_unmatched || !emails[i].broker_id.as_str().is_empty() {
            let ghost before = out@;
            out.push(i);
            proof {
                assert(out@.map_values(|k: usize| k as int) =~= before.map_values(
                    |k: usize| k as int,
                ).push(i as int));
            }
        }
        i = i + 1;
    }
    proof {
        assert(emails@.take(emails@.len() as int) == emails@);
    }
    out
}

/// A reply to store, before it has an id.
#[derive(Debug, Clone, PartialEq, Eq)]
pub struct NewBrokerResponse {
    pub user_id: i64,
    pub broker_id: String,
    pub broker_name: String,
    pub response_type: crate::history::ResponseType,
    pub email_from: String,
    pub email_subject: String,
    pub email_body: String,
    pub form_url: String,
    pub confirm_url: String,
    pub confidence: Confidence,
    pub needs_review: bool,
    /// Seconds since the Unix epoch.
    pub received_at: Option<i64>,
}

/// A link, or nothing.
pub open spec fn or_empty(o: Option<Seq<char>>) -> Seq<char> {
    match o {
        Some(s) => s,
        None => Seq::empty(),
    }
}

fn text_or_empty(o: &Option<String>) -> (r: String)
    ensures
        r@ == or_empty(option_view(*o)),
{
    match o {
        Some(s) => s.clone(),
        None => String::new(),
    }
}

/// What is written to history for one classified reply; `None` for mail
/// that matched no broker, since a row keyed to no broker cannot be acted
/// on. The body is kept so a later classifier change can re-read the reply
/// without going back to the mailbox.
pub fn response_for(user_id: i64, email: &Email, result: &ClassifiedResponse) -> (r: Option<
    NewBrokerResponse,
>)
    ensures
        r is None <==> email.broker_id@.len() == 0,
        r matches Some(n) ==> {
            &&& n.user_id == user_id
            &&& n.broker_id@ == email.broker_id@
            &&& n.broker_name@ == display_name_of(*email)
            &&& n.response_type == stored_kind(result.response_type)
            &&& n.email_from@ == email.from@
            &&& n.email_subject@ == email.subject@
            &&& n.email_body@ == super::email_text(*email)
            &&& n.form_url@ == or_empty(result@.form_url)
            &&& n.confirm_url@ == or_empty(result@.confirm_url)
            &&& n.confidence == result.confidence
            &&& n.needs_review == result.needs_review
            &&& n.received_at == email.received_at
        },
{
    if email.broker_id.as_str().is_empty() {
        return None;
    }
    Some(
        NewBrokerResponse {
            user_id,
            broker_id: email.broker_id.clone(),
            broker_name: display_name(email),
            response_type: stored_response_type(result.response_type),
            email_from: email.from.clone(),
            email_subject: email.subject.clone(),
            email_body: email.text(),
            form_url: text_or_empty(&result.form_url),
            confirm_url: text_or_empty(&result.confirm_url),
            confidence: result.confidence,
            needs_review: result.needs_review,
            received_at: email.received_at,
        },
    )
}

/// The stage a reply moves its broker to; `None` for mail that matched no
/// broker.
pub fn stage_update(email: &Email, response_type: ResponseType) -> (r: Option<PipelineStatus>)
    ensures
        r == (if email.broker_id@.len() == 0 {
            None
        } else {
            Some(stage_of(response_type))
        }),
{
    if email.broker_id.as_str().is_empty() {
        None
    } else {
        Some(stage_for(response_type))
    }
}

/// The totals of a scan in progress.
#[derive(Debug, Clone, Copy, PartialEq, Eq)]
pub struct ScanRun {
    pub summary: ScanSummary,
    /// How many messages the scan reads.
    pub total: usize,
    /// How many of them have been dealt with.
    pub done: usize,
}

impl ScanRun {
    /// Each count is bounded by what it counts: a row is stored and a stage
    /// moved only for a reply that matched a broker.
    pub open spec fn wf(&self) -> bool {
        &&& self.done <= self.total <= self.summary.fetched
        &&& self.summary.matched <= self.done
        &&& self.summary.stored <= self.summary.matched
        &&& self.summary.advanced <= self.summary.matched
        &&& self.summary.bounced <= self.done
    }

    /// A scan of `fetched` messages, of which it reads `total`.
    pub fn new(fetched: usize, total: usize) -> (r: ScanRun)
        requires
            total <= fetched,
        ensures
            r.wf(),
            r.total == total,
            r.done == 0,
            r.summary.fetched == fetched,
            r.summary.matched == 0 && r.summary.stored == 0 && r.summary.advanced == 0
                && r.summary.bounced == 0,
            r.summary.by_type == summary_of(Seq::empty()),
    {
        let by_type = super::classifier::summarize(&[]);
        ScanRun {
            summary: ScanSummary { fetched, matched: 0, stored: 0, advanced: 0, bounced: 0, by_type },
            total,
            done: 0,
        }
    }

    /// Count one message read: whether it matched a broker, what it was
    /// classified as, and whether its row was stored and its broker moved.
    pub fn count(&mut self, email: &Email, response_type: ResponseType, stored: bool, advanced: bool)
        requires
            old(self).wf(),
            old(self).done < old(self).total,
            stored ==> email.broker_id@.len() > 0,
            advanced ==> email.broker_id@.len() > 0,
        ensures
            final(self).wf(),
            final(self).total == old(self).total,
            final(self).done == old(self).done + 1,
            final(self).summary == (ScanSummary {
                matched: (old(self).summary.matched + if email.broker_id@.len() > 0 {
                    1int
                } else {
                    0
                }) as usize,
                stored: (old(self).summary.stored + if stored {
                    1int
                } else {
                    0
                }) as usize,
                advanced: (old(self).summary.advanced + if advanced {
                    1int
                } else {
                    0
                }) as usize,
                bounced: (old(self).summary.bounced + if response_type == ResponseType::Bounced {
                    1int
                } else {
                    0
                }) as usize,
                ..old(self).summary
            }),
    {
        if !email.broker_id.as_str().is_empty() {
            self.summary.matched = self.summary.matched + 1;
        }
        if response_type == ResponseType::Bounced {
            self.summary.bounced = self.summary.bounced + 1;
        }
        if stored {
            self.summary.stored = self.summary.stored + 1;
        }
        if advanced {
            self.summary.advanced = self.summary.advanced + 1;
        }
        self.done = self.done + 1;
    }

    /// Close the scan with the tally by type of everything it classified.
    pub fn finish(&mut self, classified: &[ClassifiedResponse])
        requires
            old(self).wf(),
        ensures
            final(self).wf(),
            final(self).summary == (ScanSummary {
                by_type: summary_of(classified@),
                ..old(self).summary
            }),
            final(self).total == old(self).total,
            final(self).done == old(self).done,
    {
        self.summary.by_type = super::classifier::summarize(classified);
    }
}

/// However a scan goes, it never stores a row or moves a stage for more
/// messages than matched a broker, and never matches more than it fetched.
pub proof fn law_scan_counts_are_bounded(run: ScanRun)
    requires
        run.wf(),
    ensures
        run.summary.stored <= run.summary.matched <= run.summary.fetched,
        run.summary.advanced <= run.summary.matched,
        run.summary.bounced <= run.summary.fetched,
{
}

/// The messages a scan reads, in mailbox order.
pub open spec fn considered_emails(emails: Seq<Email>, include_unmatched: bool) -> Seq<Email>
    decreases emails.len(),
{
    if emails.len() == 0 {
        Seq::empty()
    } else {
        let before = considered_emails(emails.drop_last(), include_unmatched);
        if is_considered(emails.last(), include_unmatched) {
            before.push(emails.last())
        } else {
            before
        }
    }
}

/// One for a fact that holds, nothing otherwise.
pub open spec fn one_if(b: bool) -> nat {
    if b {
        1
    } else {
        0
    }
}

/// How many of `emails` came from a known broker.
pub open spec fn matched_count(emails: Seq<Email>) -> nat
    decreases emails.len(),
{
    if emails.len() == 0 {
        0
    } else {
        matched_count(emails.drop_last()) + one_if(emails.last().broker_id@.len() > 0)
    }
}

/// How many of `kinds` are bounces.
pub open spec fn bounce_count(kinds: Seq<ResponseType>) -> nat
    decreases kinds.len(),
{
    if kinds.len() == 0 {
        0
    } else {
        bounce_count(kinds.drop_last()) + one_if(kinds.last() == ResponseType::Bounced)
    }
}

/// The positions `considered` gives pick out exactly the messages a scan
/// reads, and leaving unmatched mail out drops no broker's reply.
pub proof fn lemma_considered_emails(emails: Seq<Email>, include_unmatched: bool)
    ensures
        considered_emails(emails, include_unmatched).len() == considered_of(
            emails,
            include_unmatched,
        ).len(),
        forall|k: int|
            0 <= k < considered_of(emails, include_unmatched).len() ==> 0 <= #[trigger] considered_of(
                emails,
                include_unmatched,
            )[k] < emails.len() && considered_emails(emails, include_unmatched)[k]
                == emails[considered_of(emails, include_unmatched)[k]],
        matched_count(considered_emails(emails, include_unmatched)) == matched_count(emails),
    decreases emails.len(),
{
    if emails.len() > 0 {
        let rest = emails.drop_last();
        lemma_considered_emails(rest, include_unmatched);
        let ce = considered_emails(emails, include_unmatched);
        let co = considered_of(emails, include_unmatched);
        let cr = considered_emails(rest, include_unmatched);
        let or = considered_of(rest, include_unmatched);
        if is_considered(emails.last(), include_unmatched) {
            assert(ce.drop_last() == cr);
        } else {
            assert(ce == cr);
        }
        assert forall|k: int| 0 <= k < co.len() implies 0 <= #[trigger] co[k] < emails.len()
            && ce[k] == emails[co[k]] by {
            if k < or.len() {
                assert(co[k] == or[k]);
                assert(ce[k] == cr[k]);
                assert(rest[or[k]] == emails[or[k]]);
            }
        }
    }
}

/// One message of a scan in which every store write succeeds: a broker's
/// reply is stored, and `advanced` says whether its broker's stage moved.
pub open spec fn scanned(run: ScanRun, e: Email, kind: ResponseType, advanced: bool) -> ScanRun {
    let s = run.summary;
    let matched = e.broker_id@.len() > 0;
    ScanRun {
        done: (run.done + 1) as usize,
        summary: ScanSummary {
            matched: (s.matched + if matched {
                1int
            } else {
                0
            }) as usize,
            stored: (s.stored + if matched {
                1int
            } else {
                0
            }) as usize,
            advanced: (s.advanced + if advanced {
                1int
            } else {
                0
            }) as usize,
            bounced: (s.bounced + if kind == ResponseType::Bounced {
                1int
            } else {
                0
            }) as usize,
            ..s
        },
        ..run
    }
}

/// The scan after each message in turn, with its classification and
/// whether its broker's stage moved.
pub open spec fn scan_over(
    run: ScanRun,
    emails: Seq<Email>,
    kinds: Seq<ResponseType>,
    advanced: Seq<bool>,
) -> ScanRun
    decreases emails.len(),
{
    if emails.len() == 0 || kinds.len() == 0 || advanced.len() == 0 {
        run
    } else {
        scan_over(
            scanned(run, emails[0], kinds[0], advanced[0]),
            emails.drop_first(),
            kinds.drop_first(),
            advanced.drop_first(),
        )
    }
}

/// Counting broker replies from the front agrees with counting from the back.
proof fn lemma_matched_from_front(emails: Seq<Email>)
    requires
        emails.len() > 0,
    ensures
        matched_count(emails) == matched_count(emails.drop_first()) + one_if(
            emails[0].broker_id@.len() > 0,
        ),
    decreases emails.len(),
{
    if emails.len() > 1 {
        let rest = emails.drop_first();
        lemma_matched_from_front(emails.drop_last());
        assert(emails.drop_last().drop_first() =~= rest.drop_last());
        assert(emails.drop_last()[0] == emails[0]);
        assert(rest.last() == emails.last());
        assert(matched_count(rest) == matched_count(rest.drop_last()) + one_if(
            rest.last().broker_id@.len() > 0,
        ));
        assert(matched_count(emails) == matched_count(emails.drop_last()) + one_if(
            emails.last().broker_id@.len() > 0,
        ));
    } else {
        assert(emails.drop_first().len() == 0);
        assert(emails.drop_last().len() == 0);
        assert(matched_count(emails.drop_first()) == 0);
        assert(matched_count(emails.drop_last()) == 0);
        assert(emails.last() == emails[0]);
        assert(matched_count(emails) == one_if(emails[0].broker_id@.len() > 0));
    }
}

/// Counting bounces from the front agrees with counting from the back.
proof fn lemma_bounces_from_front(kinds: Seq<ResponseType>)
    requires
        kinds.len() > 0,
    ensures
        bounce_count(kinds) == bounce_count(kinds.drop_first()) + one_if(
            kinds[0] == ResponseType::Bounced,
        ),
    decreases kinds.len(),
{
    if kinds.len() > 1 {
        let rest = kinds.drop_first();
        lemma_bounces_from_front(kinds.drop_last());
        assert(kinds.drop_last().drop_first() =~= rest.drop_last());
        assert(kinds.drop_last()[0] == kinds[0]);
        assert(rest.last() == kinds.last());
        assert(bounce_count(rest) == bounce_count(rest.drop_last()) + one_if(
            rest.last() == ResponseType::Bounced,
        ));
        assert(bounce_count(kinds) == bounce_count(kinds.drop_last()) + one_if(
            kinds.last() == ResponseType::Bounced,
        ));
    } else {
        assert(kinds.drop_first().len() == 0);
        assert(kinds.drop_last().len() == 0);
        assert(bounce_count(kinds.drop_first()) == 0);
        assert(bounce_count(kinds.drop_last()) == 0);
        assert(kinds.last() == kinds[0]);
        assert(bounce_count(kinds) == one_if(kinds[0] == ResponseType::Bounced));
    }
}

/// A scan in which every store write succeeds reads every message it was
/// given, stores exactly the replies that came from a known broker, counts
/// exactly the bounces, and moves a stage only for a broker's reply.
pub proof fn law_a_whole_scan_counts_every_reply(
    run: ScanRun,
    emails: Seq<Email>,
    kinds: Seq<ResponseType>,
    advanced: Seq<bool>,
)
    requires
        run.wf(),
        emails.len() == run.total - run.done,
        kinds.len() == emails.len(),
        advanced.len() == emails.len(),
        forall|i: int| 0 <= i < emails.len() && #[trigger] advanced[i] ==> emails[i].broker_id@.len() > 0,
        run.summary.fetched + emails.len() <= usize::MAX,
    ensures
        scan_over(run, emails, kinds, advanced).wf(),
        scan_over(run, emails, kinds, advanced).done == run.total,
        scan_over(run, emails, kinds, advanced).summary.fetched == run.summary.fetched,
        scan_over(run, emails, kinds, advanced).summary.matched == run.summary.matched
            + matched_count(emails),
        scan_over(run, emails, kinds, advanced).summary.stored == run.summary.stored
            + matched_count(emails),
        scan_over(run, emails, kinds, advanced).summary.bounced == run.summary.bounced
            + bounce_count(kinds),
        scan_over(run, emails, kinds, advanced).summary.advanced <= scan_over(
            run,
            emails,
            kinds,
            advanced,
        ).summary.matched,
    decreases emails.len(),
{
    if emails.len() > 0 {
        lemma_matched_from_front(emails);
        lemma_bounces_from_front(kinds);
        let next = scanned(run, emails[0], kinds[0], advanced[0]);
        assert forall|i: int|
            0 <= i < emails.drop_first().len() && #[trigger] advanced.drop_first()[i]
                implies emails.drop_first()[i].broker_id@.len() > 0 by {
            assert(advanced.drop_first()[i] == advanced[i + 1]);
            assert(emails.drop_first()[i] == emails[i + 1]);
        }
        law_a_whole_scan_counts_every_reply(
            next,
            emails.drop_first(),
            kinds.drop_first(),
            advanced.drop_first(),
        );
    } else {
        assert(matched_count(emails) == 0);
        assert(bounce_count(kinds) == 0);
    }
}

// ---------------------------------------------------------------------
// Re-reading stored replies
// ---------------------------------------------------------------------

/// A stored reply, as far as re-reading it goes.
#[derive(Debug, Clone, PartialEq, Eq)]
pub struct StoredReply {
    pub broker_id: String,
    pub broker_name: String,
    pub response_type: crate::history::ResponseType,
    pub email_from: String,
    pub email_subject: String,
    pub email_body: String,
    pub form_url: String,
    pub confirm_url: String,
    pub needs_review: bool,
}

/// What the current classifier makes of a stored reply.
#[derive(Debug, Clone, PartialEq, Eq)]
pub struct Reclassification {
    pub response_type: ResponseType,
    pub confidence: Confidence,
    pub needs_review: bool,
    pub form_url: String,
    pub confirm_url: String,
}

/// The email a stored reply is re-read as.
pub open spec fn reply_email(r: StoredReply, e: Email) -> bool {
    &&& e.uid == 0
    &&& e.message_id@.len() == 0
    &&& e.from@ == r.email_from@
    &&& e.from_name@.len() == 0
    &&& e.from_domain@ == address_domain_of(r.email_from@)
    &&& e.subject@ == r.email_subject@
    &&& e.body@ == r.email_body@
    &&& e.html_body@.len() == 0
    &&& e.received_at is None
    &&& e.broker_id@ == r.broker_id@
    &&& e.broker_name@ == r.broker_name@
}

/// What re-reading `reply` with the current classifier gives: from the
/// subject line alone, keeping the links, when no body was kept; otherwise
/// the classification of the email the reply is re-read as.
pub open spec fn rereads_as(reply: StoredReply, r: Reclassification) -> bool {
    &&& reply.email_body@.len() == 0 ==> {
        let (t, c, review) = classified_by_subject(reply.email_subject@);
        &&& r.response_type == t
        &&& r.confidence == c
        &&& r.needs_review == review
        &&& r.form_url@ == reply.form_url@
        &&& r.confirm_url@ == reply.confirm_url@
    }
    &&& reply.email_body@.len() > 0 ==> exists|e: Email|
        #[trigger] reply_email(reply, e) && {
            let v: ClassifiedView = classified(e);
            &&& r.response_type == v.response_type
            &&& r.confidence == v.confidence
            &&& r.needs_review == v.needs_review
            &&& r.form_url@ == or_empty(v.form_url)
            &&& r.confirm_url@ == or_empty(v.confirm_url)
        }
}

/// `reply` as it is stored after `new` is written over its classification.
pub open spec fn rewritten(reply: StoredReply, new: Reclassification) -> StoredReply {
    StoredReply {
        response_type: stored_kind(new.response_type),
        form_url: new.form_url,
        confirm_url: new.confirm_url,
        needs_review: new.needs_review,
        ..reply
    }
}

/// Re-reading is a function of what is re-read: two readings of replies
/// that hold the same email give the same result.
proof fn lemma_reread_is_determined(
    a: StoredReply,
    b: StoredReply,
    ra: Reclassification,
    rb: Reclassification,
)
    requires
        rereads_as(a, ra),
        rereads_as(b, rb),
        a.email_from@ == b.email_from@,
        a.email_subject@ == b.email_subject@,
        a.email_body@ == b.email_body@,
        a.broker_id@ == b.broker_id@,
        a.broker_name@ == b.broker_name@,
        a.email_body@.len() == 0 ==> a.form_url@ == b.form_url@ && a.confirm_url@
            == b.confirm_url@,
    ensures
        ra.response_type == rb.response_type,
        ra.confidence == rb.confidence,
        ra.needs_review == rb.needs_review,
        ra.form_url@ == rb.form_url@,
        ra.confirm_url@ == rb.confirm_url@,
{
    if a.email_body@.len() > 0 {
        let ea = choose|e: Email| #[trigger] reply_email(a, e) && {
            let v: ClassifiedView = classified(e);
            &&& ra.response_type == v.response_type
            &&& ra.confidence == v.confidence
            &&& ra.needs_review == v.needs_review
            &&& ra.form_url@ == or_empty(v.form_url)
            &&& ra.confirm_url@ == or_empty(v.confirm_url)
        };
        let eb = choose|e: Email| #[trigger] reply_email(b, e) && {
            let v: ClassifiedView = classified(e);
            &&& rb.response_type == v.response_type
            &&& rb.confidence == v.confidence
            &&& rb.needs_review == v.needs_review
            &&& rb.form_url@ == or_empty(v.form_url)
            &&& rb.confirm_url@ == or_empty(v.confirm_url)
        };
        assert(ea.from_name@ =~= eb.from_name@);
        assert(ea.html_body@ =~= eb.html_body@);
        super::classifier::lemma_same_text_same_classification(ea, eb);
    }
}

/// A second pass right after the first changes nothing: re-reading a reply
/// whose stored classification is what the current classifier made of it
/// gives that classification again, so `reclassification_changes` answers
/// no and nothing is rewritten.
pub proof fn law_a_second_reclassification_changes_nothing(
    reply: StoredReply,
    first: Reclassification,
    second: Reclassification,
)
    requires
        rereads_as(reply, first),
        rereads_as(rewritten(reply, first), second),
    ensures
        stored_kind(second.response_type) == rewritten(reply, first).response_type,
        second.confidence == first.confidence,
        second.needs_review == rewritten(reply, first).needs_review,
        second.form_url@ == rewritten(reply, first).form_url@,
        second.confirm_url@ == rewritten(reply, first).confirm_url@,
{
    let again = rewritten(reply, first);
    lemma_reread_is_determined(again, reply, second, first);
}

/// Re-read a stored reply with the current classifier. A reply whose body
/// was kept is classified in full; one without falls back to its subject
/// line and keeps the links it had.
pub fn reclassify(reply: &StoredReply) -> (r: Reclassification)
    ensures
        rereads_as(*reply, r),
{
    if reply.email_body.as_str().is_empty() {
        let (response_type, confidence, needs_review) = super::classifier::classify_by_subject(
            reply.email_subject.as_str(),
        );
        Reclassification {
            response_type,
            confidence,
            needs_review,
            form_url: reply.form_url.clone(),
            confirm_url: reply.confirm_url.clone(),
        }
    } else {
        let email = Email {
            uid: 0,
            message_id: String::new(),
            from: reply.email_from.clone(),
            from_name: String::new(),
            from_domain: domain_of_address(reply.email_from.as_str()),
            subject: reply.email_subject.clone(),
            body: reply.email_body.clone(),
            html_body: String::new(),
            received_at: None,
            broker_id: reply.broker_id.clone(),
            broker_name: reply.broker_name.clone(),
        };
        let result = super::classifier::classify(&email);
        assert(reply_email(*reply, email));
        Reclassification {
            response_type: result.response_type,
            confidence: result.confidence,
            needs_review: result.needs_review,
            form_url: text_or_empty(&result.form_url),
            confirm_url: text_or_empty(&result.confirm_url),
        }
    }
}

/// Whether re-reading changed anything that is stored. `same_confidence`
/// says whether the new confidence equals the stored one, which is kept as
/// a float outside the library.
pub fn reclassification_changes(
    reply: &StoredReply,
    new: &Reclassification,
    same_confidence: bool,
) -> (r: bool)
    ensures
        r == !(stored_kind(new.response_type) == reply.response_type && same_confidence
            && new.needs_review == reply.needs_review && new.form_url@ == reply.form_url@
            && new.confirm_url@ == reply.confirm_url@),
{
    let stored = stored_response_type(new.response_type);
    !(stored == reply.response_type && same_confidence && new.needs_review == reply.needs_review
        && crate::text::same_text(new.form_url.as_str(), reply.form_url.as_str())
        && crate::text::same_text(new.confirm_url.as_str(), reply.confirm_url.as_str()))
}

} // verus!
