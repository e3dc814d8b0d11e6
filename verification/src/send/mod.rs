//! Sending a batch of removal requests: the decisions of a run.
//!
//! A run walks the brokers in order. For each one it either stops (the run
//! was cancelled), skips it (the daily cap is reached), or renders and sends
//! a request and records what came of it. The rendering, the transport and
//! the waiting between sends belong to the caller; this module decides each
//! step and keeps the totals, so that every broker is accounted for exactly
//! once and the cap is never passed.

pub mod pool;

use vstd::prelude::*;

use crate::config::EmailConfig;
use crate::text::{join, views};

verus! {

/// Knobs for one run.
#[derive(Debug)]
pub struct SendOptions {
    /// Template name: `gdpr`, `ccpa`, or `generic`.
    pub template: String,
    /// The From address on every message.
    pub from: String,
    /// Pause between sends, in milliseconds, to stay clear of provider rate
    /// limits.
    pub rate_limit_ms: u64,
    /// Stop after this many sends. `None` means no cap.
    pub daily_limit: Option<usize>,
    pub user_id: i64,
}

impl Default for SendOptions {
    fn default() -> (r: SendOptions)
        ensures
            r.template@ == crate::config::DEFAULT_TEMPLATE@,
            r.from@.len() == 0,
            r.rate_limit_ms == crate::config::DEFAULT_RATE_LIMIT_MS,
            r.daily_limit is None,
            r.user_id == crate::history::DEFAULT_USER_ID,
    {
        SendOptions {
            template: crate::config::DEFAULT_TEMPLATE.to_string(),
            from: String::new(),
            rate_limit_ms: crate::config::DEFAULT_RATE_LIMIT_MS,
            daily_limit: None,
            user_id: crate::history::DEFAULT_USER_ID,
        }
    }
}

/// What happened for one broker.
#[derive(Debug, Clone, PartialEq, Eq)]
pub enum Outcome {
    Sent { message_id: String },
    Failed { error: String },
    /// The daily cap was reached before this broker's turn.
    SkippedOverLimit,
}

/// One step of a run, handed to the caller's progress sink.
#[derive(Debug, Clone, PartialEq, Eq)]
pub enum Progress {
    Started { total: usize },
    Broker {
        /// 1-based position in the run.
        index: usize,
        total: usize,
        broker_id: String,
        broker_name: String,
        broker_email: String,
        outcome: Outcome,
    },
    Finished(Summary),
}

/// Totals for a completed (or cancelled) run.
#[derive(Debug, Clone, Copy, PartialEq, Eq, Structural)]
pub struct Summary {
    pub sent: usize,
    pub failed: usize,
    pub skipped: usize,
    /// True when the run stopped early because it was cancelled.
    pub cancelled: bool,
}

impl Default for Summary {
    fn default() -> (r: Summary)
        ensures
            r == (Summary { sent: 0, failed: 0, skipped: 0, cancelled: false }),
    {
        Summary { sent: 0, failed: 0, skipped: 0, cancelled: false }
    }
}

impl Summary {
    /// Messages handed to a transport, whatever came of them.
    pub open spec fn attempted_spec(&self) -> int {
        self.sent + self.failed
    }

    /// Messages handed to a transport: skips are not attempts.
    pub fn attempted(&self) -> (r: usize)
        requires
            self.sent + self.failed <= usize::MAX,
        ensures
            r == self.attempted_spec(),
    {
        self.sent + self.failed
    }
}

/// Whether the cap stops the next send.
pub open spec fn over_limit(daily_limit: Option<usize>, summary: Summary) -> bool {
    match daily_limit {
        Some(limit) => summary.attempted_spec() >= limit,
        None => false,
    }
}

/// What the run does about the next broker.
#[derive(Debug, Clone, Copy, PartialEq, Eq, Structural)]
pub enum Step {
    /// The run was cancelled: every broker left is skipped.
    Stop,
    /// The cap is reached: this broker is reported and skipped.
    Skip,
    /// Render and send this broker's request.
    Send,
}

/// The state of a run between brokers.
#[derive(Debug, Clone, Copy, PartialEq, Eq, Structural)]
pub struct SendRun {
    /// How many brokers the run covers.
    pub total: usize,
    /// How many of them have been dealt with.
    pub done: usize,
    pub summary: Summary,
    pub daily_limit: Option<usize>,
}

impl SendRun {
    /// Every broker dealt with is counted once, and the cap holds.
    pub open spec fn wf(&self) -> bool {
        &&& self.done <= self.total
        &&& self.summary.sent + self.summary.failed + self.summary.skipped == self.done
        &&& match self.daily_limit {
            Some(limit) => self.summary.attempted_spec() <= limit,
            None => true,
        }
    }

    /// A run over `total` brokers that has not started.
    pub fn new(total: usize, daily_limit: Option<usize>) -> (r: SendRun)
        ensures
            r.wf(),
            r.total == total,
            r.done == 0,
            r.daily_limit == daily_limit,
            r.summary == (Summary { sent: 0, failed: 0, skipped: 0, cancelled: false }),
    {
        SendRun { total, done: 0, summary: Summary::default(), daily_limit }
    }

    /// Every broker has been dealt with.
    pub fn is_finished(&self) -> (r: bool)
        ensures
            r == (self.done == self.total),
    {
        self.done == self.total
    }

    /// Whether the cap stops the next send.
    pub fn over_limit(&self) -> (r: bool)
        requires
            self.wf(),
        ensures
            r == over_limit(self.daily_limit, self.summary),
    {
        match self.daily_limit {
            Some(limit) => self.summary.attempted() >= limit,
            None => false,
        }
    }

    /// What to do about the next broker: a cancel wins over everything, then
    /// the cap, and otherwise the request goes out.
    pub fn next_step(&self, cancelled: bool) -> (r: Step)
        requires
            self.wf(),
        ensures
            r == (if cancelled {
                Step::Stop
            } else if over_limit(self.daily_limit, self.summary) {
                Step::Skip
            } else {
                Step::Send
            }),
    {
        if cancelled {
            Step::Stop
        } else if self.over_limit() {
            Step::Skip
        } else {
            Step::Send
        }
    }

    /// The run was cancelled: the brokers not yet reached are skipped.
    pub fn stop(&mut self)
        requires
            old(self).wf(),
        ensures
            final(self).wf(),
            final(self).done == final(self).total,
            final(self).total == old(self).total,
            final(self).daily_limit == old(self).daily_limit,
            final(self).summary == (Summary {
                skipped: (old(self).summary.skipped + (old(self).total - old(self).done)) as usize,
                cancelled: true,
                ..old(self).summary
            }),
    {
        self.summary.skipped = self.summary.skipped + (self.total - self.done);
        self.summary.cancelled = true;
        self.done = self.total;
    }

    /// The cap is reached: count this broker as skipped.
    pub fn skip(&mut self) -> (r: Outcome)
        requires
            old(self).wf(),
            old(self).done < old(self).total,
        ensures
            final(self).wf(),
            r == Outcome::SkippedOverLimit,
            final(self).done == old(self).done + 1,
            final(self).total == old(self).total,
            final(self).daily_limit == old(self).daily_limit,
            final(self).summary == (Summary {
                skipped: (old(self).summary.skipped + 1) as usize,
                ..old(self).summary
            }),
    {
        self.summary.skipped = self.summary.skipped + 1;
        self.done = self.done + 1;
        Outcome::SkippedOverLimit
    }

    /// Count what became of a request that was sent. A failure is counted
    /// and the run goes on: one bad address must not stop the others.
    pub fn record(&mut self, outcome: &Outcome)
        requires
            old(self).wf(),
            old(self).done < old(self).total,
            !over_limit(old(self).daily_limit, old(self).summary),
        ensures
            final(self).wf(),
            final(self).done == old(self).done + 1,
            final(self).total == old(self).total,
            final(self).daily_limit == old(self).daily_limit,
            final(self).summary == (match outcome {
                Outcome::Sent { .. } => Summary {
                    sent: (old(self).summary.sent + 1) as usize,
                    ..old(self).summary
                },
                Outcome::Failed { .. } => Summary {
                    failed: (old(self).summary.failed + 1) as usize,
                    ..old(self).summary
                },
                Outcome::SkippedOverLimit => Summary {
                    skipped: (old(self).summary.skipped + 1) as usize,
                    ..old(self).summary
                },
            }),
    {
        match outcome {
            Outcome::Sent { .. } => {
                self.summary.sent = self.summary.sent + 1;
            },
            Outcome::Failed { .. } => {
                self.summary.failed = self.summary.failed + 1;
            },
            Outcome::SkippedOverLimit => {
                self.summary.skipped = self.summary.skipped + 1;
            },
        }
        self.done = self.done + 1;
    }

    /// Whether to wait before the next broker: not after the last one, not
    /// after one skipped without contacting anything, and not when no pause
    /// is set.
    pub fn pause_after(&self, skipped: bool, rate_limit_ms: u64) -> (r: bool)
        ensures
            r == (self.done < self.total && !skipped && rate_limit_ms != 0),
    {
        self.done < self.total && !skipped && rate_limit_ms != 0
    }
}

/// A run that has dealt with every broker accounts for each of them exactly
/// once: sent, failed, or skipped.
pub proof fn law_every_broker_is_accounted_for(run: SendRun)
    requires
        run.wf(),
        run.done == run.total,
    ensures
        run.summary.sent + run.summary.failed + run.summary.skipped == run.total,
{
}

/// However a run goes, the messages it hands to a transport never pass the
/// daily cap: a send is only taken while the cap has room.
pub proof fn law_cap_is_never_passed(run: SendRun, limit: usize)
    requires
        run.wf(),
        run.daily_limit == Some(limit),
    ensures
        run.summary.attempted_spec() <= limit,
{
}

/// Once the cap is reached every later broker is skipped, not sent: the
/// next step stays `Skip` until the run ends or is cancelled.
pub proof fn law_cap_reached_stays_reached(run: SendRun)
    requires
        run.wf(),
        run.done < run.total,
        over_limit(run.daily_limit, run.summary),
    ensures
        ({
            let next = SendRun {
                done: (run.done + 1) as usize,
                summary: Summary { skipped: (run.summary.skipped + 1) as usize, ..run.summary },
                ..run
            };
            next.wf() && over_limit(next.daily_limit, next.summary)
        }),
{
}

/// One broker of a run that is not cancelled: skipped once the cap is
/// reached, else sent, with `delivered` telling whether the transport took
/// the message.
pub open spec fn uncancelled_step(run: SendRun, delivered: bool) -> SendRun {
    let s = run.summary;
    let summary = if over_limit(run.daily_limit, s) {
        Summary { skipped: (s.skipped + 1) as usize, ..s }
    } else if delivered {
        Summary { sent: (s.sent + 1) as usize, ..s }
    } else {
        Summary { failed: (s.failed + 1) as usize, ..s }
    };
    SendRun { done: (run.done + 1) as usize, summary, ..run }
}

/// The run after each broker in turn, `delivered[i]` telling whether the
/// `i`-th message sent went through.
pub open spec fn run_over(run: SendRun, delivered: Seq<bool>) -> SendRun
    decreases delivered.len(),
{
    if delivered.len() == 0 {
        run
    } else {
        run_over(uncancelled_step(run, delivered[0]), delivered.drop_first())
    }
}

/// The smaller of two numbers.
pub open spec fn smaller(a: int, b: int) -> int {
    if a <= b {
        a
    } else {
        b
    }
}

/// A run under a daily cap that is not cancelled, whatever the transport
/// makes of each message, hands exactly as many messages to it as the
/// smaller of the cap's room and the brokers left, and skips the rest;
/// every broker is reported.
pub proof fn law_a_capped_run_sends_up_to_its_cap(
    run: SendRun,
    delivered: Seq<bool>,
    limit: usize,
)
    requires
        run.wf(),
        run.daily_limit == Some(limit),
        delivered.len() == run.total - run.done,
    ensures
        run_over(run, delivered).wf(),
        run_over(run, delivered).done == run.total,
        run_over(run, delivered).summary.attempted_spec() == smaller(
            limit as int,
            run.summary.attempted_spec() + delivered.len(),
        ),
        run_over(run, delivered).summary.skipped == run.summary.skipped + delivered.len() - (
        run_over(run, delivered).summary.attempted_spec() - run.summary.attempted_spec()),
        run_over(run, delivered).summary.cancelled == run.summary.cancelled,
    decreases delivered.len(),
{
    if delivered.len() > 0 {
        let next = uncancelled_step(run, delivered[0]);
        assert(next.wf());
        law_a_capped_run_sends_up_to_its_cap(next, delivered.drop_first(), limit);
    }
}

/// Drop links of an error chain that only restate the one above them.
pub open spec fn collapse_repeats(parts: Seq<Seq<char>>) -> Seq<Seq<char>>
    decreases parts.len(),
{
    if parts.len() == 0 {
        Seq::empty()
    } else {
        let before = collapse_repeats(parts.drop_last());
        if parts.len() > 1 && parts.last() == parts[parts.len() - 2] {
            before
        } else {
            before.push(parts.last())
        }
    }
}

/// What `collapse_repeats` keeps ends with the last link.
proof fn lemma_collapse_last(parts: Seq<Seq<char>>)
    requires
        parts.len() > 0,
    ensures
        collapse_repeats(parts).len() > 0,
        collapse_repeats(parts).last() == parts.last(),
    decreases parts.len(),
{
    if parts.len() > 1 {
        lemma_collapse_last(parts.drop_last());
    }
}

/// What is kept of an error chain never holds a link right after one that
/// says the same, and keeps the innermost link, where the detail is.
pub proof fn law_error_chain_drops_only_restatements(parts: Seq<Seq<char>>)
    ensures
        forall|i: int, j: int|
            0 <= i && j == i + 1 && j < collapse_repeats(parts).len() ==> #[trigger] collapse_repeats(
                parts,
            )[i] != #[trigger] collapse_repeats(parts)[j],
        parts.len() > 0 ==> collapse_repeats(parts).last() == parts.last(),
    decreases parts.len(),
{
    if parts.len() > 0 {
        let before = parts.drop_last();
        law_error_chain_drops_only_restatements(before);
        lemma_collapse_last(parts);
        if before.len() > 0 {
            lemma_collapse_last(before);
        }
    }
}

/// Flatten an error and the chain of errors beneath it into one line.
///
/// `messages` holds each link's text, outermost first. A link that only
/// restates the one above it is left out, and the rest are joined with
/// `": "`: the detail that identifies the problem sits one level down, and
/// these strings are what a person reads in history.
pub fn error_chain(messages: &Vec<String>) -> (r: String)
    ensures
        r@ == join(collapse_repeats(views(messages@)), ": "@),
{
    let ghost all = views(messages@);
    let mut kept: Vec<String> = Vec::new();
    let mut i: usize = 0;
    while i < messages.len()
        invariant
            i <= messages@.len(),
            all == views(messages@),
            views(kept@) == collapse_repeats(all.take(i as int)),
        decreases messages@.len() - i,
    {
        proof {
            assert(all.take(i + 1).drop_last() == all.take(i as int));
            assert(all.take(i + 1).last() == messages@[i as int]@);
            if i > 0 {
                lemma_collapse_last(all.take(i as int));
                assert(all.take(i + 1)[i - 1] == all.take(i as int).last());
            }
        }
        let repeats = i > 0 && crate::text::same_text(
            kept[kept.len() - 1].as_str(),
            messages[i].as_str(),
        );
        if !repeats {
            let ghost before = kept@;
            let text = messages[i].clone();
            kept.push(text);
            proof {
                assert(views(kept@) =~= views(before).push(messages@[i as int]@));
            }
        }
        i = i + 1;
    }
    proof {
        assert(all.take(messages@.len() as int) == all);
    }
    crate::text::join_strings(&kept, ": ")
}

/// The transport a run should use: the configured one, or none at all for a
/// dry run that only reports what it would send.
#[derive(Debug)]
pub enum Transport {
    DryRun,
    Configured(EmailConfig),
}

/// Pick the transport for a run. Building the real one is left to the
/// caller, which owns the network.
pub fn sender_for(config: &EmailConfig, dry_run: bool) -> (r: Transport)
    ensures
        r == (if dry_run {
            Transport::DryRun
        } else {
            Transport::Configured(*config)
        }),
{
    if dry_run {
        Transport::DryRun
    } else {
        Transport::Configured(config.duplicate())
    }
}

} // verus!
