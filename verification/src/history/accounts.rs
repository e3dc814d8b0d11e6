//! Per-person sending accounts, and how much of each one's daily allowance
//! is left.

use vstd::prelude::*;

use crate::config::{ApiKeyConfig, EmailConfig, SmtpConfig};

verus! {

/// Who may send through an account.
#[derive(Debug, Clone, Copy, PartialEq, Eq, Structural)]
pub enum AccountScope {
    /// Only the person who added it.
    Personal,
    /// Anyone on this instance, e.g. a household sharing one mailbox.
    Family,
}

pub open spec fn scope_name(s: AccountScope) -> Seq<char> {
    match s {
        AccountScope::Personal => "personal"@,
        AccountScope::Family => "family"@,
    }
}

impl AccountScope {
    pub fn as_str(self) -> (r: &'static str)
        ensures
            r@ == scope_name(self),
    {
        match self {
            AccountScope::Personal => "personal",
            AccountScope::Family => "family",
        }
    }

    /// Anything unrecognised reads as personal, which is the safer of the
    /// two: a value nobody understands should not widen who can send.
    pub fn from_db(raw: &str) -> (r: AccountScope)
        ensures
            r == (if raw@ == "family"@ {
                AccountScope::Family
            } else {
                AccountScope::Personal
            }),
    {
        if crate::text::same_text(raw, "family") {
            AccountScope::Family
        } else {
            AccountScope::Personal
        }
    }

    pub fn is_shared(self) -> (r: bool)
        ensures
            r == (self == AccountScope::Family),
    {
        match self {
            AccountScope::Family => true,
            AccountScope::Personal => false,
        }
    }
}

/// Each scope reads back from the text it is stored as.
pub proof fn scope_round_trip(s: AccountScope)
    ensures
        (if scope_name(s) == "family"@ {
            AccountScope::Family
        } else {
            AccountScope::Personal
        }) == s,
{
    reveal_strlit("personal");
    reveal_strlit("family");
    assert("personal"@.len() == 8 && "family"@.len() == 6);
}

/// One account requests can be sent from.
#[derive(Debug, Clone, PartialEq, Eq)]
pub struct SenderAccount {
    pub id: i64,
    pub user_id: i64,
    /// A name the person recognises, e.g. "personal gmail".
    pub label: String,
    pub scope: AccountScope,
    /// `smtp`, `resend`, or `sendgrid`.
    pub provider: String,
    pub from_address: String,
    pub smtp: SmtpConfig,
    pub api_key: String,
    /// How many this account sends in a day before a run moves on.
    pub daily_limit: i64,
    pub enabled: bool,
    /// Lower goes first, so a free account is spent before a paid one.
    pub priority: i64,
    /// When it was added, as seconds since the Unix epoch.
    pub created_at: Option<i64>,
}

impl SenderAccount {
    /// A copy equal to this one.
    pub fn duplicate(&self) -> (r: SenderAccount)
        ensures
            r == *self,
    {
        SenderAccount {
            id: self.id,
            user_id: self.user_id,
            label: self.label.clone(),
            scope: self.scope,
            provider: self.provider.clone(),
            from_address: self.from_address.clone(),
            smtp: self.smtp.duplicate(),
            api_key: self.api_key.clone(),
            daily_limit: self.daily_limit,
            enabled: self.enabled,
            priority: self.priority,
            created_at: self.created_at,
        }
    }

    pub open spec fn display_name_view(&self) -> Seq<char> {
        if self.label@.len() == 0 {
            self.from_address@
        } else {
            self.label@ + " ("@ + self.from_address@ + ")"@
        }
    }

    /// What to call this account in the interface.
    pub fn display_name(&self) -> (r: String)
        ensures
            r@ == self.display_name_view(),
    {
        if self.label.as_str().is_empty() {
            self.from_address.clone()
        } else {
            let a = crate::text::concat(self.label.as_str(), " (");
            let b = crate::text::concat(a.as_str(), self.from_address.as_str());
            crate::text::concat(b.as_str(), ")")
        }
    }

    /// The email settings needed to build a sender for this account: its
    /// key serves whichever HTTP provider it names.
    pub fn email_config(&self) -> (r: EmailConfig)
        ensures
            r.provider == self.provider,
            r.from == self.from_address,
            r.smtp == self.smtp,
            r.resend.api_key == self.api_key,
            r.sendgrid.api_key == self.api_key,
    {
        EmailConfig {
            provider: self.provider.clone(),
            from: self.from_address.clone(),
            smtp: self.smtp.duplicate(),
            resend: ApiKeyConfig { api_key: self.api_key.clone() },
            sendgrid: ApiKeyConfig { api_key: self.api_key.clone() },
        }
    }
}

/// A new account, before it has an id.
#[derive(Debug, Clone, PartialEq, Eq)]
pub struct NewSenderAccount {
    pub user_id: i64,
    pub label: String,
    pub scope: AccountScope,
    pub provider: String,
    pub from_address: String,
    pub smtp: SmtpConfig,
    pub api_key: String,
    pub daily_limit: i64,
    pub enabled: bool,
    pub priority: i64,
}

/// Gmail stops accepting around 500 a day and counts failures toward it;
/// 250 leaves room for whatever else the account sends.
pub const DEFAULT_DAILY_LIMIT: i64 = 250;

impl NewSenderAccount {
    /// An enabled, personal SMTP account for the default user, with the
    /// default daily limit and nothing else filled in.
    pub fn new_default() -> (r: NewSenderAccount)
        ensures
            r.user_id == super::types::DEFAULT_USER_ID,
            r.label@.len() == 0,
            r.scope == AccountScope::Personal,
            r.provider@ == "smtp"@,
            r.from_address@.len() == 0,
            r.api_key@.len() == 0,
            r.daily_limit == DEFAULT_DAILY_LIMIT,
            r.enabled,
            r.priority == 0,
            r.smtp.host@.len() == 0 && r.smtp.port == 0 && r.smtp.username@.len() == 0
                && r.smtp.password@.len() == 0 && !r.smtp.use_tls,
    {
        NewSenderAccount {
            user_id: super::types::DEFAULT_USER_ID,
            label: String::new(),
            scope: AccountScope::Personal,
            provider: "smtp".to_owned(),
            from_address: String::new(),
            smtp: SmtpConfig {
                host: String::new(),
                port: 0,
                username: String::new(),
                password: String::new(),
                use_tls: false,
            },
            api_key: String::new(),
            daily_limit: DEFAULT_DAILY_LIMIT,
            enabled: true,
            priority: 0,
        }
    }
}

impl Default for NewSenderAccount {
    fn default() -> (r: NewSenderAccount)
        ensures
            r.user_id == super::types::DEFAULT_USER_ID,
            r.scope == AccountScope::Personal,
            r.provider@ == "smtp"@,
            r.daily_limit == DEFAULT_DAILY_LIMIT,
            r.enabled,
            r.priority == 0,
    {
        NewSenderAccount::new_default()
    }
}

/// An account and how much of its allowance is left today.
#[derive(Debug, Clone, PartialEq, Eq)]
pub struct AccountCapacity {
    pub account: SenderAccount,
    /// Sent through this account since midnight, local time.
    pub sent_today: i64,
    /// What is left before the run moves on.
    pub remaining: i64,
}

impl AccountCapacity {
    pub fn is_available(&self) -> (r: bool)
        ensures
            r == (self.account.enabled && self.remaining > 0),
    {
        self.account.enabled && self.remaining > 0
    }
}

/// What a day's count leaves of a limit: never below zero.
pub open spec fn left_of(limit: i64, sent: i64) -> i64 {
    if limit - sent > 0 {
        (limit - sent) as i64
    } else {
        0
    }
}

/// The count recorded for `id`, the first row for it winning; zero if none.
pub open spec fn sent_for(sent: Seq<(i64, i64)>, id: i64) -> i64
    decreases sent.len(),
{
    if sent.len() == 0 {
        0
    } else if sent[0].0 == id {
        sent[0].1
    } else {
        sent_for(sent.drop_first(), id)
    }
}

fn sent_for_exec(sent: &Vec<(i64, i64)>, id: i64) -> (r: i64)
    ensures
        r == sent_for(sent@, id),
{
    let mut i: usize = 0;
    assert(sent@.skip(0) == sent@);
    while i < sent.len()
        invariant
            i <= sent@.len(),
            sent_for(sent@, id) == sent_for(sent@.skip(i as int), id),
        decreases sent@.len() - i,
    {
        proof {
            let t = sent@.skip(i as int);
            assert(t[0] == sent@[i as int]);
            assert(t.drop_first() == sent@.skip(i + 1));
        }
        if sent[i].0 == id {
            return sent[i].1;
        }
        i = i + 1;
    }
    0
}

/// Pair every account with what is left of its allowance, given how many
/// each account id has sent today. Counted per account across everyone: a
/// shared mailbox has one allowance however many people send through it.
pub fn capacity_of(accounts: Vec<SenderAccount>, sent_today: &Vec<(i64, i64)>) -> (r: Vec<AccountCapacity>)
    requires
        forall|i: int| 0 <= i < sent_today@.len() ==> sent_today@[i].1 >= 0,
    ensures
        r@.len() == accounts@.len(),
        forall|i: int|
            0 <= i < r@.len() ==> {
                &&& #[trigger] r@[i].account == accounts@[i]
                &&& r@[i].sent_today == sent_for(sent_today@, accounts@[i].id)
                &&& r@[i].remaining == left_of(accounts@[i].daily_limit, r@[i].sent_today)
            },
{
    let mut out: Vec<AccountCapacity> = Vec::new();
    let mut i: usize = 0;
    while i < accounts.len()
        invariant
            i <= accounts@.len(),
            out@.len() == i,
            forall|j: int| 0 <= j < sent_today@.len() ==> sent_today@[j].1 >= 0,
            forall|j: int|
                0 <= j < i ==> {
                    &&& #[trigger] out@[j].account == accounts@[j]
                    &&& out@[j].sent_today == sent_for(sent_today@, accounts@[j].id)
                    &&& out@[j].remaining == left_of(accounts@[j].daily_limit, out@[j].sent_today)
                },
        decreases accounts@.len() - i,
    {
        let account = accounts[i].duplicate();
        let sent = sent_for_exec(sent_today, account.id);
        proof {
            lemma_sent_for_nonneg(sent_today@, account.id);
        }
        let limit = account.daily_limit as i128;
        let left = limit - (sent as i128);
        let remaining: i64 = if left > 0 {
            left as i64
        } else {
            0
        };
        out.push(AccountCapacity { account, sent_today: sent, remaining });
        i = i + 1;
    }
    out
}

proof fn lemma_sent_for_nonneg(sent: Seq<(i64, i64)>, id: i64)
    requires
        forall|j: int| 0 <= j < sent.len() ==> sent[j].1 >= 0,
    ensures
        sent_for(sent, id) >= 0,
    decreases sent.len(),
{
    if sent.len() > 0 && sent[0].0 != id {
        assert forall|j: int| 0 <= j < sent.drop_first().len() implies sent.drop_first()[j].1
            >= 0 by {
            assert(sent.drop_first()[j] == sent[j + 1]);
        }
        lemma_sent_for_nonneg(sent.drop_first(), id);
    }
}

/// What the available accounts could still send, added up.
pub open spec fn total_available(cs: Seq<AccountCapacity>) -> int
    decreases cs.len(),
{
    if cs.len() == 0 {
        0
    } else {
        total_available(cs.drop_last()) + if cs.last().account.enabled && cs.last().remaining > 0 {
            cs.last().remaining as int
        } else {
            0
        }
    }
}

proof fn lemma_total_available_monotone(cs: Seq<AccountCapacity>, i: int)
    requires
        0 <= i <= cs.len(),
    ensures
        0 <= total_available(cs.take(i)) <= total_available(cs),
    decreases cs.len() - i,
{
    if i < cs.len() {
        lemma_total_available_monotone(cs, i + 1);
        assert(cs.take(i + 1).drop_last() == cs.take(i));
        lemma_total_available_nonneg(cs.take(i));
    } else {
        assert(cs.take(i) == cs);
        lemma_total_available_nonneg(cs);
    }
}

proof fn lemma_total_available_nonneg(cs: Seq<AccountCapacity>)
    ensures
        0 <= total_available(cs),
    decreases cs.len(),
{
    if cs.len() > 0 {
        lemma_total_available_nonneg(cs.drop_last());
    }
}

/// What the accounts could still send today counts an account only when it
/// is enabled and has allowance left: nothing for no accounts; adding a
/// disabled or spent account changes nothing; adding an enabled account
/// with allowance left adds exactly that allowance, wherever it stands.
pub proof fn law_only_usable_accounts_count(
    before: Seq<AccountCapacity>,
    c: AccountCapacity,
    after: Seq<AccountCapacity>,
)
    ensures
        total_available(Seq::empty()) == 0,
        !c.account.enabled || c.remaining <= 0 ==> total_available(before + seq![c] + after)
            == total_available(before + after),
        c.account.enabled && c.remaining > 0 ==> total_available(before + seq![c] + after)
            == total_available(before + after) + c.remaining,
    decreases after.len(),
{
    if after.len() == 0 {
        assert((before + seq![c] + after).drop_last() =~= before);
        assert(before + after =~= before);
    } else {
        law_only_usable_accounts_count(before, c, after.drop_last());
        assert((before + seq![c] + after).drop_last() =~= before + seq![c] + after.drop_last());
        assert((before + after).drop_last() =~= before + after.drop_last());
        assert((before + seq![c] + after).last() == after.last());
        assert((before + after).last() == after.last());
    }
}

/// What a user could send right now, across every usable account.
pub fn remaining_today(capacity: &Vec<AccountCapacity>) -> (r: i64)
    requires
        total_available(capacity@) <= i64::MAX,
    ensures
        r == total_available(capacity@),
{
    let mut total: i64 = 0;
    let mut i: usize = 0;
    while i < capacity.len()
        invariant
            i <= capacity@.len(),
            total_available(capacity@) <= i64::MAX,
            total == total_available(capacity@.take(i as int)),
        decreases capacity@.len() - i,
    {
        proof {
            assert(capacity@.take(i + 1).drop_last() == capacity@.take(i as int));
            lemma_total_available_monotone(capacity@, i + 1);
        }
        if capacity[i].is_available() {
            total = total + capacity[i].remaining;
        }
        i = i + 1;
    }
    assert(capacity@.take(capacity@.len() as int) == capacity@);
    total
}

} // verus!
