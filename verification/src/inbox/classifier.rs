//! Deciding what a broker's reply actually says.
//!
//! The pattern tables were built from real broker mail, and every entry is
//! there because some company phrased a refusal in some particular way.

use vstd::prelude::*;

use super::parser::{
    best_form, bounced_recipient, candidate_urls, filed, primary_confirmation, ExtractedUrls,
    ExtractedUrlsView,
};
use super::{email_text, Email};
use crate::patterns::{matching, option_view};
use crate::text::{contains_any, lowercase_of};

verus! {

/// What a reply turned out to be.
///
/// The declaration order is fixed and is what breaks ties between equal
/// scores, so the same email always classifies the same way.
#[derive(Debug, Clone, Copy, PartialEq, Eq, Structural, PartialOrd, Ord, Hash)]
pub enum ResponseType {
    /// The removal happened.
    Success,
    /// Delivery failed; the address is probably dead.
    Bounced,
    /// An opt-out form has to be filled in.
    FormRequired,
    /// A link has to be clicked to confirm.
    ConfirmationRequired,
    /// The broker refused, or says it holds nothing.
    Rejected,
    /// Acknowledged, still being worked on.
    Pending,
    /// Could not tell.
    Unknown,
}

pub open spec fn response_name(t: ResponseType) -> Seq<char> {
    match t {
        ResponseType::Success => "success"@,
        ResponseType::Bounced => "bounced"@,
        ResponseType::FormRequired => "form_required"@,
        ResponseType::ConfirmationRequired => "confirmation_required"@,
        ResponseType::Rejected => "rejected"@,
        ResponseType::Pending => "pending"@,
        ResponseType::Unknown => "unknown"@,
    }
}

pub open spec fn reason_text(t: ResponseType) -> Seq<char> {
    match t {
        ResponseType::Success => "The broker says the removal is done"@,
        ResponseType::Bounced => "The message could not be delivered — the address may be dead"@,
        ResponseType::FormRequired => "There is an opt-out form to fill in"@,
        ResponseType::ConfirmationRequired => "There is a link to click to confirm"@,
        ResponseType::Rejected => "The broker refused, or says it holds nothing about you"@,
        ResponseType::Pending => "Received and being worked on; may need chasing"@,
        ResponseType::Unknown => "Could not tell what this reply says"@,
    }
}

impl ResponseType {
    pub fn as_str(self) -> (r: &'static str)
        ensures
            r@ == response_name(self),
    {
        match self {
            ResponseType::Success => "success",
            ResponseType::Bounced => "bounced",
            ResponseType::FormRequired => "form_required",
            ResponseType::ConfirmationRequired => "confirmation_required",
            ResponseType::Rejected => "rejected",
            ResponseType::Pending => "pending",
            ResponseType::Unknown => "unknown",
        }
    }

    /// Whether this reply needs the user to go and do something.
    pub fn is_actionable(self) -> (r: bool)
        ensures
            r == (self == ResponseType::FormRequired || self == ResponseType::ConfirmationRequired),
    {
        match self {
            ResponseType::FormRequired | ResponseType::ConfirmationRequired => true,
            _ => false,
        }
    }

    /// One line explaining the classification, shown in the UI.
    pub fn reason(self) -> (r: &'static str)
        ensures
            r@ == reason_text(self),
    {
        match self {
            ResponseType::Success => "The broker says the removal is done",
            ResponseType::Bounced => "The message could not be delivered — the address may be dead",
            ResponseType::FormRequired => "There is an opt-out form to fill in",
            ResponseType::ConfirmationRequired => "There is a link to click to confirm",
            ResponseType::Rejected => "The broker refused, or says it holds nothing about you",
            ResponseType::Pending => "Received and being worked on; may need chasing",
            ResponseType::Unknown => "Could not tell what this reply says",
        }
    }
}

/// A confidence between 0 and 1, held exactly as a fraction.
#[derive(Debug, Clone, Copy, PartialEq, Eq)]
pub struct Confidence {
    pub numerator: u32,
    /// Never zero.
    pub denominator: u32,
}

impl Confidence {
    /// `self < other` as numbers.
    pub open spec fn less_than(self, other: Confidence) -> bool {
        (self.numerator as int) * (other.denominator as int) < (other.numerator as int) * (
        self.denominator as int)
    }

    pub open spec fn exactly(n: u32, d: u32) -> Confidence {
        Confidence { numerator: n, denominator: d }
    }

    /// The larger of the two, the first on a tie.
    pub open spec fn max(self, other: Confidence) -> Confidence {
        if self.less_than(other) {
            other
        } else {
            self
        }
    }
}

fn confidence_less(a: Confidence, b: Confidence) -> (r: bool)
    ensures
        r == a.less_than(b),
{
    let x = a.numerator as u64;
    let y = b.denominator as u64;
    let z = b.numerator as u64;
    let w = a.denominator as u64;
    proof {
        lemma_u32_product(x, y);
        lemma_u32_product(z, w);
    }
    x * y < z * w
}

proof fn lemma_u32_product(x: u64, y: u64)
    requires
        x <= u32::MAX,
        y <= u32::MAX,
    ensures
        x * y <= u64::MAX,
{
    assert(x * y <= (u32::MAX as int) * (u32::MAX as int)) by (nonlinear_arith)
        requires
            x <= u32::MAX,
            y <= u32::MAX,
    ;
}

fn confidence_max(a: Confidence, b: Confidence) -> (r: Confidence)
    ensures
        r == a.max(b),
{
    if confidence_less(a, b) {
        b
    } else {
        a
    }
}

/// Below this, a classification is not trusted enough to act on: 0.4.
pub open spec fn review_threshold() -> Confidence {
    Confidence::exactly(4, 10)
}

/// A subject-line match is worth this much more than a body match.
pub const SUBJECT_WEIGHT: usize = 3;

/// The pattern tables.
#[derive(Debug, Clone, Copy, PartialEq, Eq, Structural)]
pub enum PatternSet {
    Success,
    FormRequired,
    Confirmation,
    Rejection,
    Pending,
    SubjectPending,
    SubjectRejection,
    SubjectSuccess,
    SubjectForm,
    Bounce,
    TestEmail,
}

pub open spec fn table(set: PatternSet) -> Seq<&'static str> {
    match set {
        PatternSet::Success => seq![
            r"(?i)request\s+(has\s+been\s+)?(completed|processed|fulfilled)",
            r"(?i)successfully\s+(removed|deleted|opted\s*out)",
            r"(?i)your\s+(data|information)\s+(has\s+been\s+)?(removed|deleted)",
            r"(?i)opt[\s-]?out\s+(request\s+)?(is\s+)?(complete|confirmed)",
            r"(?i)we\s+have\s+(removed|deleted)",
            r"(?i)no\s+longer\s+(have|hold|store)\s+your\s+(data|information)",
        ],
        PatternSet::FormRequired => seq![
            r"(?i)please\s+(complete|fill\s*(out|in)?|submit)\s+(the|our|this)?\s*(form|request)",
            r"(?i)visit\s+(the\s+)?(following\s+)?(link|url|page)\s+to\s+(complete|submit|verify)",
            r"(?i)click\s+(here|below|the\s+link)\s+to\s+(begin|start|submit|complete)",
            r"(?i)(must|need\s+to)\s+(verify|confirm)\s+your\s+(identity|request)",
            r"(?i)submit\s+a\s+(formal\s+)?request\s+(through|via|at)",
            r"(?i)use\s+(our|the)\s+(online|web)\s*(form|portal|tool)",
            r"(?i)please\s+submit\s+(your\s+)?request\s+(at|via|through)\s+",
            r"(?i)please\s+use\s+(our|the)\s+(opt[\s-]?out|removal|privacy)\s*(form|page|link)",
            r"(?i)complete\s+(the|our|a)\s+(data\s+subject|privacy|opt[\s-]?out)\s*(access\s+)?(request\s+)?form",
            r"(?i)submit\s+(a\s+|your\s+)?(request|form)\s+(via|through|at|using)\s+(our\s+)?(online|web|interactive)",
            r"(?i)(does\s+not|do\s+not|cannot)\s+accept\s+privacy\s+requests?\s+(via|by|through)\s+email",
            r"(?i)this\s+email\s+(address\s+)?is\s+not\s+intended\s+for\s+privacy",
            r"(?i)visit\s+(our|the)\s+(opt[\s-]?out|removal|privacy)\s*(page|form|portal)",
            r"(?i)(data\s+subject|privacy)\s+requests?\s+(can|should|must)\s+be\s+(filed|submitted)\s+(at|via)",
            r"(?i)go\s+to\s+(the\s+)?(link|url|page)\s+(below|above)",
            r"(?i)please\s+click\s+(on\s+)?(the\s+)?following\s+link",
            r"(?i)you\s+(can|may)\s+submit\s+.{0,30}(privacy|opt[\s-]?out)",
            r"(?i)right\s+to\s+(opt[\s-]?out|delete|know)[:\s]",
            r"(?i)we\s+(have\s+)?established\s+a\s+dedicated\s+(online\s+)?form",
            r"(?i)we\s+do\s+not\s+process\s+requests?\s+via\s+email",
            r"(?i)please\s+send\s+(your?\s+)?request\s+to\s+customer\s+service",
            r"(?i)is\s+not\s+(a\s+)?mechanism\s+for.{0,30}(privacy|request)",
            r"(?i)please\s+complete\s+your\s+(request|form)",
        ],
        PatternSet::Confirmation => seq![
            r"(?i)click\s+(here|below|the\s+link)\s+to\s+(confirm|verify|validate)",
            r"(?i)please\s+(confirm|verify)\s+(your\s+)?(email|request|identity)",
            r"(?i)verification\s+(link|email|code)",
            r"(?i)confirm\s+your\s+(email\s+)?(address)?",
            r"(?i)click\s+(to\s+)?confirm",
            r"(?i)(can|could)\s+you\s+(please\s+)?verify",
            r"(?i)verify\s+(your\s+)?(last\s+4|ssn|social)",
        ],
        PatternSet::Rejection => seq![
            r"(?i)(cannot|can't|unable\s+to)\s+(process|complete|fulfill)\s+(your\s+)?request",
            r"(?i)request\s+(has\s+been\s+)?(denied|rejected|declined)",
            r"(?i)do\s+not\s+have\s+(any\s+)?(data|information|records)\s+(about|for|on)\s+you",
            r"(?i)not\s+found\s+in\s+our\s+(system|database|records)",
            r"(?i)no\s+(matching\s+)?(records?|data|information)\s+found",
            r"(?i)exempt\s+from\s+(CCPA|GDPR|this\s+request)",
            r"(?i)(do\s+not|don't)\s+have\s+(any\s+)?record",
            r"(?i)(we\s+)?have\s+no\s+(record|data|information)",
            r"(?i)no\s+record\s+of\s+(you|your)",
            r"(?i)no\s+(matching\s+)?record\s+(of\s+)?(a\s+)?report",
            r"(?i)maintains?\s+no\s+(files?|records?|data)",
            r"(?i)no\s+longer\s+(registered|operating)\s+(as\s+)?(an?\s+)?(active\s+)?data\s+broker",
            r"(?i)(this\s+)?(email|inbox)(\s+\w+)?\s+(is\s+)?(no\s+longer|being\s+retired)",
            r"(?i)service\s+offerings?\s+no\s+longer\s+include",
            r"(?i)(we\s+)?(have\s+)?no\s+data\s+(linked|associated|related)\s+to\s+(your|this)",
            r"(?i)not\s+identified\s+in\s+our\s+database",
            r"(?i)(we\s+are|we're)\s+a\s+b2b\s+(platform|company|business)",
            r"(?i)has\s+never\s+existed\s+in\s+our\s+database",
            r"(?i)consumer\s+reporting\s+agenc(y|ies)\s+(is|are)\s+exempt",
            r"(?i)fair\s+credit\s+reporting\s+act.{0,30}exempt",
            r"(?i)we\s+do\s+not\s+(remove|delete)\s+data\s+by\s+request",
            r"(?i)(your\s+)?(email|name|address|information)\s+was\s+not\s+identified",
            r"(?i)(this\s+)?(email|inbox)\s+(address\s+)?(is\s+)?not\s+(a\s+)?(mechanism|intended)\s+(for|to)",
            r"(?i)not\s+intended\s+for\s+(the\s+)?(submission|handling)\s+of\s+privacy",
            r"(?i)will\s+not\s+be\s+considered\s+a\s+valid\s+submission",
        ],
        PatternSet::Pending => seq![
            r"(?i)(is\s+being|currently\s+being)\s+(processed|reviewed|handled)",
            r"(?i)will\s+(process|complete|handle)\s+(your\s+)?request\s+within",
            r"(?i)please\s+allow\s+(\d+)\s+(days|business\s+days|weeks)",
            r"(?i)we('ll|\s+will)\s+(get\s+back|respond|follow\s+up)",
            r"(?i)request\s+(has\s+been\s+)?(received|acknowledged)",
            r"(?i)thank\s+you\s+for\s+(your\s+)?(inquiry|email|contacting|reaching|privacy)",
            r"(?i)we\s+(have\s+)?received\s+your\s+(request|email|inquiry)",
            r"(?i)(has\s+been\s+)?assigned\s+(a\s+)?(ticket|case|reference)\s*(number|#|id)?",
            r"(?i)one\s+of\s+our\s+.{0,30}(will\s+)?(reach\s+out|respond|contact)",
            r"(?i)ticket\s+(has\s+been\s+)?(created|opened|received)",
            r"(?i)your\s+request\s+has\s+been\s+received",
            r"(?i)support\s+request\s*#?\d+",
            r"(?i)legal\s+request\s+received",
            r"(?i)i\s+(have\s+)?(now\s+)?left\s+",
            r"(?i)no\s+longer\s+with\s+(the\s+)?(company|organization)",
            r"(?i)(will\s+be\s+)?(removed|deleted)\s+from\s+our\s+database.{0,20}\d+\s+days",
            r"(?i)once\s+verified.{0,30}(will\s+be\s+)?(processed|complete)",
            r"(?i)this\s+(message\s+)?confirms\s+(our\s+)?receipt",
            r"(?i)we\s+appreciate\s+your\s+interest\s+in\s+exercising",
            r"(?i)request\s+(will\s+be\s+)?(processed|fulfilled)",
            r"(?i)automatic\s+reply",
            r"(?i)auto[\s-]?response",
        ],
        PatternSet::SubjectPending => seq![
            r"(?i)^automatic\s+reply",
            r"(?i)^auto[\s-]?reply",
            r"(?i)^auto[\s-]?response",
            r"(?i)^out\s+of\s+office",
            r"(?i)request\s+received",
            r"(?i)has\s+been\s+received",
            r"(?i)thank\s+you\s+for\s+your\s+(privacy|data|removal|email)",
            r"(?i)thank\s+you\s+for\s+(your\s+)?email\s+to",
            r"(?i)thanks\s+for\s+(reaching|contacting)",
            r"(?i)#[A-Z]{0,3}[-]?\d{5,}",
            r"(?i)request\s*#\s*\d+",
            r"(?i)support\s+request",
            r"(?i)ticket\s*[\(#]\s*:?\s*\d+",
            r"(?i)we\s+have\s+received\s+your\s+ticket",
            r"(?i)i\s+(have\s+)?(now\s+)?left\s+",
            r"(?i)no\s+longer\s+with\s+(the\s+)?(company|organization)",
            r"(?i)office\s+closed",
            r"(?i)response\s+to\s+your\s+email",
        ],
        PatternSet::SubjectRejection => seq![
            r"(?i)not\s+found",
            r"(?i)no\s+record",
            r"(?i)unable\s+to\s+(locate|find|process)",
            r"(?i)request\s+(denied|rejected)",
        ],
        PatternSet::SubjectSuccess => seq![
            r"(?i)opt[\s-]?out\s+(has\s+been\s+)?completed",
            r"(?i)(has\s+been\s+|successfully\s+)?(removed|deleted)",
            r"(?i)ticket.+solved",
            r"(?i)request\s+(has\s+been\s+)?(completed|processed|fulfilled)",
        ],
        PatternSet::SubjectForm => seq![
            r"(?i)opt[\s-]?out\s+instructions",
            r"(?i)removal\s+instructions",
            r"(?i)how\s+to\s+(opt[\s-]?out|remove)",
        ],
        PatternSet::Bounce => seq![
            r"(?i)delivery\s+(to\s+.+\s+)?(has\s+)?failed",
            r"(?i)undeliverable",
            r"(?i)delivery\s+status\s+notification",
            r"(?i)returned\s+mail",
            r"(?i)mail\s+delivery\s+failed",
            r"(?i)message\s+(could\s+)?not\s+(be\s+)?delivered",
            r"(?i)could\s+not\s+be\s+delivered",
            r"(?i)delivery\s+failure",
            r"(?i)permanent\s+(failure|error)",
            r"(?i)address\s+rejected",
            r"(?i)user\s+unknown",
            r"(?i)mailbox\s+not\s+found",
            r"(?i)no\s+such\s+user",
            r"(?i)(mailbox|recipient|address)\s+(does\s+not|doesn't)\s+exist",
            r"(?i)invalid\s+(recipient|address|mailbox)",
            r"(?i)unknown\s+(recipient|user|address)",
            r"(?i)550\s+.*\s+(rejected|unknown|not\s+found)",
            r"(?i)554\s+.*\s+(rejected|failed)",
        ],
        PatternSet::TestEmail => seq![
            r"(?i)eruser\s+test\s+email",
            r"(?i)eraser\s+test\s+email",
            r"(?i)test\s+email\s+from\s+er(us|as)er",
            r"(?i)this\s+is\s+a\s+test\s+email",
            r"(?i)eruser\s+is\s+set\s+up",
        ],    }
}

fn table_list(set: PatternSet) -> (v: Vec<&'static str>)
    ensures
        v@ == table(set),
{
    match set {
        PatternSet::Success => vec![
            r"(?i)request\s+(has\s+been\s+)?(completed|processed|fulfilled)",
            r"(?i)successfully\s+(removed|deleted|opted\s*out)",
            r"(?i)your\s+(data|information)\s+(has\s+been\s+)?(removed|deleted)",
            r"(?i)opt[\s-]?out\s+(request\s+)?(is\s+)?(complete|confirmed)",
            r"(?i)we\s+have\s+(removed|deleted)",
            r"(?i)no\s+longer\s+(have|hold|store)\s+your\s+(data|information)",
        ],
        PatternSet::FormRequired => vec![
            r"(?i)please\s+(complete|fill\s*(out|in)?|submit)\s+(the|our|this)?\s*(form|request)",
            r"(?i)visit\s+(the\s+)?(following\s+)?(link|url|page)\s+to\s+(complete|submit|verify)",
            r"(?i)click\s+(here|below|the\s+link)\s+to\s+(begin|start|submit|complete)",
            r"(?i)(must|need\s+to)\s+(verify|confirm)\s+your\s+(identity|request)",
            r"(?i)submit\s+a\s+(formal\s+)?request\s+(through|via|at)",
            r"(?i)use\s+(our|the)\s+(online|web)\s*(form|portal|tool)",
            r"(?i)please\s+submit\s+(your\s+)?request\s+(at|via|through)\s+",
            r"(?i)please\s+use\s+(our|the)\s+(opt[\s-]?out|removal|privacy)\s*(form|page|link)",
            r"(?i)complete\s+(the|our|a)\s+(data\s+subject|privacy|opt[\s-]?out)\s*(access\s+)?(request\s+)?form",
            r"(?i)submit\s+(a\s+|your\s+)?(request|form)\s+(via|through|at|using)\s+(our\s+)?(online|web|interactive)",
            r"(?i)(does\s+not|do\s+not|cannot)\s+accept\s+privacy\s+requests?\s+(via|by|through)\s+email",
            r"(?i)this\s+email\s+(address\s+)?is\s+not\s+intended\s+for\s+privacy",
            r"(?i)visit\s+(our|the)\s+(opt[\s-]?out|removal|privacy)\s*(page|form|portal)",
            r"(?i)(data\s+subject|privacy)\s+requests?\s+(can|should|must)\s+be\s+(filed|submitted)\s+(at|via)",
            r"(?i)go\s+to\s+(the\s+)?(link|url|page)\s+(below|above)",
            r"(?i)please\s+click\s+(on\s+)?(the\s+)?following\s+link",
            r"(?i)you\s+(can|may)\s+submit\s+.{0,30}(privacy|opt[\s-]?out)",
            r"(?i)right\s+to\s+(opt[\s-]?out|delete|know)[:\s]",
            r"(?i)we\s+(have\s+)?established\s+a\s+dedicated\s+(online\s+)?form",
            r"(?i)we\s+do\s+not\s+process\s+requests?\s+via\s+email",
            r"(?i)please\s+send\s+(your?\s+)?request\s+to\s+customer\s+service",
            r"(?i)is\s+not\s+(a\s+)?mechanism\s+for.{0,30}(privacy|request)",
            r"(?i)please\s+complete\s+your\s+(request|form)",
        ],
        PatternSet::Confirmation => vec![
            r"(?i)click\s+(here|below|the\s+link)\s+to\s+(confirm|verify|validate)",
            r"(?i)please\s+(confirm|verify)\s+(your\s+)?(email|request|identity)",
            r"(?i)verification\s+(link|email|code)",
            r"(?i)confirm\s+your\s+(email\s+)?(address)?",
            r"(?i)click\s+(to\s+)?confirm",
            r"(?i)(can|could)\s+you\s+(please\s+)?verify",
            r"(?i)verify\s+(your\s+)?(last\s+4|ssn|social)",
        ],
        PatternSet::Rejection => vec![
            r"(?i)(cannot|can't|unable\s+to)\s+(process|complete|fulfill)\s+(your\s+)?request",
            r"(?i)request\s+(has\s+been\s+)?(denied|rejected|declined)",
            r"(?i)do\s+not\s+have\s+(any\s+)?(data|information|records)\s+(about|for|on)\s+you",
            r"(?i)not\s+found\s+in\s+our\s+(system|database|records)",
            r"(?i)no\s+(matching\s+)?(records?|data|information)\s+found",
            r"(?i)exempt\s+from\s+(CCPA|GDPR|this\s+request)",
            r"(?i)(do\s+not|don't)\s+have\s+(any\s+)?record",
            r"(?i)(we\s+)?have\s+no\s+(record|data|information)",
            r"(?i)no\s+record\s+of\s+(you|your)",
            r"(?i)no\s+(matching\s+)?record\s+(of\s+)?(a\s+)?report",
            r"(?i)maintains?\s+no\s+(files?|records?|data)",
            r"(?i)no\s+longer\s+(registered|operating)\s+(as\s+)?(an?\s+)?(active\s+)?data\s+broker",
            r"(?i)(this\s+)?(email|inbox)(\s+\w+)?\s+(is\s+)?(no\s+longer|being\s+retired)",
            r"(?i)service\s+offerings?\s+no\s+longer\s+include",
            r"(?i)(we\s+)?(have\s+)?no\s+data\s+(linked|associated|related)\s+to\s+(your|this)",
            r"(?i)not\s+identified\s+in\s+our\s+database",
            r"(?i)(we\s+are|we're)\s+a\s+b2b\s+(platform|company|business)",
            r"(?i)has\s+never\s+existed\s+in\s+our\s+database",
            r"(?i)consumer\s+reporting\s+agenc(y|ies)\s+(is|are)\s+exempt",
            r"(?i)fair\s+credit\s+reporting\s+act.{0,30}exempt",
            r"(?i)we\s+do\s+not\s+(remove|delete)\s+data\s+by\s+request",
            r"(?i)(your\s+)?(email|name|address|information)\s+was\s+not\s+identified",
            r"(?i)(this\s+)?(email|inbox)\s+(address\s+)?(is\s+)?not\s+(a\s+)?(mechanism|intended)\s+(for|to)",
            r"(?i)not\s+intended\s+for\s+(the\s+)?(submission|handling)\s+of\s+privacy",
            r"(?i)will\s+not\s+be\s+considered\s+a\s+valid\s+submission",
        ],
        PatternSet::Pending => vec![
            r"(?i)(is\s+being|currently\s+being)\s+(processed|reviewed|handled)",
            r"(?i)will\s+(process|complete|handle)\s+(your\s+)?request\s+within",
            r"(?i)please\s+allow\s+(\d+)\s+(days|business\s+days|weeks)",
            r"(?i)we('ll|\s+will)\s+(get\s+back|respond|follow\s+up)",
            r"(?i)request\s+(has\s+been\s+)?(received|acknowledged)",
            r"(?i)thank\s+you\s+for\s+(your\s+)?(inquiry|email|contacting|reaching|privacy)",
            r"(?i)we\s+(have\s+)?received\s+your\s+(request|email|inquiry)",
            r"(?i)(has\s+been\s+)?assigned\s+(a\s+)?(ticket|case|reference)\s*(number|#|id)?",
            r"(?i)one\s+of\s+our\s+.{0,30}(will\s+)?(reach\s+out|respond|contact)",
            r"(?i)ticket\s+(has\s+been\s+)?(created|opened|received)",
            r"(?i)your\s+request\s+has\s+been\s+received",
            r"(?i)support\s+request\s*#?\d+",
            r"(?i)legal\s+request\s+received",
            r"(?i)i\s+(have\s+)?(now\s+)?left\s+",
            r"(?i)no\s+longer\s+with\s+(the\s+)?(company|organization)",
            r"(?i)(will\s+be\s+)?(removed|deleted)\s+from\s+our\s+database.{0,20}\d+\s+days",
            r"(?i)once\s+verified.{0,30}(will\s+be\s+)?(processed|complete)",
            r"(?i)this\s+(message\s+)?confirms\s+(our\s+)?receipt",
            r"(?i)we\s+appreciate\s+your\s+interest\s+in\s+exercising",
            r"(?i)request\s+(will\s+be\s+)?(processed|fulfilled)",
            r"(?i)automatic\s+reply",
            r"(?i)auto[\s-]?response",
        ],
        PatternSet::SubjectPending => vec![
            r"(?i)^automatic\s+reply",
            r"(?i)^auto[\s-]?reply",
            r"(?i)^auto[\s-]?response",
            r"(?i)^out\s+of\s+office",
            r"(?i)request\s+received",
            r"(?i)has\s+been\s+received",
            r"(?i)thank\s+you\s+for\s+your\s+(privacy|data|removal|email)",
            r"(?i)thank\s+you\s+for\s+(your\s+)?email\s+to",
            r"(?i)thanks\s+for\s+(reaching|contacting)",
            r"(?i)#[A-Z]{0,3}[-]?\d{5,}",
            r"(?i)request\s*#\s*\d+",
            r"(?i)support\s+request",
            r"(?i)ticket\s*[\(#]\s*:?\s*\d+",
            r"(?i)we\s+have\s+received\s+your\s+ticket",
            r"(?i)i\s+(have\s+)?(now\s+)?left\s+",
            r"(?i)no\s+longer\s+with\s+(the\s+)?(company|organization)",
            r"(?i)office\s+closed",
            r"(?i)response\s+to\s+your\s+email",
        ],
        PatternSet::SubjectRejection => vec![
            r"(?i)not\s+found",
            r"(?i)no\s+record",
            r"(?i)unable\s+to\s+(locate|find|process)",
            r"(?i)request\s+(denied|rejected)",
        ],
        PatternSet::SubjectSuccess => vec![
            r"(?i)opt[\s-]?out\s+(has\s+been\s+)?completed",
            r"(?i)(has\s+been\s+|successfully\s+)?(removed|deleted)",
            r"(?i)ticket.+solved",
            r"(?i)request\s+(has\s+been\s+)?(completed|processed|fulfilled)",
        ],
        PatternSet::SubjectForm => vec![
            r"(?i)opt[\s-]?out\s+instructions",
            r"(?i)removal\s+instructions",
            r"(?i)how\s+to\s+(opt[\s-]?out|remove)",
        ],
        PatternSet::Bounce => vec![
            r"(?i)delivery\s+(to\s+.+\s+)?(has\s+)?failed",
            r"(?i)undeliverable",
            r"(?i)delivery\s+status\s+notification",
            r"(?i)returned\s+mail",
            r"(?i)mail\s+delivery\s+failed",
            r"(?i)message\s+(could\s+)?not\s+(be\s+)?delivered",
            r"(?i)could\s+not\s+be\s+delivered",
            r"(?i)delivery\s+failure",
            r"(?i)permanent\s+(failure|error)",
            r"(?i)address\s+rejected",
            r"(?i)user\s+unknown",
            r"(?i)mailbox\s+not\s+found",
            r"(?i)no\s+such\s+user",
            r"(?i)(mailbox|recipient|address)\s+(does\s+not|doesn't)\s+exist",
            r"(?i)invalid\s+(recipient|address|mailbox)",
            r"(?i)unknown\s+(recipient|user|address)",
            r"(?i)550\s+.*\s+(rejected|unknown|not\s+found)",
            r"(?i)554\s+.*\s+(rejected|failed)",
        ],
        PatternSet::TestEmail => vec![
            r"(?i)eruser\s+test\s+email",
            r"(?i)eraser\s+test\s+email",
            r"(?i)test\s+email\s+from\s+er(us|as)er",
            r"(?i)this\s+is\s+a\s+test\s+email",
            r"(?i)eruser\s+is\s+set\s+up",
        ],    }
}

/// How many patterns of `set` match `text`.
pub open spec fn hits(set: PatternSet, text: Seq<char>) -> int {
    matching(table(set), text) as int
}

proof fn lemma_table_sizes(set: PatternSet)
    ensures
        table(set).len() <= 25,
{
}

proof fn lemma_hits_bound(set: PatternSet, text: Seq<char>)
    ensures
        0 <= hits(set, text) <= 25,
{
    crate::patterns::lemma_matching_bound(table(set), text);
    lemma_table_sizes(set);
}

fn hits_exec(set: PatternSet, text: &str) -> (n: usize)
    ensures
        n == hits(set, text@),
        n <= 25,
{
    let patterns = table_list(set);
    proof {
        lemma_hits_bound(set, text@);
    }
    crate::patterns::count_matching(&patterns, text)
}

/// The categories that compete for a score, in tie-breaking order.
pub open spec fn scored_kind(i: int) -> ResponseType {
    if i == 0 {
        ResponseType::Success
    } else if i == 1 {
        ResponseType::FormRequired
    } else if i == 2 {
        ResponseType::ConfirmationRequired
    } else if i == 3 {
        ResponseType::Rejected
    } else {
        ResponseType::Pending
    }
}

/// Every category scored from the subject, the body, and the links. A
/// subject line is a much stronger signal than a phrase buried in a footer,
/// so the subject patterns are weighted.
pub open spec fn scores(subject: Seq<char>, content: Seq<char>, urls: ExtractedUrlsView) -> Seq<int> {
    let w = SUBJECT_WEIGHT as int;
    seq![
        hits(PatternSet::Success, content) + hits(PatternSet::Success, subject) + w * hits(
            PatternSet::SubjectSuccess,
            subject,
        ),
        hits(PatternSet::FormRequired, content) + w * hits(PatternSet::SubjectForm, subject) + (
        if urls.form_urls.len() > 0 {
            2int
        } else {
            0int
        }),
        hits(PatternSet::Confirmation, content) + (if urls.confirmation_urls.len() > 0 {
            2int
        } else {
            0int
        }),
        hits(PatternSet::Rejection, content) + hits(PatternSet::Rejection, subject) + w * hits(
            PatternSet::SubjectRejection,
            subject,
        ),
        hits(PatternSet::Pending, content) + w * hits(PatternSet::SubjectPending, subject),
    ]
}

/// The scores a subject line alone earns.
pub open spec fn subject_scores(subject: Seq<char>) -> Seq<int> {
    let w = SUBJECT_WEIGHT as int;
    seq![
        w * hits(PatternSet::SubjectSuccess, subject) + hits(PatternSet::Success, subject),
        w * hits(PatternSet::SubjectForm, subject),
        0int,
        w * hits(PatternSet::SubjectRejection, subject) + hits(PatternSet::Rejection, subject),
        w * hits(PatternSet::SubjectPending, subject) + hits(PatternSet::Pending, subject),
    ]
}

/// Index of the highest of the first `n` scores; the earliest on a tie.
pub open spec fn best_index(s: Seq<int>, n: int) -> int
    decreases n,
{
    if n <= 1 {
        0
    } else {
        let b = best_index(s, n - 1);
        if s[n - 1] > s[b] {
            n - 1
        } else {
            b
        }
    }
}

/// The highest of the first `n` scores other than the one at `w`.
pub open spec fn best_other(s: Seq<int>, w: int, n: int) -> int
    decreases n,
{
    if n <= 0 {
        0
    } else {
        let m = best_other(s, w, n - 1);
        if n - 1 != w && s[n - 1] > m {
            s[n - 1]
        } else {
            m
        }
    }
}

/// The winning category, its score, and the runner-up's. Nothing scoring at
/// all is `Unknown` with zeros.
pub open spec fn picked(s: Seq<int>) -> (ResponseType, int, int) {
    let w = best_index(s, 5);
    if s[w] == 0 {
        (ResponseType::Unknown, 0, 0)
    } else {
        (scored_kind(w), s[w], best_other(s, w, 5))
    }
}

/// How sure a classification is, from how far ahead the winner was:
/// 0.5 + 0.4 * (top - runner_up) / top, which is (9 top - 4 runner_up) /
/// (10 top); 0.85 when nothing else scored; 0 when nothing did.
pub open spec fn confidence_for(top: int, runner_up: int) -> Confidence {
    if top == 0 {
        Confidence::exactly(0, 1)
    } else if runner_up == 0 {
        Confidence::exactly(85, 100)
    } else {
        Confidence::exactly((9 * top - 4 * runner_up) as u32, (10 * top) as u32)
    }
}

/// Senders that only ever mean a delivery failure.
pub open spec fn bounce_senders() -> Seq<&'static str> {
    seq![
        "mailer-daemon", "postmaster", "mail delivery system", "mail delivery subsystem",
        "mailerdaemon", "noreply", "no-reply", "mailsystem",
    ]
}

fn bounce_sender_list() -> (v: Vec<&'static str>)
    ensures
        v@ == bounce_senders(),
{
    vec![
        "mailer-daemon", "postmaster", "mail delivery system", "mail delivery subsystem",
        "mailerdaemon", "noreply", "no-reply", "mailsystem",
    ]
}

/// A delivery failure rather than a reply: bounce wording from a mail
/// system, or enough of it — a subject match counting double — from anyone.
pub open spec fn is_bounce(e: Email, subject: Seq<char>, content: Seq<char>) -> bool {
    let from = lowercase_of(e.from@);
    let from_name = lowercase_of(e.from_name@);
    let from_mail_system = contains_any(from, bounce_senders()) || contains_any(
        from_name,
        bounce_senders(),
    );
    let score = hits(PatternSet::Bounce, subject) * 2 + hits(PatternSet::Bounce, content);
    (from_mail_system && score > 0) || score >= 3
}

/// A reply, and what was made of it.
#[derive(Debug, Clone, PartialEq, Eq)]
pub struct ClassifiedResponse {
    pub response_type: ResponseType,
    pub urls: ExtractedUrls,
    /// The form to fill in, when there is one.
    pub form_url: Option<String>,
    /// The link to click, when there is one.
    pub confirm_url: Option<String>,
    /// The address that bounced, when this is a bounce.
    pub bounced_recipient: Option<String>,
    /// Between 0 and 1.
    pub confidence: Confidence,
    pub reason: &'static str,
    /// Whether a person should look at this one.
    pub needs_review: bool,
}

#[verifier::ext_equal]
pub struct ClassifiedView {
    pub response_type: ResponseType,
    pub urls: ExtractedUrlsView,
    pub form_url: Option<Seq<char>>,
    pub confirm_url: Option<Seq<char>>,
    pub bounced_recipient: Option<Seq<char>>,
    pub confidence: Confidence,
    pub reason: Seq<char>,
    pub needs_review: bool,
}

impl View for ClassifiedResponse {
    type V = ClassifiedView;

    open spec fn view(&self) -> ClassifiedView {
        ClassifiedView {
            response_type: self.response_type,
            urls: self.urls@,
            form_url: option_view(self.form_url),
            confirm_url: option_view(self.confirm_url),
            bounced_recipient: option_view(self.bounced_recipient),
            confidence: self.confidence,
            reason: self.reason@,
            needs_review: self.needs_review,
        }
    }
}

pub open spec fn test_message_reason() -> Seq<char> {
    "The test message from eruser — sending works"@
}

/// A classification from the scores: the winner, with its confidence raised
/// when the subject or a link backs it, and a fall-back on whatever links
/// the message carries when nothing scored at all.
pub open spec fn scored_result(e: Email, urls: ExtractedUrlsView, s: Seq<int>) -> ClassifiedView {
    let (kind, top, runner_up) = picked(s);
    let c0 = confidence_for(top, runner_up);
    let c1 = if top >= SUBJECT_WEIGHT as int {
        c0.max(Confidence::exactly(75, 100))
    } else {
        c0
    };
    let c2 = if kind == ResponseType::FormRequired && urls.form_urls.len() > 0 {
        c1.max(Confidence::exactly(85, 100))
    } else {
        c1
    };
    let c3 = if kind == ResponseType::ConfirmationRequired && urls.confirmation_urls.len() > 0 {
        c2.max(Confidence::exactly(85, 100))
    } else {
        c2
    };
    let (final_kind, confidence) = if top == 0 && urls.confirmation_urls.len() > 0 {
        (ResponseType::ConfirmationRequired, Confidence::exactly(1, 2))
    } else if top == 0 && urls.form_urls.len() > 0 {
        (ResponseType::FormRequired, Confidence::exactly(1, 2))
    } else {
        (kind, c3)
    };
    ClassifiedView {
        response_type: final_kind,
        urls: urls,
        form_url: match best_form(urls.form_urls, e.from_domain@) {
            Some((_, u)) => Some(u),
            None => None,
        },
        confirm_url: primary_confirmation(urls.confirmation_urls, e.from_domain@),
        bounced_recipient: None,
        confidence: confidence,
        reason: reason_text(final_kind),
        needs_review: final_kind == ResponseType::Unknown || confidence.less_than(
            review_threshold(),
        ),
    }
}

/// What a broker's reply says. A message eruser sent itself is a success
/// outright; a delivery failure is checked before any scoring, since a
/// bounce quotes the original request back; otherwise the scores decide.
pub open spec fn classified(e: Email) -> ClassifiedView {
    let urls = filed(candidate_urls(e));
    let content = lowercase_of(email_text(e));
    let subject = lowercase_of(e.subject@);
    if hits(PatternSet::TestEmail, subject) > 0 || hits(PatternSet::TestEmail, content) > 0 {
        ClassifiedView {
            response_type: ResponseType::Success,
            urls: urls,
            form_url: None,
            confirm_url: None,
            bounced_recipient: None,
            confidence: Confidence::exactly(1, 1),
            reason: test_message_reason(),
            needs_review: false,
        }
    } else if is_bounce(e, subject, content) {
        ClassifiedView {
            response_type: ResponseType::Bounced,
            urls: urls,
            form_url: None,
            confirm_url: None,
            bounced_recipient: bounced_recipient(e),
            confidence: Confidence::exactly(95, 100),
            reason: reason_text(ResponseType::Bounced),
            needs_review: false,
        }
    } else {
        scored_result(e, urls, scores(subject, content, urls))
    }
}

/// A subject is a fraction of the evidence: a classification from the
/// subject alone never claims more than seven in ten, and any that claims
/// less is flagged for a person.
pub proof fn law_subject_only_confidence_is_capped(subject: Seq<char>)
    ensures
        !Confidence::exactly(7, 10).less_than(classified_by_subject(subject).1),
        classified_by_subject(subject).2 <==> classified_by_subject(subject).1
            != Confidence::exactly(7, 10),
{
}

/// Every reason line says something.
proof fn lemma_reasons_are_written(t: ResponseType)
    ensures
        reason_text(t).len() > 0,
{
    reveal_strlit("The broker says the removal is done");
    reveal_strlit("The message could not be delivered — the address may be dead");
    reveal_strlit("There is an opt-out form to fill in");
    reveal_strlit("There is a link to click to confirm");
    reveal_strlit("The broker refused, or says it holds nothing about you");
    reveal_strlit("Received and being worked on; may need chasing");
    reveal_strlit("Could not tell what this reply says");
}

/// Every classification carries a reason a person can read.
pub proof fn law_every_classification_carries_a_reason(e: Email)
    ensures
        classified(e).reason.len() > 0,
{
    reveal_strlit("The test message from eruser — sending works");
    lemma_reasons_are_written(classified(e).response_type);
    lemma_reasons_are_written(ResponseType::Bounced);
    let urls = filed(candidate_urls(e));
    let content = lowercase_of(email_text(e));
    let subject = lowercase_of(e.subject@);
    let (kind, top, runner_up) = picked(scores(subject, content, urls));
    lemma_reasons_are_written(kind);
    lemma_reasons_are_written(ResponseType::Unknown);
    lemma_reasons_are_written(ResponseType::FormRequired);
    lemma_reasons_are_written(ResponseType::ConfirmationRequired);
}

/// A confidence that is a number between 0 and 1.
pub open spec fn in_unit_range(c: Confidence) -> bool {
    c.denominator > 0 && c.numerator <= c.denominator
}

/// The scores of a message never exceed what the pattern tables allow.
proof fn lemma_scores_bounded(subject: Seq<char>, content: Seq<char>, urls: ExtractedUrlsView)
    ensures
        scores(subject, content, urls).len() == 5,
        forall|i: int| 0 <= i < 5 ==> 0 <= #[trigger] scores(subject, content, urls)[i] <= 200,
{
    lemma_hits_bound(PatternSet::Success, content);
    lemma_hits_bound(PatternSet::Success, subject);
    lemma_hits_bound(PatternSet::SubjectSuccess, subject);
    lemma_hits_bound(PatternSet::FormRequired, content);
    lemma_hits_bound(PatternSet::SubjectForm, subject);
    lemma_hits_bound(PatternSet::Confirmation, content);
    lemma_hits_bound(PatternSet::Rejection, content);
    lemma_hits_bound(PatternSet::Rejection, subject);
    lemma_hits_bound(PatternSet::SubjectRejection, subject);
    lemma_hits_bound(PatternSet::Pending, content);
    lemma_hits_bound(PatternSet::SubjectPending, subject);
}

/// What the scores make of a message is always a confidence between 0 and
/// 1, and the runner-up never beats the winner.
proof fn lemma_scored_confidence(s: Seq<int>)
    requires
        s.len() == 5,
        forall|i: int| 0 <= i < 5 ==> 0 <= #[trigger] s[i] <= 200,
    ensures
        0 <= picked(s).2 <= picked(s).1 <= 200,
        in_unit_range(confidence_for(picked(s).1, picked(s).2)),
{
    lemma_best_index_range(s, 5);
    lemma_best_index_is_max(s, 5);
    let w = best_index(s, 5);
    lemma_best_other_bound(s, w, 5);
}

/// What a classification says hangs together, for every message: its
/// confidence lies between 0 and 1; a person is asked to look exactly when
/// the kind is unknown or the confidence is under 0.4; the reason is
/// written; the form and confirmation links it picks are among the ones it
/// found; and the links it found are those of `parse_email_urls`.
pub proof fn law_classification_hangs_together(e: Email)
    ensures
        in_unit_range(classified(e).confidence),
        classified(e).needs_review == (classified(e).response_type == ResponseType::Unknown
            || classified(e).confidence.less_than(review_threshold())),
        classified(e).reason.len() > 0,
        classified(e).urls == filed(candidate_urls(e)),
        classified(e).form_url matches Some(u) ==> classified(e).urls.form_urls.contains(u),
        classified(e).confirm_url matches Some(u) ==> classified(
            e,
        ).urls.confirmation_urls.contains(u),
{
    law_every_classification_carries_a_reason(e);
    let urls = filed(candidate_urls(e));
    let content = lowercase_of(email_text(e));
    let subject = lowercase_of(e.subject@);
    let s = scores(subject, content, urls);
    lemma_scores_bounded(subject, content, urls);
    lemma_scored_confidence(s);
    super::parser::law_the_best_form_link_is_chosen(urls.form_urls, e.from_domain@);
    super::parser::law_the_confirmation_link_prefers_the_broker(
        urls.confirmation_urls,
        e.from_domain@,
    );
    assert(1int * 10int == 10 && 4int * 1int == 4 && 95int * 10int == 950 && 4int * 100int == 400)
        by (nonlinear_arith);
}

/// Two messages that read the same are classified the same: what is made
/// of a message depends on the text of its fields alone.
pub proof fn lemma_same_text_same_classification(a: Email, b: Email)
    requires
        a.from@ == b.from@,
        a.from_name@ == b.from_name@,
        a.from_domain@ == b.from_domain@,
        a.subject@ == b.subject@,
        a.body@ == b.body@,
        a.html_body@ == b.html_body@,
    ensures
        classified(a) == classified(b),
{
    assert(candidate_urls(a) == candidate_urls(b));
    assert(email_text(a) == email_text(b));
    assert(super::parser::bounce_content(a) == super::parser::bounce_content(b));
    assert(bounced_recipient(a) == bounced_recipient(b));
    let urls = filed(candidate_urls(a));
    let content = lowercase_of(email_text(a));
    let subject = lowercase_of(a.subject@);
    assert(is_bounce(a, subject, content) == is_bounce(b, subject, content));
    let sc = scores(subject, content, urls);
    assert(scored_result(a, urls, sc) == scored_result(b, urls, sc));
}

/// A reply from a mail system (its address or display name names one, such
/// as a mailer-daemon or postmaster) that carries any bounce wording at all,
/// in its subject or its text, is a bounce, unless it is eruser's own test
/// message; and from anyone, bounce wording that adds up to three (a subject
/// match counting double) is a bounce too. Nothing else is: the scores never
/// make a bounce.
pub proof fn law_mail_system_bounces_are_bounces(e: Email)
    ensures
        ({
            let subject = lowercase_of(e.subject@);
            let content = lowercase_of(email_text(e));
            let from_mail_system = contains_any(lowercase_of(e.from@), bounce_senders())
                || contains_any(lowercase_of(e.from_name@), bounce_senders());
            let wording = hits(PatternSet::Bounce, subject) + hits(PatternSet::Bounce, content);
            let weighted = 2 * hits(PatternSet::Bounce, subject) + hits(PatternSet::Bounce, content);
            let test_message = hits(PatternSet::TestEmail, subject) > 0 || hits(
                PatternSet::TestEmail,
                content,
            ) > 0;
            (classified(e).response_type == ResponseType::Bounced) == (!test_message && ((
            from_mail_system && wording > 0) || weighted >= 3))
        }),
{
    let urls = filed(candidate_urls(e));
    let content = lowercase_of(email_text(e));
    let subject = lowercase_of(e.subject@);
    let s = scores(subject, content, urls);
    lemma_scores_bounded(subject, content, urls);
    lemma_best_index_range(s, 5);
}

/// A classification from a subject line alone, with its confidence capped
/// lower because a subject is a fraction of the evidence.
pub open spec fn classified_by_subject(subject: Seq<char>) -> (ResponseType, Confidence, bool) {
    let (kind, top, _) = picked(subject_scores(lowercase_of(subject)));
    if top == 0 {
        (ResponseType::Unknown, Confidence::exactly(0, 1), true)
    } else if top >= SUBJECT_WEIGHT as int {
        (kind, Confidence::exactly(7, 10), false)
    } else {
        (kind, Confidence::exactly(4, 10), true)
    }
}

// ---------------------------------------------------------------------
// The computation
// ---------------------------------------------------------------------

pub open spec fn ints(v: Seq<usize>) -> Seq<int> {
    v.map_values(|x: usize| x as int)
}

fn scores_exec(subject: &str, content: &str, urls: &ExtractedUrls) -> (r: Vec<usize>)
    ensures
        ints(r@) == scores(subject@, content@, urls@),
        r@.len() == 5,
        forall|i: int| 0 <= i < r@.len() ==> r@[i] <= 200,
{
    let form_links: usize = if urls.form_urls.len() > 0 {
        2
    } else {
        0
    };
    let confirm_links: usize = if urls.confirmation_urls.len() > 0 {
        2
    } else {
        0
    };
    let success = hits_exec(PatternSet::Success, content) + hits_exec(PatternSet::Success, subject)
        + SUBJECT_WEIGHT * hits_exec(PatternSet::SubjectSuccess, subject);
    let form = hits_exec(PatternSet::FormRequired, content) + SUBJECT_WEIGHT * hits_exec(
        PatternSet::SubjectForm,
        subject,
    ) + form_links;
    let confirmation = hits_exec(PatternSet::Confirmation, content) + confirm_links;
    let rejected = hits_exec(PatternSet::Rejection, content) + hits_exec(
        PatternSet::Rejection,
        subject,
    ) + SUBJECT_WEIGHT * hits_exec(PatternSet::SubjectRejection, subject);
    let pending = hits_exec(PatternSet::Pending, content) + SUBJECT_WEIGHT * hits_exec(
        PatternSet::SubjectPending,
        subject,
    );
    let r = vec![success, form, confirmation, rejected, pending];
    assert(ints(r@) =~= scores(subject@, content@, urls@));
    r
}

fn subject_scores_exec(subject: &str) -> (r: Vec<usize>)
    ensures
        ints(r@) == subject_scores(subject@),
        r@.len() == 5,
        forall|i: int| 0 <= i < r@.len() ==> r@[i] <= 200,
{
    let success = SUBJECT_WEIGHT * hits_exec(PatternSet::SubjectSuccess, subject) + hits_exec(
        PatternSet::Success,
        subject,
    );
    let form = SUBJECT_WEIGHT * hits_exec(PatternSet::SubjectForm, subject);
    let rejected = SUBJECT_WEIGHT * hits_exec(PatternSet::SubjectRejection, subject) + hits_exec(
        PatternSet::Rejection,
        subject,
    );
    let pending = SUBJECT_WEIGHT * hits_exec(PatternSet::SubjectPending, subject) + hits_exec(
        PatternSet::Pending,
        subject,
    );
    let r = vec![success, form, 0, rejected, pending];
    assert(ints(r@) =~= subject_scores(subject@));
    r
}

proof fn lemma_best_index_range(s: Seq<int>, n: int)
    requires
        n >= 1,
    ensures
        0 <= best_index(s, n) < n,
    decreases n,
{
    if n > 1 {
        lemma_best_index_range(s, n - 1);
    }
}

/// The winning category, its score, and the runner-up's.
fn pick(s: &Vec<usize>) -> (r: (ResponseType, usize, usize))
    requires
        s@.len() == 5,
    ensures
        (r.0, r.1 as int, r.2 as int) == picked(ints(s@)),
{
    let ghost si = ints(s@);
    let mut w: usize = 0;
    let mut i: usize = 1;
    while i < 5
        invariant
            1 <= i <= 5,
            s@.len() == 5,
            si == ints(s@),
            w as int == best_index(si, i as int),
            w < i,
        decreases 5 - i,
    {
        if s[i] > s[w] {
            w = i;
        }
        i = i + 1;
    }
    let top = s[w];
    if top == 0 {
        return (ResponseType::Unknown, 0, 0);
    }
    let mut runner: usize = 0;
    let mut j: usize = 0;
    while j < 5
        invariant
            j <= 5,
            s@.len() == 5,
            si == ints(s@),
            w < 5,
            runner as int == best_other(si, w as int, j as int),
        decreases 5 - j,
    {
        if j != w && s[j] > runner {
            runner = s[j];
        }
        j = j + 1;
    }
    let kind = if w == 0 {
        ResponseType::Success
    } else if w == 1 {
        ResponseType::FormRequired
    } else if w == 2 {
        ResponseType::ConfirmationRequired
    } else if w == 3 {
        ResponseType::Rejected
    } else {
        ResponseType::Pending
    };
    (kind, top, runner)
}

proof fn lemma_best_other_bound(s: Seq<int>, w: int, n: int)
    requires
        0 <= n <= s.len(),
        forall|i: int| 0 <= i < n && i != w ==> s[i] <= s[w],
        s[w] >= 0,
    ensures
        0 <= best_other(s, w, n) <= s[w],
    decreases n,
{
    if n > 0 {
        lemma_best_other_bound(s, w, n - 1);
    }
}

proof fn lemma_best_index_is_max(s: Seq<int>, n: int)
    requires
        1 <= n <= s.len(),
    ensures
        forall|i: int| 0 <= i < n ==> #[trigger] s[i] <= s[best_index(s, n)],
    decreases n,
{
    if n > 1 {
        lemma_best_index_is_max(s, n - 1);
    }
}

fn confidence_for_exec(top: usize, runner_up: usize) -> (c: Confidence)
    requires
        runner_up <= top <= 200,
    ensures
        c == confidence_for(top as int, runner_up as int),
{
    if top == 0 {
        Confidence { numerator: 0, denominator: 1 }
    } else if runner_up == 0 {
        Confidence { numerator: 85, denominator: 100 }
    } else {
        Confidence { numerator: (9 * top - 4 * runner_up) as u32, denominator: (10 * top) as u32 }
    }
}

fn is_bounce_exec(email: &Email, subject: &str, content: &str) -> (r: bool)
    ensures
        r == is_bounce(*email, subject@, content@),
{
    let senders = bounce_sender_list();
    let from = crate::text::lowercase(email.from.as_str());
    let from_name = crate::text::lowercase(email.from_name.as_str());
    let from_chars = crate::text::chars_of(from.as_str());
    let name_chars = crate::text::chars_of(from_name.as_str());
    let from_mail_system = crate::text::contains_any_of(&from_chars, &senders)
        || crate::text::contains_any_of(&name_chars, &senders);
    let score = hits_exec(PatternSet::Bounce, subject) * 2 + hits_exec(PatternSet::Bounce, content);
    (from_mail_system && score > 0) || score >= 3
}

/// Read a broker's reply.
pub fn classify(email: &Email) -> (r: ClassifiedResponse)
    ensures
        r@ == classified(*email),
{
    let urls = super::parser::parse_email_urls(email);
    let text = email.text();
    let content = crate::text::lowercase(text.as_str());
    let subject = crate::text::lowercase(email.subject.as_str());

    // A message eruser sent itself proves the mail settings work and is not
    // a broker reply at all.
    if hits_exec(PatternSet::TestEmail, subject.as_str()) > 0 || hits_exec(
        PatternSet::TestEmail,
        content.as_str(),
    ) > 0 {
        let r = ClassifiedResponse {
            response_type: ResponseType::Success,
            urls,
            form_url: None,
            confirm_url: None,
            bounced_recipient: None,
            confidence: Confidence { numerator: 1, denominator: 1 },
            reason: "The test message from eruser — sending works",
            needs_review: false,
        };
        assert(r@ =~= classified(*email));
        return r;
    }

    // Bounces are checked before anything else: a delivery failure often
    // quotes the original request back, which otherwise scores as whatever
    // the request said.
    if is_bounce_exec(email, subject.as_str(), content.as_str()) {
        let r = ClassifiedResponse {
            response_type: ResponseType::Bounced,
            bounced_recipient: super::parser::extract_bounced_recipient(email),
            urls,
            form_url: None,
            confirm_url: None,
            confidence: Confidence { numerator: 95, denominator: 100 },
            reason: ResponseType::Bounced.reason(),
            needs_review: false,
        };
        assert(r@ =~= classified(*email));
        return r;
    }

    let s = scores_exec(subject.as_str(), content.as_str(), &urls);
    let r = scored(email, urls, &s);
    r
}

fn scored(email: &Email, urls: ExtractedUrls, s: &Vec<usize>) -> (r: ClassifiedResponse)
    requires
        s@.len() == 5,
        forall|i: int| 0 <= i < s@.len() ==> s@[i] <= 200,
    ensures
        r@ == scored_result(*email, urls@, ints(s@)),
{
    let (kind, top, runner_up) = pick(s);
    proof {
        let si = ints(s@);
        lemma_best_index_range(si, 5);
        lemma_best_index_is_max(si, 5);
        let w = best_index(si, 5);
        if si[w] != 0 {
            lemma_best_other_bound(si, w, 5);
        }
    }
    let mut confidence = confidence_for_exec(top, runner_up);
    if top >= SUBJECT_WEIGHT {
        confidence = confidence_max(confidence, Confidence { numerator: 75, denominator: 100 });
    }
    if kind == ResponseType::FormRequired && urls.form_urls.len() > 0 {
        confidence = confidence_max(confidence, Confidence { numerator: 85, denominator: 100 });
    }
    if kind == ResponseType::ConfirmationRequired && urls.confirmation_urls.len() > 0 {
        confidence = confidence_max(confidence, Confidence { numerator: 85, denominator: 100 });
    }
    let mut response_type = kind;
    // Nothing matched: fall back to whatever links are in the message.
    if top == 0 {
        if urls.confirmation_urls.len() > 0 {
            response_type = ResponseType::ConfirmationRequired;
            confidence = Confidence { numerator: 1, denominator: 2 };
        } else if urls.form_urls.len() > 0 {
            response_type = ResponseType::FormRequired;
            confidence = Confidence { numerator: 1, denominator: 2 };
        }
    }
    let form_url = super::parser::primary_form_url(&urls, email.from_domain.as_str());
    let confirm_url = super::parser::primary_confirmation_url(&urls, email.from_domain.as_str());
    let needs_review = response_type == ResponseType::Unknown || confidence_less(
        confidence,
        Confidence { numerator: 4, denominator: 10 },
    );
    let r = ClassifiedResponse {
        response_type,
        form_url,
        confirm_url,
        urls,
        bounced_recipient: None,
        confidence,
        reason: response_type.reason(),
        needs_review,
    };
    assert(r@ =~= scored_result(*email, r@.urls, ints(s@)));
    r
}

/// Classify from a subject line alone.
///
/// Used when reclassifying stored replies whose bodies were not kept.
/// Confidence is capped lower, because a subject is a fraction of the
/// evidence.
pub fn classify_by_subject(subject: &str) -> (r: (ResponseType, Confidence, bool))
    ensures
        r == classified_by_subject(subject@),
{
    let lower = crate::text::lowercase(subject);
    let s = subject_scores_exec(lower.as_str());
    let (kind, top, _) = pick(&s);
    if top == 0 {
        (ResponseType::Unknown, Confidence { numerator: 0, denominator: 1 }, true)
    } else if top >= SUBJECT_WEIGHT {
        (kind, Confidence { numerator: 7, denominator: 10 }, false)
    } else {
        (kind, Confidence { numerator: 4, denominator: 10 }, true)
    }
}

// ---------------------------------------------------------------------
// Summaries
// ---------------------------------------------------------------------

/// Counts across a batch of classified replies.
#[derive(Debug, Clone, Copy, Default, PartialEq, Eq)]
pub struct Summary {
    pub total: usize,
    pub success: usize,
    pub form_required: usize,
    pub confirmation_required: usize,
    pub rejected: usize,
    pub pending: usize,
    pub bounced: usize,
    pub unknown: usize,
    pub needs_review: usize,
}

/// How many of `rs` are of type `t`.
pub open spec fn count_of(rs: Seq<ClassifiedResponse>, t: ResponseType) -> nat
    decreases rs.len(),
{
    if rs.len() == 0 {
        0
    } else {
        count_of(rs.drop_last(), t) + if rs.last().response_type == t {
            1nat
        } else {
            0nat
        }
    }
}

/// How many of `rs` are flagged for review.
pub open spec fn review_count(rs: Seq<ClassifiedResponse>) -> nat
    decreases rs.len(),
{
    if rs.len() == 0 {
        0
    } else {
        review_count(rs.drop_last()) + if rs.last().needs_review {
            1nat
        } else {
            0nat
        }
    }
}

pub open spec fn summary_of(rs: Seq<ClassifiedResponse>) -> Summary {
    Summary {
        total: rs.len() as usize,
        success: count_of(rs, ResponseType::Success) as usize,
        form_required: count_of(rs, ResponseType::FormRequired) as usize,
        confirmation_required: count_of(rs, ResponseType::ConfirmationRequired) as usize,
        rejected: count_of(rs, ResponseType::Rejected) as usize,
        pending: count_of(rs, ResponseType::Pending) as usize,
        bounced: count_of(rs, ResponseType::Bounced) as usize,
        unknown: count_of(rs, ResponseType::Unknown) as usize,
        needs_review: review_count(rs) as usize,
    }
}

proof fn lemma_counts_bounded(rs: Seq<ClassifiedResponse>, t: ResponseType)
    ensures
        count_of(rs, t) <= rs.len(),
        review_count(rs) <= rs.len(),
    decreases rs.len(),
{
    if rs.len() > 0 {
        lemma_counts_bounded(rs.drop_last(), t);
    }
}

/// Count a batch of replies by type.
pub fn summarize(responses: &[ClassifiedResponse]) -> (s: Summary)
    ensures
        s == summary_of(responses@),
{
    let mut summary = Summary {
        total: responses.len(),
        success: 0,
        form_required: 0,
        confirmation_required: 0,
        rejected: 0,
        pending: 0,
        bounced: 0,
        unknown: 0,
        needs_review: 0,
    };
    let mut i: usize = 0;
    while i < responses.len()
        invariant
            i <= responses@.len(),
            summary.total == responses@.len(),
            summary.success == count_of(responses@.take(i as int), ResponseType::Success),
            summary.form_required == count_of(responses@.take(i as int), ResponseType::FormRequired),
            summary.confirmation_required == count_of(
                responses@.take(i as int),
                ResponseType::ConfirmationRequired,
            ),
            summary.rejected == count_of(responses@.take(i as int), ResponseType::Rejected),
            summary.pending == count_of(responses@.take(i as int), ResponseType::Pending),
            summary.bounced == count_of(responses@.take(i as int), ResponseType::Bounced),
            summary.unknown == count_of(responses@.take(i as int), ResponseType::Unknown),
            summary.needs_review == review_count(responses@.take(i as int)),
            summary.success <= i && summary.form_required <= i && summary.confirmation_required
                <= i && summary.rejected <= i && summary.pending <= i && summary.bounced <= i
                && summary.unknown <= i && summary.needs_review <= i,
        decreases responses@.len() - i,
    {
        proof {
            assert(responses@.take(i + 1).drop_last() == responses@.take(i as int));
            assert(responses@.take(i + 1).last() == responses@[i as int]);
        }
        match responses[i].response_type {
            ResponseType::Success => summary.success = summary.success + 1,
            ResponseType::FormRequired => summary.form_required = summary.form_required + 1,
            ResponseType::ConfirmationRequired => summary.confirmation_required =
                summary.confirmation_required + 1,
            ResponseType::Rejected => summary.rejected = summary.rejected + 1,
            ResponseType::Pending => summary.pending = summary.pending + 1,
            ResponseType::Bounced => summary.bounced = summary.bounced + 1,
            ResponseType::Unknown => summary.unknown = summary.unknown + 1,
        }
        if responses[i].needs_review {
            summary.needs_review = summary.needs_review + 1;
        }
        i = i + 1;
    }
    assert(responses@.take(responses@.len() as int) == responses@);
    summary
}

/// Every reply of a batch is counted under exactly one type: the per-type
/// counts of a summary add up to its total.
pub proof fn summary_counts_partition(rs: Seq<ClassifiedResponse>)
    ensures
        count_of(rs, ResponseType::Success) + count_of(rs, ResponseType::FormRequired) + count_of(
            rs,
            ResponseType::ConfirmationRequired,
        ) + count_of(rs, ResponseType::Rejected) + count_of(rs, ResponseType::Pending) + count_of(
            rs,
            ResponseType::Bounced,
        ) + count_of(rs, ResponseType::Unknown) == rs.len(),
    decreases rs.len(),
{
    if rs.len() > 0 {
        summary_counts_partition(rs.drop_last());
    }
}

} // verus!
