//! Reading and classifying what brokers send back.
//!
//! Roughly a fifth of brokers reply asking for something more — a form, a
//! confirmation click, proof of identity — and this is the part that reads
//! those replies and sorts them.

pub mod classifier;
pub mod monitor;
pub mod parser;
pub mod scan;

use vstd::prelude::*;

use crate::text::{collapse_whitespace, replace};

verus! {

/// One message fetched from the mailbox.
#[derive(Debug, Clone, Default, PartialEq, Eq)]
pub struct Email {
    /// IMAP UID, for archiving or marking the message afterwards.
    pub uid: u32,
    pub message_id: String,
    pub from: String,
    /// The display name, e.g. "Mail Delivery System".
    pub from_name: String,
    pub from_domain: String,
    pub subject: String,
    pub body: String,
    pub html_body: String,
    /// When the message was sent, as seconds since the Unix epoch.
    pub received_at: Option<i64>,
    /// The broker this reply was matched to, if one was found.
    pub broker_id: String,
    pub broker_name: String,
}

/// The handful of entities that appear in broker mail, decoded, `&amp;`
/// last so that a doubly-encoded `&amp;lt;` does not become `<`.
pub open spec fn decode_entities(t: Seq<char>) -> Seq<char> {
    let a = replace(t, "&nbsp;"@, " "@);
    let b = replace(a, "&lt;"@, "<"@);
    let c = replace(b, "&gt;"@, ">"@);
    let d = replace(c, "&quot;"@, "\""@);
    let e = replace(d, "&#39;"@, "'"@);
    replace(e, "&amp;"@, "&"@)
}

/// The text a reply is classified on: the plain part, or else the HTML part
/// with its tags removed, its entities decoded, and its whitespace folded.
pub open spec fn email_text(e: Email) -> Seq<char> {
    if e.body@.len() > 0 {
        e.body@
    } else {
        collapse_whitespace(decode_entities(parser::stripped(e.html_body@)))
    }
}

impl Email {
    /// The text to classify: the plain part, or the HTML with tags removed.
    pub fn text(&self) -> (r: String)
        ensures
            r@ == email_text(*self),
    {
        if !self.body.as_str().is_empty() {
            self.body.clone()
        } else {
            let stripped = parser::strip_tags(self.html_body.as_str());
            let decoded = decode_entities_str(stripped.as_str());
            crate::text::collapse_whitespace_str(decoded.as_str())
        }
    }
}

/// Decode the handful of entities that appear in broker mail.
pub fn decode_entities_str(t: &str) -> (r: String)
    ensures
        r@ == decode_entities(t@),
{
    let a = crate::text::replace_str(t, "&nbsp;", " ");
    let b = crate::text::replace_str(a.as_str(), "&lt;", "<");
    let c = crate::text::replace_str(b.as_str(), "&gt;", ">");
    let d = crate::text::replace_str(c.as_str(), "&quot;", "\"");
    let e = crate::text::replace_str(d.as_str(), "&#39;", "'");
    crate::text::replace_str(e.as_str(), "&amp;", "&")
}

} // verus!
