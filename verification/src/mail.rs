//! Reading raw mail, through the `mail-parser` crate, and the clock-free
//! parts of `chrono` that mail dates go through.

use vstd::prelude::*;

verus! {

/// The parts of a parsed message that the rules read.
#[derive(Debug)]
pub struct MailParts {
    /// `Message::subject`, decoded.
    pub subject: Option<String>,
    /// The first plain-text body part, when it really is plain text.
    pub text: Option<String>,
    /// The first HTML body part, when it really is HTML.
    pub html: Option<String>,
    /// The `Date` header, as seconds since the Unix epoch.
    pub date: Option<i64>,
}

/// The same parts, as values.
pub struct MailPartsView {
    pub subject: Option<Seq<char>>,
    pub text: Option<Seq<char>>,
    pub html: Option<Seq<char>>,
    pub date: Option<i64>,
}

pub open spec fn text_view(o: Option<String>) -> Option<Seq<char>> {
    match o {
        Some(s) => Some(s@),
        None => None,
    }
}

impl View for MailParts {
    type V = MailPartsView;

    open spec fn view(&self) -> MailPartsView {
        MailPartsView {
            subject: text_view(self.subject),
            text: text_view(self.text),
            html: text_view(self.html),
            date: self.date,
        }
    }
}

/// What `MessageParser::parse` makes of `raw`, or `None` when it cannot
/// read it at all.
pub uninterp spec fn parsed_message(raw: Seq<u8>) -> Option<MailPartsView>;

/// `mail_parser::MessageParser::default().parse(raw)`, with the subject,
/// the first text and HTML body parts and the date copied out. The result
/// is named by `parsed_message` and depends on the bytes alone; nothing
/// more is claimed of it here.
#[verifier::external_body]
pub(crate) fn parse_message_parts(raw: &[u8]) -> (r: Option<MailParts>)
    ensures
        match r {
            Some(p) => parsed_message(raw@) == Some(p@),
            None => parsed_message(raw@) is None,
        },
{
    let parsed = mail_parser::MessageParser::default().parse(raw)?;
    let text = match parsed.text_bodies().next().map(|part| &part.body) {
        Some(mail_parser::PartType::Text(text)) => Some(text.to_string()),
        _ => None,
    };
    let html = match parsed.html_bodies().next().map(|part| &part.body) {
        Some(mail_parser::PartType::Html(html)) => Some(html.to_string()),
        _ => None,
    };
    let date = match parsed.date() {
        Some(date) => Some(date.to_timestamp()),
        None => None,
    };
    Some(MailParts { subject: parsed.subject().map(str::to_string), text, html, date })
}

/// What `String::from_utf8_lossy` makes of `bytes`: the text, with each
/// invalid sequence replaced by U+FFFD.
pub uninterp spec fn lossy_text(bytes: Seq<u8>) -> Seq<char>;

/// `String::from_utf8_lossy`. Its result is named by `lossy_text`.
#[verifier::external_body]
pub(crate) fn utf8_lossy(bytes: &[u8]) -> (r: String)
    ensures
        r@ == lossy_text(bytes@),
{
    String::from_utf8_lossy(bytes).into_owned()
}

/// Whether `chrono` can hold an instant `secs` seconds from the epoch: from
/// the start of January 1 of year -262143 to the end of December 31 of year
/// 262142, the first and last days `NaiveDate` holds.
pub open spec fn timestamp_in_range(secs: i64) -> bool {
    -8334601228800 <= secs <= 8210266876799
}

/// `chrono::DateTime::from_timestamp(secs, 0)`, read back as seconds. The
/// crate refuses exactly an instant outside the days `NaiveDate` holds, and
/// what it accepts round-trips through `timestamp`.
#[verifier::external_body]
pub(crate) fn utc_timestamp(secs: i64) -> (r: Option<i64>)
    ensures
        r is Some <==> timestamp_in_range(secs),
        r is Some ==> r == Some(secs),
{
    match chrono::DateTime::from_timestamp(secs, 0) {
        Some(time) => Some(time.timestamp()),
        None => None,
    }
}

} // verus!
