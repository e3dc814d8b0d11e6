//! Working out who a message is from, and turning a fetched message into an
//! [`Email`].
//!
//! The mailbox itself is read over IMAP by the caller, read-only: nothing is
//! ever moved or deleted. What is decided here is which broker a reply came
//! from, and what a raw message says once it is decoded.

use vstd::prelude::*;

use super::Email;
use crate::broker::{same_broker, Broker};
use crate::mail::{lossy_text, parsed_message, timestamp_in_range, MailPartsView};
use crate::text::{
    before_first, contains, first_index_of, join, last_index_of, lowercase_of, strip_prefixes,
    trim,
};

verus! {

// ---------------------------------------------------------------------
// Domains
// ---------------------------------------------------------------------

/// The host part of a website, without scheme, `www.`, path or port,
/// lowercased; `None` when nothing is left.
pub open spec fn website_domain(website: Seq<char>) -> Option<Seq<char>> {
    let t = strip_prefixes(
        strip_prefixes(strip_prefixes(trim(website), "https://"@), "http://"@),
        "www."@,
    );
    let host = before_first(before_first(t, '/'), ':');
    if host.len() == 0 {
        None
    } else {
        Some(lowercase_of(host))
    }
}

/// The domain of a contact address: what follows its last `@`, trimmed and
/// lowercased; `None` when there is no `@` or nothing after it.
pub open spec fn address_domain(address: Seq<char>) -> Option<Seq<char>> {
    match last_index_of(address, '@') {
        Some(i) => {
            let d = lowercase_of(trim(address.skip(i + 1)));
            if d.len() == 0 {
                None
            } else {
                Some(d)
            }
        },
        None => None,
    }
}

/// Whether a broker is reached at, or publishes a website on, `domain`.
pub open spec fn lists_domain(b: Broker, domain: Seq<char>) -> bool {
    address_domain(b.email@) == Some(domain) || website_domain(b.website@) == Some(domain)
}

/// The first broker, in directory order, that lists `domain`.
pub open spec fn first_listing(brokers: Seq<Broker>, domain: Seq<char>) -> Option<int>
    decreases brokers.len(),
{
    if brokers.len() == 0 {
        None
    } else {
        match first_listing(brokers.drop_last(), domain) {
            Some(i) => Some(i),
            None => if lists_domain(brokers.last(), domain) {
                Some(brokers.len() - 1)
            } else {
                None
            },
        }
    }
}

/// Where `domain` first appears in `entries`.
pub open spec fn position_of(entries: Seq<(Seq<char>, int)>, domain: Seq<char>) -> Option<int>
    decreases entries.len(),
{
    if entries.len() == 0 {
        None
    } else {
        match position_of(entries.drop_last(), domain) {
            Some(j) => Some(j),
            None => if entries.last().0 == domain {
                Some(entries.len() - 1)
            } else {
                None
            },
        }
    }
}

/// Whether `entries` already has `domain`.
pub open spec fn has_domain(entries: Seq<(Seq<char>, int)>, domain: Seq<char>) -> bool {
    position_of(entries, domain) is Some
}

/// `position_of` finds the first entry holding the domain, and finds
/// nothing only when no entry holds it.
pub proof fn lemma_position_of(entries: Seq<(Seq<char>, int)>, domain: Seq<char>)
    ensures
        match position_of(entries, domain) {
            Some(j) => 0 <= j < entries.len() && entries[j].0 == domain && forall|k: int|
                0 <= k < j ==> entries[k].0 != domain,
            None => forall|k: int| 0 <= k < entries.len() ==> entries[k].0 != domain,
        },
    decreases entries.len(),
{
    if entries.len() > 0 {
        lemma_position_of(entries.drop_last(), domain);
        assert forall|k: int| 0 <= k < entries.len() - 1 implies entries.drop_last()[k]
            == entries[k] by {}
    }
}

/// Add `domain` for broker `i`, unless an earlier broker already has it.
pub open spec fn add_domain(entries: Seq<(Seq<char>, int)>, domain: Option<Seq<char>>, i: int) -> Seq<
    (Seq<char>, int),
> {
    match domain {
        Some(d) => if has_domain(entries, d) {
            entries
        } else {
            entries.push((d, i))
        },
        None => entries,
    }
}

/// The directory of sender domains: each broker's contact domain, then its
/// website domain, with the first broker to claim a domain keeping it.
pub open spec fn indexed(brokers: Seq<Broker>) -> Seq<(Seq<char>, int)>
    decreases brokers.len(),
{
    if brokers.len() == 0 {
        Seq::empty()
    } else {
        let i = brokers.len() - 1;
        let b = brokers.last();
        add_domain(
            add_domain(indexed(brokers.drop_last()), address_domain(b.email@), i),
            website_domain(b.website@),
            i,
        )
    }
}

/// Which broker `entries` has for `domain`.
pub open spec fn lookup(entries: Seq<(Seq<char>, int)>, domain: Seq<char>) -> Option<int> {
    match position_of(entries, domain) {
        Some(j) => Some(entries[j].1),
        None => None,
    }
}

/// Looking a sender domain up ignores the case of its letters: two ASCII
/// domains that differ only in case find the same broker.
pub proof fn law_domain_matching_ignores_case(
    entries: Seq<(Seq<char>, int)>,
    a: Seq<char>,
    b: Seq<char>,
)
    requires
        crate::text::all_ascii(a),
        crate::text::all_ascii(b),
        crate::text::ascii_lowered(a) == crate::text::ascii_lowered(b),
    ensures
        lookup(entries, lowercase_of(a)) == lookup(entries, lowercase_of(b)),
{
    crate::text::law_ascii_case_is_ignored(a, b);
}

/// No domain appears twice.
pub open spec fn unique_domains(entries: Seq<(Seq<char>, int)>) -> bool {
    forall|j: int, k: int|
        0 <= j < k < entries.len() ==> #[trigger] entries[j].0 != #[trigger] entries[k].0
}

/// The host part of a URL, without `www.`.
pub fn domain_of(website: &str) -> (r: Option<String>)
    ensures
        match r {
            Some(d) => website_domain(website@) == Some(d@),
            None => website_domain(website@) is None,
        },
{
    let trimmed = crate::text::trim_str(website);
    let chars = crate::text::chars_of(trimmed.as_str());
    let https = crate::text::chars_of("https://");
    let http = crate::text::chars_of("http://");
    let www = crate::text::chars_of("www.");
    let a = crate::text::strip_prefixes_chars(chars.as_slice(), https.as_slice());
    let b = crate::text::strip_prefixes_chars(a.as_slice(), http.as_slice());
    let c = crate::text::strip_prefixes_chars(b.as_slice(), www.as_slice());
    let path = before_first_char(c.as_slice(), '/');
    let host = before_first_char(path.as_slice(), ':');
    if host.len() == 0 {
        None
    } else {
        let text = crate::text::string_of(host.as_slice());
        Some(crate::text::lowercase(text.as_str()))
    }
}

/// The text before the first `c`, or all of it.
fn before_first_char(s: &[char], c: char) -> (r: Vec<char>)
    ensures
        r@ == before_first(s@, c),
{
    let n = s.len();
    match crate::text::find_char(s, c) {
        Some(i) => {
            proof {
                crate::text::lemma_first_index(s@, c);
                let x = first_index_of(s@, c)->0;
                assert(0 <= x < s@.len());
                assert(x == i);
            }
            let r = crate::text::slice_to_vec(s, 0, i);
            assert(r@ == s@.take(i as int));
            r
        },
        None => {
            let r = crate::text::slice_to_vec(s, 0, s.len());
            assert(r@ == s@);
            r
        },
    }
}

/// The domain of a contact address.
pub fn domain_of_address_field(address: &str) -> (r: Option<String>)
    ensures
        match r {
            Some(d) => address_domain(address@) == Some(d@),
            None => address_domain(address@) is None,
        },
{
    let chars = crate::text::chars_of(address);
    match crate::text::rfind_char(chars.as_slice(), '@') {
        Some(i) => {
            assert(chars@ == address@);
            proof {
                crate::text::lemma_last_index(address@, '@');
            }
            assert(i < chars.len());
            let after = crate::text::slice_to_vec(chars.as_slice(), i + 1, chars.len());
            assert(after@ == address@.skip(i + 1));
            let text = crate::text::string_of(after.as_slice());
            let trimmed = crate::text::trim_str(text.as_str());
            let lowered = crate::text::lowercase(trimmed.as_str());
            if lowered.as_str().is_empty() {
                None
            } else {
                Some(lowered)
            }
        },
        None => None,
    }
}

/// Sender domain to broker, built from both the contact address and the
/// website: plenty of brokers reply from a different address than the one
/// they publish.
#[derive(Debug)]
pub struct DomainIndex {
    brokers: Vec<Broker>,
    entries: Vec<(String, usize)>,
}

impl DomainIndex {
    /// The brokers the index was built from, in directory order.
    pub closed spec fn brokers_spec(&self) -> Seq<Broker> {
        self.brokers@
    }

    /// Each domain with the position of the broker that claimed it.
    pub closed spec fn entries_spec(&self) -> Seq<(Seq<char>, int)> {
        self.entries@.map_values(|e: (String, usize)| (e.0@, e.1 as int))
    }

    /// Every entry names a broker of the index.
    pub closed spec fn wf(&self) -> bool {
        forall|j: int|
            0 <= j < self.entries@.len() ==> #[trigger] self.entries@[j].1 < self.brokers@.len()
    }

    /// How many sender domains are known.
    pub fn len(&self) -> (r: usize)
        ensures
            r == self.entries_spec().len(),
    {
        self.entries.len()
    }

    pub fn is_empty(&self) -> (r: bool)
        ensures
            r == (self.entries_spec().len() == 0),
    {
        self.entries.len() == 0
    }

    /// Where `domain` is held, if it is.
    fn position(&self, domain: &str) -> (r: Option<usize>)
        ensures
            match position_of(self.entries_spec(), domain@) {
                Some(j) => r == Some(j as usize) && 0 <= j < self.entries@.len(),
                None => r is None,
            },
    {
        let ghost es = self.entries_spec();
        proof {
            lemma_position_of(es, domain@);
        }
        let mut j: usize = 0;
        while j < self.entries.len()
            invariant
                j <= self.entries@.len(),
                es == self.entries_spec(),
                es.len() == self.entries@.len(),
                forall|k: int| 0 <= k < j ==> es[k].0 != domain@,
                match position_of(es, domain@) {
                    Some(p) => 0 <= p < es.len() && es[p].0 == domain@ && forall|k: int|
                        0 <= k < p ==> es[k].0 != domain@,
                    None => forall|k: int| 0 <= k < es.len() ==> es[k].0 != domain@,
                },
            decreases self.entries@.len() - j,
        {
            assert(es[j as int] == (self.entries@[j as int].0@, self.entries@[j as int].1 as int));
            if crate::text::same_text(self.entries[j].0.as_str(), domain) {
                return Some(j);
            }
            j = j + 1;
        }
        None
    }

    /// The broker that claimed `domain` exactly as written.
    pub fn get(&self, domain: &str) -> (r: Option<&Broker>)
        requires
            self.wf(),
        ensures
            match lookup(self.entries_spec(), domain@) {
                Some(i) => r is Some && 0 <= i < self.brokers_spec().len() && *r->0
                    == self.brokers_spec()[i],
                None => r is None,
            },
    {
        let n = self.entries.len();
        match self.position(domain) {
            Some(j) => {
                assert(self.entries_spec()[j as int].1 == self.entries@[j as int].1);
                assert(self.entries@[j as int].1 < self.brokers@.len());
                assert(position_of(self.entries_spec(), domain@) is Some);
                let ghost p = position_of(self.entries_spec(), domain@)->0;
                assert(0 <= p);
                assert(p < self.entries@.len());
                assert(p == j);
                assert(lookup(self.entries_spec(), domain@) == Some(self.entries@[j as int].1 as int));
                let k = self.entries[j].1;
                assert(self.brokers@[k as int] == self.brokers_spec()[k as int]);
                Some(&self.brokers[k])
            },
            None => None,
        }
    }

    /// Which broker, if any, a sender domain belongs to, ignoring case.
    pub fn broker_for_domain(&self, domain: &str) -> (r: Option<&Broker>)
        requires
            self.wf(),
        ensures
            match lookup(self.entries_spec(), lowercase_of(domain@)) {
                Some(i) => r is Some && 0 <= i < self.brokers_spec().len() && *r->0
                    == self.brokers_spec()[i],
                None => r is None,
            },
    {
        let lowered = crate::text::lowercase(domain);
        self.get(lowered.as_str())
    }
}

/// Build the sender-domain directory.
///
/// Both the contact address and the website are indexed, and when two
/// brokers share a domain the one listed first keeps it, the same on every
/// run.
pub fn broker_domains(brokers: &[Broker]) -> (r: DomainIndex)
    ensures
        r.wf(),
        r.entries_spec() == indexed(brokers@),
        r.brokers_spec().len() == brokers@.len(),
        forall|i: int|
            0 <= i < brokers@.len() ==> same_broker(#[trigger] r.brokers_spec()[i], brokers@[i]),
{
    let mut index = DomainIndex { brokers: Vec::new(), entries: Vec::new() };
    let mut i: usize = 0;
    while i < brokers.len()
        invariant
            i <= brokers@.len(),
            index.wf(),
            index.brokers@.len() == i,
            index.entries_spec() == indexed(brokers@.take(i as int)),
            forall|k: int|
                0 <= k < i ==> same_broker(#[trigger] index.brokers@[k], brokers@[k]),
        decreases brokers@.len() - i,
    {
        proof {
            assert(brokers@.take(i + 1).drop_last() == brokers@.take(i as int));
            assert(brokers@.take(i + 1).last() == brokers@[i as int]);
        }
        let broker = &brokers[i];
        index.brokers.push(broker.duplicate());
        let by_address = domain_of_address_field(broker.email.as_str());
        add_entry(&mut index, by_address, i);
        let by_website = domain_of(broker.website.as_str());
        add_entry(&mut index, by_website, i);
        i = i + 1;
    }
    proof {
        assert(brokers@.take(brokers@.len() as int) == brokers@);
    }
    index
}

/// Add `domain` for broker `i` unless it is already taken.
fn add_entry(index: &mut DomainIndex, domain: Option<String>, i: usize)
    requires
        old(index).wf(),
        i < old(index).brokers@.len(),
    ensures
        final(index).wf(),
        final(index).brokers@ == old(index).brokers@,
        final(index).entries_spec() == add_domain(
            old(index).entries_spec(),
            crate::mail::text_view(domain),
            i as int,
        ),
{
    match domain {
        Some(d) => {
            let ghost es = index.entries_spec();
            if index.position(d.as_str()).is_none() {
                index.entries.push((d, i));
                proof {
                    assert(index.entries_spec() =~= es.push((d@, i as int)));
                    assert(index.entries_spec().drop_last() == es);
                }
            }
        },
        None => {},
    }
}

/// The domain directory answers each domain with the first broker, in
/// directory order, that lists it as its contact domain or website domain,
/// and with nothing when no broker lists it.
pub proof fn law_first_broker_keeps_a_shared_domain(brokers: Seq<Broker>, domain: Seq<char>)
    ensures
        unique_domains(indexed(brokers)),
        lookup(indexed(brokers), domain) == first_listing(brokers, domain),
    decreases brokers.len(),
{
    if brokers.len() > 0 {
        let before = brokers.drop_last();
        law_first_broker_keeps_a_shared_domain(before, domain);
        let i = brokers.len() - 1;
        let b = brokers.last();
        let e0 = indexed(before);
        let e1 = add_domain(e0, address_domain(b.email@), i);
        let e2 = add_domain(e1, website_domain(b.website@), i);
        lemma_add_domain(e0, address_domain(b.email@), i, domain);
        lemma_add_domain(e1, website_domain(b.website@), i, domain);
    }
}

/// What adding one domain does to a list without repeats.
proof fn lemma_add_domain(
    entries: Seq<(Seq<char>, int)>,
    added: Option<Seq<char>>,
    i: int,
    domain: Seq<char>,
)
    requires
        unique_domains(entries),
    ensures
        unique_domains(add_domain(entries, added, i)),
        lookup(add_domain(entries, added, i), domain) == (if has_domain(entries, domain) {
            lookup(entries, domain)
        } else if added == Some(domain) {
            Some(i)
        } else {
            None
        }),
{
    let after = add_domain(entries, added, i);
    lemma_position_of(entries, domain);
    match added {
        Some(a) => {
            lemma_position_of(entries, a);
            if !has_domain(entries, a) {
                assert(after.drop_last() == entries);
                assert forall|j: int, k: int| 0 <= j < k < after.len() implies #[trigger] after[j].0
                    != #[trigger] after[k].0 by {
                    if k == after.len() - 1 {
                        assert(after[j] == entries[j]);
                    } else {
                        assert(after[j] == entries[j]);
                        assert(after[k] == entries[k]);
                    }
                }
            }
        },
        None => {},
    }
}

// ---------------------------------------------------------------------
// Messages
// ---------------------------------------------------------------------

/// One address of an envelope, as the server sent it.
#[derive(Debug, Clone, Default)]
pub struct EnvelopeAddress {
    pub name: Option<Vec<u8>>,
    pub mailbox: Option<Vec<u8>>,
    pub host: Option<Vec<u8>>,
}

/// The envelope of a fetched message, as the server sent it.
#[derive(Debug, Clone, Default)]
pub struct Envelope {
    pub subject: Option<Vec<u8>>,
    pub message_id: Option<Vec<u8>>,
    /// The `From` addresses; the first one is the sender.
    pub from: Vec<EnvelopeAddress>,
}

/// A message as fetched: its UID, its envelope, and its raw body.
#[derive(Debug, Clone, Default)]
pub struct FetchedMessage {
    pub uid: Option<u32>,
    pub envelope: Option<Envelope>,
    pub body: Option<Vec<u8>>,
}

pub open spec fn bytes_view(b: Option<Vec<u8>>) -> Option<Seq<u8>> {
    match b {
        Some(v) => Some(v@),
        None => None,
    }
}

/// The header line a possibly encoded word is wrapped in for decoding.
pub open spec fn header_line(text: Seq<char>) -> Seq<char> {
    "Subject: "@ + text + "\r\n\r\n"@
}

/// A header value as text: the raw bytes read as UTF-8, and an RFC 2047
/// encoded word decoded by the mail parser when it can be.
pub open spec fn header_text(raw: Option<Seq<u8>>) -> Seq<char> {
    match raw {
        None => Seq::empty(),
        Some(bytes) => {
            let text = lossy_text(bytes);
            if contains(text, "=?"@) {
                match parsed_message(vstd::utf8::encode_utf8(header_line(text))) {
                    Some(p) => match p.subject {
                        Some(subject) => subject,
                        None => text,
                    },
                    None => text,
                }
            } else {
                text
            }
        },
    }
}

/// IMAP header values arrive as raw bytes, sometimes RFC 2047 encoded.
pub fn decode_header(raw: Option<&[u8]>) -> (r: String)
    ensures
        r@ == header_text(match raw {
            Some(b) => Some(b@),
            None => None,
        }),
{
    let bytes = match raw {
        Some(b) => b,
        None => {
            return String::new();
        },
    };
    let text = crate::mail::utf8_lossy(bytes);
    proof {
        reveal_strlit("=?");
    }
    if crate::text::contains_str(text.as_str(), "=?") {
        let head = crate::text::concat("Subject: ", text.as_str());
        let line = crate::text::concat(head.as_str(), "\r\n\r\n");
        proof {
            reveal_strlit("Subject: ");
            reveal_strlit("\r\n\r\n");
        }
        assert(line@ == header_line(text@));
        match crate::mail::parse_message_parts(line.as_str().as_bytes()) {
            Some(parts) => match parts.subject {
                Some(subject) => {
                    return subject;
                },
                None => {},
            },
            None => {},
        }
    }
    text
}

fn decode_optional(raw: &Option<Vec<u8>>) -> (r: String)
    ensures
        r@ == header_text(bytes_view(*raw)),
{
    match raw {
        Some(v) => decode_header(Some(v.as_slice())),
        None => decode_header(None),
    }
}

/// The sender fields an envelope address gives: display name, domain and
/// address.
pub open spec fn sender_of(a: EnvelopeAddress) -> (Seq<char>, Seq<char>, Seq<char>) {
    let mailbox = header_text(bytes_view(a.mailbox));
    let host = header_text(bytes_view(a.host));
    (
        header_text(bytes_view(a.name)),
        lowercase_of(host),
        if mailbox.len() == 0 || host.len() == 0 {
            Seq::empty()
        } else {
            mailbox + "@"@ + host
        },
    )
}

/// What a fetched message reads as, once decoded and matched to a broker.
pub open spec fn message_fields(
    m: FetchedMessage,
    entries: Seq<(Seq<char>, int)>,
    brokers: Seq<Broker>,
    e: Email,
) -> bool {
    match m.envelope {
        None => false,
        Some(env) => {
            let (name, domain, from) = if env.from@.len() > 0 {
                sender_of(env.from@[0])
            } else {
                (Seq::empty(), Seq::empty(), Seq::empty())
            };
            let parts = match m.body {
                Some(b) => parsed_message(b@),
                None => None,
            };
            &&& e.uid == match m.uid {
                Some(u) => u,
                None => 0,
            }
            &&& e.subject@ == header_text(bytes_view(env.subject))
            &&& e.message_id@ == header_text(bytes_view(env.message_id))
            &&& e.from_name@ == name
            &&& e.from_domain@ == domain
            &&& e.from@ == from
            &&& match lookup(entries, domain) {
                Some(i) => e.broker_id@ == brokers[i].id@ && e.broker_name@ == brokers[i].name@,
                None => e.broker_id@.len() == 0 && e.broker_name@.len() == 0,
            }
            &&& e.body@ == match parts {
                Some(p) => match p.text {
                    Some(t) => t,
                    None => Seq::empty(),
                },
                None => Seq::empty(),
            }
            &&& e.html_body@ == match parts {
                Some(p) => match p.html {
                    Some(t) => t,
                    None => Seq::empty(),
                },
                None => Seq::empty(),
            }
            &&& e.received_at == match parts {
                Some(p) => match p.date {
                    Some(secs) => if timestamp_in_range(secs) {
                        Some(secs)
                    } else {
                        None
                    },
                    None => None,
                },
                None => None,
            }
        },
    }
}

/// Pull the text and HTML parts, and the date, out of a raw message.
///
/// A part is taken only when it really is of its kind: the parser
/// synthesizes a missing one from the other, and taking that would make
/// every message look as if it had both. When the body cannot be read at
/// all the email is left as it was, since its subject alone still
/// classifies.
pub fn apply_body(email: &mut Email, raw: &[u8])
    ensures
        match parsed_message(raw@) {
            None => *final(email) == *old(email),
            Some(p) => {
                &&& final(email).body@ == match p.text {
                    Some(t) => t,
                    None => old(email).body@,
                }
                &&& final(email).html_body@ == match p.html {
                    Some(t) => t,
                    None => old(email).html_body@,
                }
                &&& final(email).received_at == match p.date {
                    Some(secs) => if timestamp_in_range(secs) {
                        Some(secs)
                    } else {
                        None
                    },
                    None => None,
                }
                &&& final(email).uid == old(email).uid
                &&& final(email).message_id == old(email).message_id
                &&& final(email).from == old(email).from
                &&& final(email).from_name == old(email).from_name
                &&& final(email).from_domain == old(email).from_domain
                &&& final(email).subject == old(email).subject
                &&& final(email).broker_id == old(email).broker_id
                &&& final(email).broker_name == old(email).broker_name
            },
        },
{
    match crate::mail::parse_message_parts(raw) {
        Some(parts) => {
            match parts.text {
                Some(t) => {
                    email.body = t;
                },
                None => {},
            }
            match parts.html {
                Some(h) => {
                    email.html_body = h;
                },
                None => {},
            }
            email.received_at = match parts.date {
                Some(secs) => crate::mail::utc_timestamp(secs),
                None => None,
            };
        },
        None => {},
    }
}

/// Turn a fetched message into an [`Email`]: `None` only when it came
/// without an envelope. A body the mail parser cannot read leaves the rest
/// of the email intact, since the subject alone still classifies.
pub fn parse_message(message: &FetchedMessage, index: &DomainIndex) -> (r: Option<Email>)
    requires
        index.wf(),
    ensures
        r is None <==> message.envelope is None,
        r matches Some(e) ==> message_fields(*message, index.entries_spec(), index.brokers_spec(), e),
{
    let envelope = match &message.envelope {
        Some(envelope) => envelope,
        None => {
            return None;
        },
    };
    let uid = match message.uid {
        Some(u) => u,
        None => 0,
    };
    let subject = decode_optional(&envelope.subject);
    let message_id = decode_optional(&envelope.message_id);
    let mut from_name = String::new();
    let mut from_domain = String::new();
    let mut from = String::new();
    if envelope.from.len() > 0 {
        let first = &envelope.from[0];
        let mailbox = decode_optional(&first.mailbox);
        let host = decode_optional(&first.host);
        from_name = decode_optional(&first.name);
        from_domain = crate::text::lowercase(host.as_str());
        if !mailbox.as_str().is_empty() && !host.as_str().is_empty() {
            let at = crate::text::concat(mailbox.as_str(), "@");
            from = crate::text::concat(at.as_str(), host.as_str());
            proof {
                reveal_strlit("@");
            }
        }
    }
    let mut broker_id = String::new();
    let mut broker_name = String::new();
    match index.get(from_domain.as_str()) {
        Some(broker) => {
            broker_id = broker.id.clone();
            broker_name = broker.name.clone();
        },
        None => {},
    }
    let mut email = Email {
        uid,
        message_id,
        from,
        from_name,
        from_domain,
        subject,
        body: String::new(),
        html_body: String::new(),
        received_at: None,
        broker_id,
        broker_name,
    };
    match &message.body {
        Some(raw) => apply_body(&mut email, raw.as_slice()),
        None => {},
    }
    Some(email)
}

// ---------------------------------------------------------------------
// Fetching
// ---------------------------------------------------------------------

/// Messages fetched per round trip. Whole mailboxes can be large, and asking
/// for everything at once makes a slow server time out.
pub const BATCH_SIZE: usize = 50;

/// In ascending order.
pub open spec fn ascending(s: Seq<u32>) -> bool {
    forall|i: int, j: int| 0 <= i <= j < s.len() ==> s[i] <= s[j]
}

/// Sort the UIDs ascending, by inserting each into place; the result holds
/// the same values.
fn sort_ascending(v: &mut Vec<u32>)
    ensures
        final(v)@.to_multiset() == old(v)@.to_multiset(),
        ascending(final(v)@),
{
    let mut out: Vec<u32> = Vec::new();
    let mut i: usize = 0;
    assert(v@.take(0) =~= out@);
    while i < v.len()
        invariant
            i <= v@.len(),
            v@ == old(v)@,
            ascending(out@),
            out@.to_multiset() == v@.take(i as int).to_multiset(),
        decreases v@.len() - i,
    {
        let x = v[i];
        let mut p: usize = 0;
        while p < out.len() && out[p] <= x
            invariant
                p <= out@.len(),
                forall|j: int| 0 <= j < p ==> out@[j] <= x,
            decreases out@.len() - p,
        {
            p = p + 1;
        }
        let ghost before = out@;
        proof {
            vstd::seq_lib::to_multiset_insert(before, p as int, x);
            vstd::seq_lib::to_multiset_build(v@.take(i as int), x);
            assert(v@.take(i + 1) == v@.take(i as int).push(x));
        }
        out.insert(p, x);
        assert(ascending(out@)) by {
            assert forall|a: int, b: int| 0 <= a <= b < out@.len() implies out@[a] <= out@[b] by {
                if a < p && b < p {
                    assert(out@[a] == before[a] && out@[b] == before[b]);
                } else if a < p && b == p {
                } else if a < p {
                    assert(out@[a] == before[a] && out@[b] == before[b - 1]);
                } else if a == p && b > p {
                    assert(out@[b] == before[b - 1]);
                    assert(p < before.len());
                    assert(before[p as int] > x);
                } else if a > p {
                    assert(out@[a] == before[a - 1] && out@[b] == before[b - 1]);
                }
            }
        }
        i = i + 1;
    }
    proof {
        assert(v@.take(v@.len() as int) == v@);
    }
    *v = out;
}

/// The UIDs written out and joined by commas, as an IMAP sequence set.
pub open spec fn uid_set(s: Seq<u32>) -> Seq<char> {
    join(s.map_values(|u: u32| crate::text::decimal(u as nat)), ","@)
}

/// The sequence sets to fetch, in order: the UIDs in batches of
/// `BATCH_SIZE`.
pub open spec fn batches_of(s: Seq<u32>) -> Seq<Seq<char>>
    decreases s.len(),
{
    if s.len() == 0 {
        Seq::empty()
    } else if s.len() <= BATCH_SIZE {
        seq![uid_set(s)]
    } else {
        seq![uid_set(s.take(BATCH_SIZE as int))] + batches_of(s.skip(BATCH_SIZE as int))
    }
}

/// The sequence sets to fetch for the UIDs a search found: sorted, so the
/// mailbox is read oldest first, and in batches of `BATCH_SIZE`.
pub fn uid_batches(uids: Vec<u32>) -> (r: Vec<String>)
    ensures
        exists|sorted: Seq<u32>|
            #![trigger batches_of(sorted)]
            sorted.to_multiset() == uids@.to_multiset() && ascending(sorted) && crate::text::views(
                r@,
            ) == batches_of(sorted),
{
    let mut uids = uids;
    sort_ascending(&mut uids);
    let ghost sorted = uids@;
    let mut out: Vec<String> = Vec::new();
    let mut start: usize = 0;
    let n = uids.len();
    assert(sorted.skip(0) == sorted);
    while start < n
        invariant
            start <= n == sorted.len(),
            uids@ == sorted,
            crate::text::views(out@) + batches_of(sorted.skip(start as int)) == batches_of(sorted),
        decreases n - start,
    {
        let end = if n - start > BATCH_SIZE {
            start + BATCH_SIZE
        } else {
            n
        };
        let mut parts: Vec<String> = Vec::new();
        let mut k: usize = start;
        while k < end
            invariant
                start <= k <= end <= n == sorted.len(),
                uids@ == sorted,
                crate::text::views(parts@) == sorted.subrange(start as int, k as int).map_values(
                    |u: u32| crate::text::decimal(u as nat),
                ),
            decreases end - k,
        {
            let ghost before = parts@;
            parts.push(crate::text::decimal_string(uids[k] as u64));
            proof {
                assert(crate::text::views(parts@) =~= crate::text::views(before).push(
                    crate::text::decimal(uids@[k as int] as nat),
                ));
                assert(sorted.subrange(start as int, k + 1).map_values(
                    |u: u32| crate::text::decimal(u as nat),
                ) =~= sorted.subrange(start as int, k as int).map_values(
                    |u: u32| crate::text::decimal(u as nat),
                ).push(crate::text::decimal(sorted[k as int] as nat)));
            }
            k = k + 1;
        }
        let set = crate::text::join_strings(&parts, ",");
        let ghost rest = sorted.skip(start as int);
        proof {
            if rest.len() <= BATCH_SIZE {
                assert(sorted.subrange(start as int, end as int) =~= rest);
                assert(sorted.skip(end as int).len() == 0);
                assert(batches_of(sorted.skip(end as int)) =~= Seq::<Seq<char>>::empty());
            } else {
                assert(sorted.subrange(start as int, end as int) =~= rest.take(BATCH_SIZE as int));
                assert(rest.skip(BATCH_SIZE as int) =~= sorted.skip(end as int));
            }
        }
        let ghost before = out@;
        out.push(set);
        proof {
            assert(crate::text::views(out@) =~= crate::text::views(before).push(set@));
            assert(crate::text::views(out@) + batches_of(sorted.skip(end as int)) =~= crate::text::views(
                before,
            ) + batches_of(rest));
        }
        start = end;
    }
    proof {
        assert(batches_of(sorted.skip(n as int)) =~= Seq::<Seq<char>>::empty());
        assert(crate::text::views(out@) + Seq::<Seq<char>>::empty() =~= crate::text::views(out@));
    }
    out
}

/// Filtering a single message keeps it exactly when it matched a broker.
proof fn lemma_filter_one(x: Email)
    ensures
        seq![x].filter(|e: Email| e.broker_id@.len() > 0) == (if x.broker_id@.len() > 0 {
            seq![x]
        } else {
            Seq::<Email>::empty()
        }),
{
    let s = seq![x];
    let p = |e: Email| e.broker_id@.len() > 0;
    assert(s.drop_last() =~= Seq::<Email>::empty());
    reveal_with_fuel(Seq::filter, 2);
    assert(s.drop_last().filter(p) =~= Seq::<Email>::empty());
    assert(s.last() == x);
}

/// Only the messages that came from a known broker, in order.
pub fn broker_emails(emails: Vec<Email>) -> (r: Vec<Email>)
    ensures
        r@ == emails@.filter(|e: Email| e.broker_id@.len() > 0),
{
    let mut out: Vec<Email> = Vec::new();
    let mut rest = emails;
    let ghost all = rest@;
    // Taken from the back, so each is moved rather than copied, then put
    // back in order.
    let mut reversed: Vec<Email> = Vec::new();
    while rest.len() > 0
        invariant
            rest@ == all.take(rest@.len() as int),
            rest@.len() <= all.len(),
            reversed@.reverse() == all.skip(rest@.len() as int).filter(
                |e: Email| e.broker_id@.len() > 0,
            ),
        decreases rest@.len(),
    {
        let ghost m: int = rest@.len() as int;
        let email = rest.pop().unwrap();
        proof {
            assert(email == all[m - 1]);
            lemma_filter_one(all[m - 1]);
            assert(all.skip(m - 1) =~= seq![all[m - 1]] + all.skip(m));
            Seq::<Email>::filter_distributes_over_add(
                seq![all[m - 1]],
                all.skip(m),
                |e: Email| e.broker_id@.len() > 0,
            );
        }
        if !email.broker_id.as_str().is_empty() {
            let ghost before = reversed@;
            reversed.push(email);
            proof {
                assert(reversed@.reverse() =~= seq![all[m - 1]] + before.reverse());
                assert(seq![all[m - 1]].filter(|e: Email| e.broker_id@.len() > 0) =~= seq![
                    all[m - 1],
                ]);
            }
        } else {
            proof {
                assert(seq![all[m - 1]].filter(|e: Email| e.broker_id@.len() > 0) =~= Seq::<
                    Email,
                >::empty());
            }
        }
        assert(rest@ =~= all.take(rest@.len() as int));
    }
    assert(all.skip(0) =~= all);
    while reversed.len() > 0
        invariant
            out@ + reversed@.reverse() == all.filter(|e: Email| e.broker_id@.len() > 0),
        decreases reversed@.len(),
    {
        let ghost r0 = reversed@;
        let e = reversed.pop().unwrap();
        let ghost o0 = out@;
        out.push(e);
        proof {
            assert(r0.reverse() =~= seq![e] + reversed@.reverse());
            assert(out@ + reversed@.reverse() =~= o0 + r0.reverse());
        }
    }
    assert(reversed@.reverse() =~= Seq::<Email>::empty());
    assert(out@ + reversed@.reverse() =~= out@);
    out
}

} // verus!
