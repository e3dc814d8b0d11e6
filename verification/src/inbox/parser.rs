//! Pulling URLs and addresses out of a broker's reply.
//!
//! The scoring tables encode a lot of hard-won knowledge about what a real
//! broker opt-out link looks like.

use vstd::prelude::*;

use super::Email;
use crate::patterns::{option_view, regex_captured, regex_first_capture, regex_found, regex_replaced};
use crate::text::{contains, contains_any, ends_with, lowercase_of, trim, trim_end_of, views};
use crate::weburl::parsed_url;

verus! {

// ---------------------------------------------------------------------
// Tables
// ---------------------------------------------------------------------

/// Clearly an opt-out form.
pub open spec fn strong_form_patterns() -> Seq<&'static str> {
    seq![
        "opt-out", "optout", "opt_out", "do-not-sell", "donotsell", "do_not_sell",
        "removal-request", "removal-form", "removalrequest", "remove-my-info", "remove-listing",
        "remove-record", "data-request", "dsar", "data-subject", "ccpa-request", "gdpr-request",
        "privacy-request", "privacy-form", "/optout", "/opt-out", "/removal", "/remove-me",
    ]
}

fn strong_form_list() -> (v: Vec<&'static str>)
    ensures
        v@ == strong_form_patterns(),
{
    vec![
        "opt-out", "optout", "opt_out", "do-not-sell", "donotsell", "do_not_sell",
        "removal-request", "removal-form", "removalrequest", "remove-my-info", "remove-listing",
        "remove-record", "data-request", "dsar", "data-subject", "ccpa-request", "gdpr-request",
        "privacy-request", "privacy-form", "/optout", "/opt-out", "/removal", "/remove-me",
    ]
}

/// Probably an opt-out form.
pub open spec fn moderate_form_patterns() -> Seq<&'static str> {
    seq!["suppress", "suppression", "ccpa", "gdpr", "/remove", "/delete"]
}

fn moderate_form_list() -> (v: Vec<&'static str>)
    ensures
        v@ == moderate_form_patterns(),
{
    vec!["suppress", "suppression", "ccpa", "gdpr", "/remove", "/delete"]
}

/// Only meaningful alongside a stronger signal.
pub open spec fn weak_form_patterns() -> Seq<&'static str> {
    seq!["remove", "removal", "delete", "deletion", "unsubscribe"]
}

fn weak_form_list() -> (v: Vec<&'static str>)
    ensures
        v@ == weak_form_patterns(),
{
    vec!["remove", "removal", "delete", "deletion", "unsubscribe"]
}

/// Disqualifying: a policy page, a login screen, a PDF, a social link.
pub open spec fn not_form_patterns() -> Seq<&'static str> {
    seq![
        "privacy-policy", "privacy_policy", "privacypolicy", "terms-of-service",
        "terms_of_service", "termsofservice", "terms-and-conditions", "terms_and_conditions",
        "cookie-policy", "cookie_policy", "cookiepolicy", "/tos", "/terms", "/legal", "/policy",
        "/about", "/contact", "/help", "/faq", "/support", "/how-to", "/howto", "/learn", "/info",
        "/login", "/signin", "/register", "/signup", "/auth", "/account", "/settings",
        "/preferences", "/profile", "/unsubscribe-preferences", "/email-preferences",
        "/manage-preferences", "/communication-preferences", "/marketing", "/newsletter",
        "/subscribe", ".pdf", ".doc", ".docx", "facebook.com", "twitter.com", "linkedin.com",
        "instagram.com", "google.com", "bit.ly", "tinyurl.com",
    ]
}

fn not_form_list() -> (v: Vec<&'static str>)
    ensures
        v@ == not_form_patterns(),
{
    vec![
        "privacy-policy", "privacy_policy", "privacypolicy", "terms-of-service",
        "terms_of_service", "termsofservice", "terms-and-conditions", "terms_and_conditions",
        "cookie-policy", "cookie_policy", "cookiepolicy", "/tos", "/terms", "/legal", "/policy",
        "/about", "/contact", "/help", "/faq", "/support", "/how-to", "/howto", "/learn", "/info",
        "/login", "/signin", "/register", "/signup", "/auth", "/account", "/settings",
        "/preferences", "/profile", "/unsubscribe-preferences", "/email-preferences",
        "/manage-preferences", "/communication-preferences", "/marketing", "/newsletter",
        "/subscribe", ".pdf", ".doc", ".docx", "facebook.com", "twitter.com", "linkedin.com",
        "instagram.com", "google.com", "bit.ly", "tinyurl.com",
    ]
}

/// Looks like a link that confirms an identity or an address.
pub open spec fn confirm_patterns() -> Seq<&'static str> {
    seq![
        "confirm", "verification", "verify", "activate", "validate", "click-here", "clickhere",
        "token=", "code=", "approve", "accept",
    ]
}

fn confirm_list() -> (v: Vec<&'static str>)
    ensures
        v@ == confirm_patterns(),
{
    vec![
        "confirm", "verification", "verify", "activate", "validate", "click-here", "clickhere",
        "token=", "code=", "approve", "accept",
    ]
}

/// Open-tracking pixels and beacons, which are not links to anywhere.
pub open spec fn tracking_patterns() -> Seq<&'static str> {
    seq!["track", "pixel", "beacon", "open.gif", "spacer.gif", "1x1", "unsubscribe-tracking"]
}

fn tracking_list() -> (v: Vec<&'static str>)
    ensures
        v@ == tracking_patterns(),
{
    vec!["track", "pixel", "beacon", "open.gif", "spacer.gif", "1x1", "unsubscribe-tracking"]
}

/// Addresses that belong to mail infrastructure or to the sender, not to
/// the broker whose address bounced.
pub open spec fn not_bounced_patterns() -> Seq<&'static str> {
    seq![
        "mailer-daemon", "postmaster", "noreply", "no-reply", "@gmail.com", "@yahoo.com",
        "@outlook.com", "@hotmail.com",
    ]
}

fn not_bounced_list() -> (v: Vec<&'static str>)
    ensures
        v@ == not_bounced_patterns(),
{
    vec![
        "mailer-daemon", "postmaster", "noreply", "no-reply", "@gmail.com", "@yahoo.com",
        "@outlook.com", "@hotmail.com",
    ]
}

/// Patterns that name the address a bounce is about; group 1 is the address.
pub open spec fn bounced_recipient_patterns() -> Seq<&'static str> {
    seq![
        r"(?i)(?:the\s+following|these)\s+address(?:es)?\s+(?:had\s+permanent\s+)?(?:fatal\s+)?(?:errors?|failed)[:\s]+([a-zA-Z0-9._%+-]+@[a-zA-Z0-9.-]+\.[a-zA-Z]{2,})",
        r"(?i)delivery\s+to\s+(?:the\s+following\s+)?(?:recipient|address)(?:s)?\s+failed[:\s]+([a-zA-Z0-9._%+-]+@[a-zA-Z0-9.-]+\.[a-zA-Z]{2,})",
        r"(?i)(?:original|final)[\s-]?recipient[:\s]+(?:rfc822;)?([a-zA-Z0-9._%+-]+@[a-zA-Z0-9.-]+\.[a-zA-Z]{2,})",
        r"(?i)(?:failed|rejected)\s+recipient[:\s]+([a-zA-Z0-9._%+-]+@[a-zA-Z0-9.-]+\.[a-zA-Z]{2,})",
        r"(?i)undeliverable\s+to[:\s]+([a-zA-Z0-9._%+-]+@[a-zA-Z0-9.-]+\.[a-zA-Z]{2,})",
        r"(?i)message\s+could\s+not\s+be\s+delivered\s+to[:\s]+([a-zA-Z0-9._%+-]+@[a-zA-Z0-9.-]+\.[a-zA-Z]{2,})",
        r"(?i)<([a-zA-Z0-9._%+-]+@[a-zA-Z0-9.-]+\.[a-zA-Z]{2,})>.*(?:failed|rejected|undeliverable)",
        r"(?i)to[:\s]+<?([a-zA-Z0-9._%+-]+@[a-zA-Z0-9.-]+\.[a-zA-Z]{2,})>?\s+.*(?:failed|rejected|not\s+exist)",
    ]
}

fn bounced_recipient_list() -> (v: Vec<&'static str>)
    ensures
        v@ == bounced_recipient_patterns(),
{
    vec![
        r"(?i)(?:the\s+following|these)\s+address(?:es)?\s+(?:had\s+permanent\s+)?(?:fatal\s+)?(?:errors?|failed)[:\s]+([a-zA-Z0-9._%+-]+@[a-zA-Z0-9.-]+\.[a-zA-Z]{2,})",
        r"(?i)delivery\s+to\s+(?:the\s+following\s+)?(?:recipient|address)(?:s)?\s+failed[:\s]+([a-zA-Z0-9._%+-]+@[a-zA-Z0-9.-]+\.[a-zA-Z]{2,})",
        r"(?i)(?:original|final)[\s-]?recipient[:\s]+(?:rfc822;)?([a-zA-Z0-9._%+-]+@[a-zA-Z0-9.-]+\.[a-zA-Z]{2,})",
        r"(?i)(?:failed|rejected)\s+recipient[:\s]+([a-zA-Z0-9._%+-]+@[a-zA-Z0-9.-]+\.[a-zA-Z]{2,})",
        r"(?i)undeliverable\s+to[:\s]+([a-zA-Z0-9._%+-]+@[a-zA-Z0-9.-]+\.[a-zA-Z]{2,})",
        r"(?i)message\s+could\s+not\s+be\s+delivered\s+to[:\s]+([a-zA-Z0-9._%+-]+@[a-zA-Z0-9.-]+\.[a-zA-Z]{2,})",
        r"(?i)<([a-zA-Z0-9._%+-]+@[a-zA-Z0-9.-]+\.[a-zA-Z]{2,})>.*(?:failed|rejected|undeliverable)",
        r"(?i)to[:\s]+<?([a-zA-Z0-9._%+-]+@[a-zA-Z0-9.-]+\.[a-zA-Z]{2,})>?\s+.*(?:failed|rejected|not\s+exist)",
    ]
}

/// A URL in running text.
pub open spec fn url_in_text_pattern() -> Seq<char> {
    r#"https?://[^\s<>"']+"#@
}

/// `href="..."` in HTML; group 1 is the link.
pub open spec fn href_pattern() -> Seq<char> {
    r#"(?i)<a[^>]+href\s*=\s*["']([^"']+)["']"#@
}

/// An HTML tag.
pub open spec fn html_tag_pattern() -> Seq<char> {
    r"<[^>]+>"@
}

/// An email address.
pub open spec fn email_address_pattern() -> Seq<char> {
    r"[a-zA-Z0-9._%+-]+@[a-zA-Z0-9.-]+\.[a-zA-Z]{2,}"@
}

/// Punctuation that a sentence leaves stuck to the end of a URL.
pub open spec fn trailing_punctuation() -> Seq<char> {
    seq!['.', ',', ';', ':', '!', '?', ')']
}

/// Score at or below which a URL is disqualified outright.
pub const DISQUALIFIED: i32 = -20;

/// Bonus for a URL on the broker's own domain.
pub const OWN_DOMAIN_BONUS: i32 = 20;

// ---------------------------------------------------------------------
// What the functions compute
// ---------------------------------------------------------------------

/// How many of `needles` occur in `hay`.
pub open spec fn count_contained(hay: Seq<char>, needles: Seq<&'static str>) -> nat
    decreases needles.len(),
{
    if needles.len() == 0 {
        0
    } else {
        count_contained(hay, needles.drop_last()) + if contains(hay, needles.last()@) {
            1nat
        } else {
            0nat
        }
    }
}

/// How much a lowercased URL looks like an opt-out form. A disqualifying
/// pattern beats every positive one; weak patterns count only alongside a
/// stronger one.
pub open spec fn form_score(lower: Seq<char>) -> int {
    if contains_any(lower, not_form_patterns()) {
        DISQUALIFIED as int
    } else {
        let base: int = 10 * (count_contained(lower, strong_form_patterns()) as int) + 5 * (
        count_contained(lower, moderate_form_patterns()) as int);
        if base > 0 {
            base + 2 * count_contained(lower, weak_form_patterns())
        } else {
            base
        }
    }
}

/// A link reads as a form exactly when it holds a strong or moderate form
/// pattern and no disqualifying one; a disqualified link always scores
/// `DISQUALIFIED`, below every link that is not, and a form link scores at
/// least 5.
pub proof fn law_form_score_is_earned(lower: Seq<char>)
    ensures
        form_score(lower) > 0 <==> !contains_any(lower, not_form_patterns()) && (count_contained(
            lower,
            strong_form_patterns(),
        ) > 0 || count_contained(lower, moderate_form_patterns()) > 0),
        form_score(lower) == DISQUALIFIED as int <==> contains_any(lower, not_form_patterns()),
        form_score(lower) > 0 ==> form_score(lower) >= 5,
        form_score(lower) >= 0 || form_score(lower) == DISQUALIFIED as int,
{
}

/// A URL is an open-tracking pixel rather than a link.
pub open spec fn is_tracking(url: Seq<char>) -> bool {
    let lower = lowercase_of(url);
    ||| contains_any(lower, tracking_patterns())
    ||| ends_with(lower, ".gif"@)
    ||| (ends_with(lower, ".png"@) && contains(lower, "pixel"@))
}

/// The text with its HTML tags replaced by spaces; the text unchanged should
/// the tag pattern fail to compile.
pub open spec fn stripped(html: Seq<char>) -> Seq<char> {
    match regex_replaced(html_tag_pattern(), html, " "@) {
        Some(t) => t,
        None => html,
    }
}

pub open spec fn found_or_none(r: Option<Seq<Seq<char>>>) -> Seq<Seq<char>> {
    match r {
        Some(v) => v,
        None => Seq::empty(),
    }
}

/// The present values, in order.
pub open spec fn somes(s: Seq<Option<Seq<char>>>) -> Seq<Seq<char>>
    decreases s.len(),
{
    if s.len() == 0 {
        Seq::empty()
    } else {
        let rest = somes(s.drop_last());
        match s.last() {
            Some(x) => rest.push(x),
            None => rest,
        }
    }
}

pub open spec fn text_urls(text: Seq<char>) -> Seq<Seq<char>> {
    found_or_none(regex_found(url_in_text_pattern(), text))
}

/// Every `href`, then any bare URL in the visible text.
pub open spec fn html_urls(html: Seq<char>) -> Seq<Seq<char>> {
    let hrefs = match regex_captured(href_pattern(), html) {
        Some(v) => somes(v),
        None => Seq::empty(),
    };
    hrefs + text_urls(stripped(html))
}

/// The raw URL candidates of an email, plain part first.
pub open spec fn candidate_urls(e: Email) -> Seq<Seq<char>> {
    (if e.body@.len() > 0 {
        text_urls(e.body@)
    } else {
        Seq::empty()
    }) + (if e.html_body@.len() > 0 {
        html_urls(e.html_body@)
    } else {
        Seq::empty()
    })
}

/// A URL normalised by the URL parser, or `None` when it is not http(s)
/// with a host.
pub open spec fn cleaned(raw: Seq<char>) -> Option<Seq<char>> {
    let trimmed = trim_end_of(raw, |c: char| trailing_punctuation().contains(c));
    match parsed_url(trimmed) {
        Some(p) => if (p.scheme == "http"@ || p.scheme == "https"@) && p.host is Some
            && p.host->0.len() > 0 {
            Some(p.text)
        } else {
            None
        },
        None => None,
    }
}

/// URLs found in an email, sorted into what they appear to be for.
#[derive(Debug, Clone, Default, PartialEq, Eq)]
pub struct ExtractedUrls {
    pub form_urls: Vec<String>,
    pub confirmation_urls: Vec<String>,
    pub unsubscribe_urls: Vec<String>,
    pub all_urls: Vec<String>,
}

#[verifier::ext_equal]
pub struct ExtractedUrlsView {
    pub form_urls: Seq<Seq<char>>,
    pub confirmation_urls: Seq<Seq<char>>,
    pub unsubscribe_urls: Seq<Seq<char>>,
    pub all_urls: Seq<Seq<char>>,
}

impl View for ExtractedUrls {
    type V = ExtractedUrlsView;

    open spec fn view(&self) -> ExtractedUrlsView {
        ExtractedUrlsView {
            form_urls: views(self.form_urls@),
            confirmation_urls: views(self.confirmation_urls@),
            unsubscribe_urls: views(self.unsubscribe_urls@),
            all_urls: views(self.all_urls@),
        }
    }
}

pub open spec fn no_urls() -> ExtractedUrlsView {
    ExtractedUrlsView {
        form_urls: Seq::empty(),
        confirmation_urls: Seq::empty(),
        unsubscribe_urls: Seq::empty(),
        all_urls: Seq::empty(),
    }
}

/// One raw candidate, filed: dropped if it does not clean up, has been seen,
/// or is a tracking pixel; otherwise listed, and listed again under each
/// purpose it looks like.
pub open spec fn file_url(acc: ExtractedUrlsView, raw: Seq<char>) -> ExtractedUrlsView {
    match cleaned(raw) {
        None => acc,
        Some(url) => if acc.all_urls.contains(url) || is_tracking(url) {
            acc
        } else {
            let lower = lowercase_of(url);
            ExtractedUrlsView {
                form_urls: if form_score(lower) > 0 {
                    acc.form_urls.push(url)
                } else {
                    acc.form_urls
                },
                confirmation_urls: if contains_any(lower, confirm_patterns()) {
                    acc.confirmation_urls.push(url)
                } else {
                    acc.confirmation_urls
                },
                unsubscribe_urls: if contains(lower, "unsubscribe"@) {
                    acc.unsubscribe_urls.push(url)
                } else {
                    acc.unsubscribe_urls
                },
                all_urls: acc.all_urls.push(url),
            }
        },
    }
}

pub open spec fn filed(cands: Seq<Seq<char>>) -> ExtractedUrlsView
    decreases cands.len(),
{
    if cands.len() == 0 {
        no_urls()
    } else {
        file_url(filed(cands.drop_last()), cands.last())
    }
}

/// Each URL an email holds is listed once, however often it appears.
pub proof fn law_each_url_is_listed_once(cands: Seq<Seq<char>>)
    ensures
        forall|i: int, j: int|
            0 <= i < j < filed(cands).all_urls.len() ==> #[trigger] filed(cands).all_urls[i]
                != #[trigger] filed(cands).all_urls[j],
    decreases cands.len(),
{
    if cands.len() > 0 {
        let acc = filed(cands.drop_last());
        law_each_url_is_listed_once(cands.drop_last());
        let all = filed(cands).all_urls;
        match cleaned(cands.last()) {
            None => {},
            Some(url) => {
                if !(acc.all_urls.contains(url) || is_tracking(url)) {
                    assert forall|i: int, j: int| 0 <= i < j < all.len() implies all[i] != all[j] by {
                        if j == all.len() - 1 {
                            assert(all[j] == url);
                            if all[i] == url {
                                assert(acc.all_urls[i] == url);
                                assert(acc.all_urls.contains(url));
                            }
                        } else {
                            assert(all[i] == acc.all_urls[i]);
                            assert(all[j] == acc.all_urls[j]);
                        }
                    }
                }
            },
        }
    }
}

/// Each sorted list is drawn from the list of every URL, and holds only
/// links that look like its purpose: a form link scores as a form, a
/// confirmation link carries a confirmation pattern, and an unsubscribe
/// link says so.
pub proof fn law_sorted_links_are_listed_links(cands: Seq<Seq<char>>)
    ensures
        forall|k: int|
            0 <= k < filed(cands).form_urls.len() ==> filed(cands).all_urls.contains(
                #[trigger] filed(cands).form_urls[k],
            ) && form_score(lowercase_of(filed(cands).form_urls[k])) > 0,
        forall|k: int|
            0 <= k < filed(cands).confirmation_urls.len() ==> filed(cands).all_urls.contains(
                #[trigger] filed(cands).confirmation_urls[k],
            ) && contains_any(lowercase_of(filed(cands).confirmation_urls[k]), confirm_patterns()),
        forall|k: int|
            0 <= k < filed(cands).unsubscribe_urls.len() ==> filed(cands).all_urls.contains(
                #[trigger] filed(cands).unsubscribe_urls[k],
            ) && contains(lowercase_of(filed(cands).unsubscribe_urls[k]), "unsubscribe"@),
    decreases cands.len(),
{
    if cands.len() > 0 {
        let acc = filed(cands.drop_last());
        law_sorted_links_are_listed_links(cands.drop_last());
        let now = filed(cands);
        assert forall|u: Seq<char>| acc.all_urls.contains(u) implies now.all_urls.contains(u) by {
            let i = choose|i: int| 0 <= i < acc.all_urls.len() && acc.all_urls[i] == u;
            match cleaned(cands.last()) {
                None => {},
                Some(url) => {
                    if !(acc.all_urls.contains(url) || is_tracking(url)) {
                        assert(now.all_urls[i] == u);
                    }
                },
            }
        }
        match cleaned(cands.last()) {
            None => {},
            Some(url) => {
                if !(acc.all_urls.contains(url) || is_tracking(url)) {
                    assert(now.all_urls[now.all_urls.len() - 1] == url);
                    assert(now.all_urls.contains(url));
                }
            },
        }
    }
}

/// Every URL listed is the cleaned form of a candidate in the email (so an
/// http or https link with a host), none is a tracking pixel, and a listed
/// URL is sorted under a purpose exactly when it looks like it.
pub proof fn law_every_listed_link_is_sorted_by_its_look(cands: Seq<Seq<char>>)
    ensures
        forall|k: int|
            0 <= k < filed(cands).all_urls.len() ==> {
                let u = #[trigger] filed(cands).all_urls[k];
                &&& !is_tracking(u)
                &&& exists|j: int| 0 <= j < cands.len() && cleaned(cands[j]) == Some(u)
                &&& filed(cands).form_urls.contains(u) == (form_score(lowercase_of(u)) > 0)
                &&& filed(cands).confirmation_urls.contains(u) == contains_any(
                    lowercase_of(u),
                    confirm_patterns(),
                )
                &&& filed(cands).unsubscribe_urls.contains(u) == contains(
                    lowercase_of(u),
                    "unsubscribe"@,
                )
            },
    decreases cands.len(),
{
    law_sorted_links_are_listed_links(cands);
    if cands.len() > 0 {
        let before = cands.drop_last();
        let acc = filed(before);
        let now = filed(cands);
        law_every_listed_link_is_sorted_by_its_look(before);
        law_sorted_links_are_listed_links(before);
        assert forall|k: int| 0 <= k < now.all_urls.len() implies {
            let u = #[trigger] now.all_urls[k];
            &&& !is_tracking(u)
            &&& exists|j: int| 0 <= j < cands.len() && cleaned(cands[j]) == Some(u)
            &&& now.form_urls.contains(u) == (form_score(lowercase_of(u)) > 0)
            &&& now.confirmation_urls.contains(u) == contains_any(lowercase_of(u), confirm_patterns())
            &&& now.unsubscribe_urls.contains(u) == contains(lowercase_of(u), "unsubscribe"@)
        } by {
            let u = now.all_urls[k];
            match cleaned(cands.last()) {
                None => {
                    let j = choose|j: int| 0 <= j < before.len() && cleaned(before[j]) == Some(u);
                    assert(cands[j] == before[j]);
                },
                Some(url) => {
                    if acc.all_urls.contains(url) || is_tracking(url) {
                        let j = choose|j: int| 0 <= j < before.len() && cleaned(before[j]) == Some(u);
                        assert(cands[j] == before[j]);
                    } else if k < acc.all_urls.len() {
                        assert(u == acc.all_urls[k]);
                        let j = choose|j: int| 0 <= j < before.len() && cleaned(before[j]) == Some(u);
                        assert(cands[j] == before[j]);
                        assert(u != url);
                        if now.form_urls.contains(u) {
                            let i = choose|i: int| 0 <= i < now.form_urls.len() && now.form_urls[i] == u;
                            if i < acc.form_urls.len() {
                                assert(acc.form_urls[i] == u);
                            }
                        }
                        if acc.form_urls.contains(u) {
                            let i = choose|i: int| 0 <= i < acc.form_urls.len() && acc.form_urls[i] == u;
                            assert(now.form_urls[i] == u);
                        }
                        if now.confirmation_urls.contains(u) {
                            let i = choose|i: int|
                                0 <= i < now.confirmation_urls.len() && now.confirmation_urls[i] == u;
                            if i < acc.confirmation_urls.len() {
                                assert(acc.confirmation_urls[i] == u);
                            }
                        }
                        if acc.confirmation_urls.contains(u) {
                            let i = choose|i: int|
                                0 <= i < acc.confirmation_urls.len() && acc.confirmation_urls[i] == u;
                            assert(now.confirmation_urls[i] == u);
                        }
                        if now.unsubscribe_urls.contains(u) {
                            let i = choose|i: int|
                                0 <= i < now.unsubscribe_urls.len() && now.unsubscribe_urls[i] == u;
                            if i < acc.unsubscribe_urls.len() {
                                assert(acc.unsubscribe_urls[i] == u);
                            }
                        }
                        if acc.unsubscribe_urls.contains(u) {
                            let i = choose|i: int|
                                0 <= i < acc.unsubscribe_urls.len() && acc.unsubscribe_urls[i] == u;
                            assert(now.unsubscribe_urls[i] == u);
                        }
                    } else {
                        assert(u == url);
                        assert(cleaned(cands[cands.len() - 1]) == Some(u));
                        if form_score(lowercase_of(u)) > 0 {
                            assert(now.form_urls[now.form_urls.len() - 1] == u);
                        } else if now.form_urls.contains(u) {
                            let i = choose|i: int| 0 <= i < now.form_urls.len() && now.form_urls[i] == u;
                            assert(acc.form_urls[i] == u);
                            assert(acc.all_urls.contains(u));
                        }
                        if contains_any(lowercase_of(u), confirm_patterns()) {
                            assert(now.confirmation_urls[now.confirmation_urls.len() - 1] == u);
                        } else if now.confirmation_urls.contains(u) {
                            let i = choose|i: int|
                                0 <= i < now.confirmation_urls.len() && now.confirmation_urls[i] == u;
                            assert(acc.confirmation_urls[i] == u);
                            assert(acc.all_urls.contains(u));
                        }
                        if contains(lowercase_of(u), "unsubscribe"@) {
                            assert(now.unsubscribe_urls[now.unsubscribe_urls.len() - 1] == u);
                        } else if now.unsubscribe_urls.contains(u) {
                            let i = choose|i: int|
                                0 <= i < now.unsubscribe_urls.len() && now.unsubscribe_urls[i] == u;
                            assert(acc.unsubscribe_urls[i] == u);
                            assert(acc.all_urls.contains(u));
                        }
                    }
                },
            }
        }
    }
}

/// The candidate a domain-aware score puts first among `urls`; the earliest
/// wins a tie.
pub open spec fn best_form(urls: Seq<Seq<char>>, domain: Seq<char>) -> Option<(int, Seq<char>)>
    decreases urls.len(),
{
    if urls.len() == 0 {
        None
    } else {
        let before = best_form(urls.drop_last(), domain);
        let url = urls.last();
        let lower = lowercase_of(url);
        let base = form_score(lower);
        let score = if domain.len() > 0 && contains(lower, lowercase_of(domain)) {
            base + OWN_DOMAIN_BONUS
        } else {
            base
        };
        if base < 0 {
            before
        } else {
            match before {
                Some((best, _)) => if score > best {
                    Some((score, url))
                } else {
                    before
                },
                None => Some((score, url)),
            }
        }
    }
}

/// The first URL whose lowercase holds `lower_domain`.
/// How a candidate form link ranks: its form score, raised when it is on
/// the broker's own domain.
pub open spec fn form_rank(url: Seq<char>, domain: Seq<char>) -> int {
    let lower = lowercase_of(url);
    if domain.len() > 0 && contains(lower, lowercase_of(domain)) {
        form_score(lower) + OWN_DOMAIN_BONUS
    } else {
        form_score(lower)
    }
}

/// The form link chosen is one offered, not disqualified, and ranks at
/// least as high as every other link that is not disqualified, and higher
/// than every one before it, so a tie goes to the first; none is chosen
/// exactly when every link is disqualified.
pub proof fn law_the_best_form_link_is_chosen(urls: Seq<Seq<char>>, domain: Seq<char>)
    ensures
        best_form(urls, domain) is None <==> forall|k: int|
            0 <= k < urls.len() ==> form_score(lowercase_of(#[trigger] urls[k])) < 0,
        best_form(urls, domain) matches Some((sc, u)) ==> {
            &&& urls.contains(u)
            &&& exists|i: int|
                0 <= i < urls.len() && urls[i] == u && forall|k: int|
                    0 <= k < i && form_score(lowercase_of(#[trigger] urls[k])) >= 0 ==> form_rank(
                        urls[k],
                        domain,
                    ) < sc
            &&& sc == form_rank(u, domain)
            &&& form_score(lowercase_of(u)) >= 0
            &&& forall|k: int|
                0 <= k < urls.len() && form_score(lowercase_of(#[trigger] urls[k])) >= 0
                    ==> form_rank(urls[k], domain) <= sc
        },
    decreases urls.len(),
{
    if urls.len() > 0 {
        let rest = urls.drop_last();
        law_the_best_form_link_is_chosen(rest, domain);
        assert forall|k: int| 0 <= k < rest.len() implies rest[k] == urls[k] by {}
        assert(urls[urls.len() - 1] == urls.last());
        if let Some((sc, u)) = best_form(rest, domain) {
            let i = choose|i: int| 0 <= i < rest.len() && rest[i] == u;
            assert(urls[i] == u);
            let w = choose|w: int|
                0 <= w < rest.len() && rest[w] == u && forall|k: int|
                    0 <= k < w && form_score(lowercase_of(#[trigger] rest[k])) >= 0 ==> form_rank(
                        rest[k],
                        domain,
                    ) < sc;
            assert(urls[w] == u);
        }
        let last = urls.len() - 1;
        assert(urls[last] == urls.last());
    }
}

/// The confirmation link chosen is the first on the broker's own domain,
/// or else the first offered; one is chosen exactly when any is offered.
pub proof fn law_the_confirmation_link_prefers_the_broker(
    urls: Seq<Seq<char>>,
    domain: Seq<char>,
)
    ensures
        primary_confirmation(urls, domain) is Some <==> urls.len() > 0,
        primary_confirmation(urls, domain) matches Some(u) ==> urls.contains(u),
        domain.len() > 0 && first_on_domain(urls, lowercase_of(domain)) is Some
            ==> primary_confirmation(urls, domain) == first_on_domain(urls, lowercase_of(domain)),
        (domain.len() == 0 || first_on_domain(urls, lowercase_of(domain)) is None) && urls.len()
            > 0 ==> primary_confirmation(urls, domain) == Some(urls[0]),
{
    lemma_first_on_domain_offered(urls, lowercase_of(domain));
    if urls.len() > 0 {
        assert(urls[0] == urls[0]);
    }
}

/// What `first_on_domain` finds is one of the links offered.
proof fn lemma_first_on_domain_offered(urls: Seq<Seq<char>>, lower_domain: Seq<char>)
    ensures
        first_on_domain(urls, lower_domain) matches Some(u) ==> urls.contains(u)
            && contains(lowercase_of(u), lower_domain),
    decreases urls.len(),
{
    if urls.len() > 0 {
        lemma_first_on_domain_offered(urls.drop_first(), lower_domain);
        if let Some(u) = first_on_domain(urls.drop_first(), lower_domain) {
            if !contains(lowercase_of(urls[0]), lower_domain) {
                let k = choose|k: int|
                    0 <= k < urls.drop_first().len() && urls.drop_first()[k] == u;
                assert(urls[k + 1] == u);
            }
        }
        assert(urls[0] == urls[0]);
    }
}

pub open spec fn first_on_domain(urls: Seq<Seq<char>>, lower_domain: Seq<char>) -> Option<Seq<char>>
    decreases urls.len(),
{
    if urls.len() == 0 {
        None
    } else if contains(lowercase_of(urls[0]), lower_domain) {
        Some(urls[0])
    } else {
        first_on_domain(urls.drop_first(), lower_domain)
    }
}

pub open spec fn primary_confirmation(urls: Seq<Seq<char>>, domain: Seq<char>) -> Option<Seq<char>> {
    let on_domain = if domain.len() > 0 {
        first_on_domain(urls, lowercase_of(domain))
    } else {
        None
    };
    match on_domain {
        Some(u) => Some(u),
        None => if urls.len() > 0 {
            Some(urls[0])
        } else {
            None
        },
    }
}

/// The text a bounce notice is searched in: the plain part, the HTML part
/// without its tags, then the subject.
pub open spec fn bounce_content(e: Email) -> Seq<char> {
    let with_html = if e.html_body@.len() > 0 {
        e.body@ + " "@ + stripped(e.html_body@)
    } else {
        e.body@
    };
    with_html + " "@ + e.subject@
}

/// The address the first bounce pattern that names one names.
pub open spec fn named_recipient(patterns: Seq<&'static str>, content: Seq<char>) -> Option<Seq<char>>
    decreases patterns.len(),
{
    if patterns.len() == 0 {
        None
    } else {
        match regex_first_capture(patterns[0]@, content) {
            Some(Some(Some(address))) => Some(trim(address)),
            _ => named_recipient(patterns.drop_first(), content),
        }
    }
}

/// The first address that is neither infrastructure nor a webmail sender.
pub open spec fn first_outside_address(found: Seq<Seq<char>>) -> Option<Seq<char>>
    decreases found.len(),
{
    if found.len() == 0 {
        None
    } else if !contains_any(lowercase_of(found[0]), not_bounced_patterns()) {
        Some(found[0])
    } else {
        first_outside_address(found.drop_first())
    }
}

pub open spec fn bounced_recipient(e: Email) -> Option<Seq<char>> {
    let content = bounce_content(e);
    match named_recipient(bounced_recipient_patterns(), content) {
        Some(a) => Some(a),
        None => first_outside_address(found_or_none(regex_found(email_address_pattern(), content))),
    }
}

/// The query parameters a token is looked for under, in order.
pub open spec fn token_params() -> Seq<&'static str> {
    seq!["token", "code", "verify", "confirmation", "key", "id"]
}

fn token_param_list() -> (v: Vec<&'static str>)
    ensures
        v@ == token_params(),
{
    vec!["token", "code", "verify", "confirmation", "key", "id"]
}

/// The value of the first pair named `name`, if there is such a pair.
pub open spec fn first_value(pairs: Seq<(Seq<char>, Seq<char>)>, name: Seq<char>) -> Option<Seq<char>>
    decreases pairs.len(),
{
    if pairs.len() == 0 {
        None
    } else if pairs[0].0 == name {
        Some(pairs[0].1)
    } else {
        first_value(pairs.drop_first(), name)
    }
}

/// The first named parameter, in `names` order, whose first pair carries a
/// non-empty value.
pub open spec fn query_token(pairs: Seq<(Seq<char>, Seq<char>)>, names: Seq<&'static str>) -> Option<Seq<char>>
    decreases names.len(),
{
    if names.len() == 0 {
        None
    } else {
        match first_value(pairs, names[0]@) {
            Some(v) => if v.len() > 0 {
                Some(v)
            } else {
                query_token(pairs, names.drop_first())
            },
            None => query_token(pairs, names.drop_first()),
        }
    }
}

/// `s.split(c)`: the pieces between occurrences of `c`.
pub open spec fn split_on(s: Seq<char>, c: char) -> Seq<Seq<char>>
    decreases s.len(),
{
    if s.len() == 0 {
        seq![Seq::<char>::empty()]
    } else {
        let p = split_on(s.drop_last(), c);
        if s.last() == c {
            p.push(Seq::empty())
        } else {
            p.update(p.len() - 1, p.last().push(s.last()))
        }
    }
}

/// UTF-8 length of a character.
pub open spec fn char_width(c: char) -> nat {
    let u = c as u32;
    if u < 0x80 {
        1
    } else if u < 0x800 {
        2
    } else if u < 0x10000 {
        3
    } else {
        4
    }
}

/// UTF-8 length of a string: what `str::len` gives.
pub open spec fn utf8_len(s: Seq<char>) -> nat
    decreases s.len(),
{
    if s.len() == 0 {
        0
    } else {
        utf8_len(s.drop_last()) + char_width(s.last())
    }
}

/// The segment after the first `confirm` or `verify` segment whose
/// successor is longer than ten bytes.
pub open spec fn path_token(segments: Seq<Seq<char>>) -> Option<Seq<char>>
    decreases segments.len(),
{
    if segments.len() < 2 {
        None
    } else if (segments[0] == "confirm"@ || segments[0] == "verify"@) && utf8_len(segments[1])
        > 10 {
        Some(segments[1])
    } else {
        path_token(segments.drop_first())
    }
}

/// ASCII text takes one byte a character.
proof fn lemma_ascii_utf8_len(s: Seq<char>)
    requires
        forall|i: int| 0 <= i < s.len() ==> (#[trigger] s[i] as u32) < 0x80,
    ensures
        utf8_len(s) == s.len(),
    decreases s.len(),
{
    if s.len() > 0 {
        assert forall|i: int| 0 <= i < s.drop_last().len() implies (#[trigger] s.drop_last()[i] as u32) < 0x80 by {
            assert(s.drop_last()[i] == s[i]);
        }
        lemma_ascii_utf8_len(s.drop_last());
        assert((s[s.len() - 1] as u32) < 0x80);
    }
}

/// The markers are short: neither is itself taken for a token.
proof fn lemma_markers_are_short()
    ensures
        utf8_len("verify"@) <= 10,
        utf8_len("confirm"@) <= 10,
        "verify"@ != "confirm"@,
{
    reveal_strlit("verify");
    reveal_strlit("confirm");
    assert("verify"@.len() != "confirm"@.len());
    assert forall|i: int| 0 <= i < "verify"@.len() implies (#[trigger] "verify"@[i] as u32) < 0x80 by {
        assert("verify"@[i] == 'v' || "verify"@[i] == 'e' || "verify"@[i] == 'r' || "verify"@[i]
            == 'i' || "verify"@[i] == 'f' || "verify"@[i] == 'y');
    }
    assert forall|i: int| 0 <= i < "confirm"@.len() implies (#[trigger] "confirm"@[i] as u32) < 0x80 by {
        assert("confirm"@[i] == 'c' || "confirm"@[i] == 'o' || "confirm"@[i] == 'n' || "confirm"@[i]
            == 'f' || "confirm"@[i] == 'i' || "confirm"@[i] == 'r' || "confirm"@[i] == 'm');
    }
    lemma_ascii_utf8_len("verify"@);
    lemma_ascii_utf8_len("confirm"@);
}

/// A `verify` segment marks a token exactly as a `confirm` segment does:
/// swapping one for the other anywhere in a path never changes the token
/// found; a path that begins with either marker followed by a segment
/// longer than ten bytes has that segment as its token, and a marker
/// followed only by a segment of ten bytes or fewer yields none.
pub proof fn law_verify_marks_a_token_like_confirm(
    segments: Seq<Seq<char>>,
    i: int,
    token: Seq<char>,
    rest: Seq<Seq<char>>,
)
    ensures
        0 <= i < segments.len() ==> path_token(segments.update(i, "verify"@)) == path_token(
            segments.update(i, "confirm"@),
        ),
        utf8_len(token) > 10 ==> path_token(seq!["verify"@, token] + rest) == Some(token)
            && path_token(seq!["confirm"@, token] + rest) == Some(token),
        utf8_len(token) <= 10 ==> path_token(seq!["verify"@, token]) is None && path_token(
            seq!["confirm"@, token],
        ) is None,
    decreases segments.len(),
{
    assert((seq!["verify"@, token] + rest)[0] == "verify"@);
    assert((seq!["verify"@, token] + rest)[1] == token);
    assert((seq!["confirm"@, token] + rest)[0] == "confirm"@);
    assert((seq!["confirm"@, token] + rest)[1] == token);
    assert(seq!["verify"@, token].drop_first() =~= seq![token]);
    assert(seq!["confirm"@, token].drop_first() =~= seq![token]);
    assert(path_token(seq![token]) is None);
    if 0 <= i < segments.len() {
        let v = segments.update(i, "verify"@);
        let c = segments.update(i, "confirm"@);
        if segments.len() >= 2 {
            if i == 0 {
                assert(v.drop_first() =~= c.drop_first());
                assert(v[1] == c[1]);
            } else {
                law_verify_marks_a_token_like_confirm(segments.drop_first(), i - 1, token, rest);
                assert(v.drop_first() =~= segments.drop_first().update(i - 1, "verify"@));
                assert(c.drop_first() =~= segments.drop_first().update(i - 1, "confirm"@));
                assert(v[0] == c[0]);
                if i == 1 {
                    lemma_markers_are_short();
                } else {
                    assert(v[1] == c[1]);
                }
            }
        }
    }
}

pub open spec fn confirmation_token(url: Seq<char>) -> Option<Seq<char>> {
    match parsed_url(url) {
        None => None,
        Some(p) => match query_token(p.query, token_params()) {
            Some(t) => Some(t),
            None => path_token(split_on(p.path, '/')),
        },
    }
}

// ---------------------------------------------------------------------
// Scoring
// ---------------------------------------------------------------------

fn count_contained_exec(hay: &[char], needles: &Vec<&'static str>) -> (n: u32)
    requires
        needles@.len() < 1000,
    ensures
        n == count_contained(hay@, needles@),
        n <= needles@.len(),
{
    let mut n: u32 = 0;
    let mut k: usize = 0;
    while k < needles.len()
        invariant
            k <= needles@.len(),
            needles@.len() < 1000,
            n == count_contained(hay@, needles@.take(k as int)),
            n <= k,
        decreases needles@.len() - k,
    {
        proof {
            assert(needles@.take(k + 1).drop_last() == needles@.take(k as int));
        }
        let needle = crate::text::chars_of(needles[k]);
        if crate::text::contains_chars(hay, &needle) {
            n = n + 1;
        }
        k = k + 1;
    }
    assert(needles@.take(needles@.len() as int) == needles@);
    n
}

fn form_score_chars(lower: &[char]) -> (s: i32)
    ensures
        s == form_score(lower@),
{
    if crate::text::contains_any_of(lower, &not_form_list()) {
        return DISQUALIFIED;
    }
    let strong = count_contained_exec(lower, &strong_form_list());
    let moderate = count_contained_exec(lower, &moderate_form_list());
    let base = 10 * (strong as i32) + 5 * (moderate as i32);
    if base > 0 {
        let weak = count_contained_exec(lower, &weak_form_list());
        base + 2 * (weak as i32)
    } else {
        base
    }
}

/// How much a URL looks like an opt-out form.
///
/// A disqualifying pattern short-circuits to [`DISQUALIFIED`]: a link to a
/// privacy policy is not made into a form by also containing "remove".
pub fn score_form_url(lower_url: &str) -> (s: i32)
    ensures
        s == form_score(lower_url@),
{
    let lower = crate::text::chars_of(lower_url);
    form_score_chars(&lower)
}

pub fn is_form_url(lower_url: &str) -> (r: bool)
    ensures
        r == (form_score(lower_url@) > 0),
{
    score_form_url(lower_url) > 0
}

pub fn is_confirmation_url(lower_url: &str) -> (r: bool)
    ensures
        r == contains_any(lower_url@, confirm_patterns()),
{
    let lower = crate::text::chars_of(lower_url);
    crate::text::contains_any_of(&lower, &confirm_list())
}

/// Whether a URL is an open-tracking pixel rather than a link.
pub fn is_tracking_url(url: &str) -> (r: bool)
    ensures
        r == is_tracking(url@),
{
    let lower_s = crate::text::lowercase(url);
    let lower = crate::text::chars_of(lower_s.as_str());
    if crate::text::contains_any_of(&lower, &tracking_list()) {
        return true;
    }
    let gif = crate::text::ends_with_str(lower_s.as_str(), ".gif");
    let png = crate::text::ends_with_str(lower_s.as_str(), ".png");
    let pixel = crate::text::contains_str(lower_s.as_str(), "pixel");
    gif || (png && pixel)
}

// ---------------------------------------------------------------------
// Extraction
// ---------------------------------------------------------------------

/// Remove HTML tags, leaving the text between them.
pub fn strip_tags(html: &str) -> (r: String)
    ensures
        r@ == stripped(html@),
{
    match crate::patterns::replace_all(r"<[^>]+>", html, " ") {
        Some(t) => t,
        None => html.to_owned(),
    }
}

fn urls_in_text(text: &str) -> (r: Vec<String>)
    ensures
        views(r@) == text_urls(text@),
{
    match crate::patterns::find_all(r#"https?://[^\s<>"']+"#, text) {
        Some(v) => v,
        None => {
            let v: Vec<String> = Vec::new();
            assert(views(v@) =~= Seq::<Seq<char>>::empty());
            v
        },
    }
}

/// Every `href`, plus any bare URL in the visible text.
fn urls_in_html(html: &str) -> (r: Vec<String>)
    ensures
        views(r@) == html_urls(html@),
{
    let mut urls: Vec<String> = Vec::new();
    match crate::patterns::captures_all(r#"(?i)<a[^>]+href\s*=\s*["']([^"']+)["']"#, html) {
        Some(caps) => {
            let ghost cv = caps@.map_values(|o: Option<String>| option_view(o));
            let mut i: usize = 0;
            while i < caps.len()
                invariant
                    i <= caps@.len(),
                    cv == caps@.map_values(|o: Option<String>| option_view(o)),
                    views(urls@) == somes(cv.take(i as int)),
                decreases caps@.len() - i,
            {
                proof {
                    assert(cv.take(i + 1).drop_last() == cv.take(i as int));
                }
                match &caps[i] {
                    Some(u) => {
                        urls.push(u.clone());
                        assert(views(urls@) =~= somes(cv.take(i + 1)));
                    },
                    None => {},
                }
                i = i + 1;
            }
            assert(cv.take(caps@.len() as int) == cv);
        },
        None => {
            assert(views(urls@) =~= somes(Seq::empty()));
        },
    }
    let stripped_html = strip_tags(html);
    let more = urls_in_text(stripped_html.as_str());
    let ghost before = views(urls@);
    append_strings(&mut urls, &more);
    urls
}

/// Append clones of every string of `tail`.
pub fn append_strings(out: &mut Vec<String>, tail: &Vec<String>)
    ensures
        views(final(out)@) == views(old(out)@) + views(tail@),
{
    let mut i: usize = 0;
    while i < tail.len()
        invariant
            i <= tail@.len(),
            views(out@) == views(old(out)@) + views(tail@).take(i as int),
        decreases tail@.len() - i,
    {
        let ghost prev = views(out@);
        let item = tail[i].clone();
        out.push(item);
        assert(views(out@) =~= prev.push(tail@[i as int]@));
        assert(views(tail@).take(i + 1) =~= views(tail@).take(i as int).push(tail@[i as int]@));
        i = i + 1;
    }
    assert(views(tail@).take(tail@.len() as int) == views(tail@));
}

/// Normalise a URL, rejecting anything that is not http(s) with a host.
fn clean_url(raw: &str) -> (r: Option<String>)
    ensures
        option_view(r) == cleaned(raw@),
{
    let chars = crate::text::chars_of(raw);
    let punct = vec!['.', ',', ';', ':', '!', '?', ')'];
    assert(punct@ == trailing_punctuation());
    let kept = crate::text::trim_end_matching(&chars, &punct);
    let trimmed = crate::text::string_of(&kept);
    match crate::weburl::parse_url(trimmed.as_str()) {
        None => None,
        Some(parts) => {
            let http = crate::text::same_text(parts.scheme.as_str(), "http");
            let https = crate::text::same_text(parts.scheme.as_str(), "https");
            let has_host = match &parts.host {
                Some(h) => !h.as_str().is_empty(),
                None => false,
            };
            if (http || https) && has_host {
                Some(parts.text)
            } else {
                None
            }
        },
    }
}

/// Whether `list` holds a string equal to `s`.
pub fn holds_string(list: &Vec<String>, s: &str) -> (r: bool)
    ensures
        r == views(list@).contains(s@),
{
    let mut i: usize = 0;
    while i < list.len()
        invariant
            i <= list@.len(),
            forall|j: int| 0 <= j < i ==> list@[j]@ != s@,
        decreases list@.len() - i,
    {
        if crate::text::same_text(list[i].as_str(), s) {
            assert(views(list@)[i as int] == s@);
            return true;
        }
        i = i + 1;
    }
    assert(!views(list@).contains(s@)) by {
        if views(list@).contains(s@) {
            let k = choose|k: int| 0 <= k < views(list@).len() && views(list@)[k] == s@;
            assert(list@[k]@ == s@);
        }
    }
    false
}

/// Extract and categorise every URL in an email.
pub fn parse_email_urls(email: &Email) -> (r: ExtractedUrls)
    ensures
        r@ == filed(candidate_urls(*email)),
{
    let mut candidates: Vec<String> = Vec::new();
    if !email.body.as_str().is_empty() {
        let found = urls_in_text(email.body.as_str());
        append_strings(&mut candidates, &found);
    }
    if !email.html_body.as_str().is_empty() {
        let found = urls_in_html(email.html_body.as_str());
        append_strings(&mut candidates, &found);
    }
    assert(views(candidates@) =~= candidate_urls(*email));
    let ghost cands = views(candidates@);
    let mut result = ExtractedUrls {
        form_urls: Vec::new(),
        confirmation_urls: Vec::new(),
        unsubscribe_urls: Vec::new(),
        all_urls: Vec::new(),
    };
    assert(result@ =~= no_urls());
    assert(cands.take(0) =~= Seq::<Seq<char>>::empty());
    let mut i: usize = 0;
    while i < candidates.len()
        invariant
            i <= candidates@.len(),
            cands == views(candidates@),
            result@ == filed(cands.take(i as int)),
        decreases candidates@.len() - i,
    {
        proof {
            assert(cands.take(i + 1).drop_last() == cands.take(i as int));
            assert(cands.take(i + 1).last() == candidates@[i as int]@);
        }
        file_candidate(&mut result, candidates[i].as_str());
        i = i + 1;
    }
    assert(cands.take(candidates@.len() as int) == cands);
    result
}

fn file_candidate(result: &mut ExtractedUrls, raw: &str)
    ensures
        final(result)@ == file_url(old(result)@, raw@),
{
    let Some(url) = clean_url(raw) else {
        return;
    };
    if holds_string(&result.all_urls, url.as_str()) {
        return;
    }
    if is_tracking_url(url.as_str()) {
        return;
    }
    let lower = crate::text::lowercase(url.as_str());
    result.all_urls.push(url.clone());
    if is_form_url(lower.as_str()) {
        result.form_urls.push(url.clone());
    }
    if is_confirmation_url(lower.as_str()) {
        result.confirmation_urls.push(url.clone());
    }
    if crate::text::contains_str(lower.as_str(), "unsubscribe") {
        result.unsubscribe_urls.push(url);
    }
    proof {
        let acc = old(result)@;
        let u = url@;
        assert(result@.all_urls =~= acc.all_urls.push(u));
        assert(result@.form_urls =~= (if form_score(lowercase_of(u)) > 0 {
            acc.form_urls.push(u)
        } else {
            acc.form_urls
        }));
        assert(result@.confirmation_urls =~= (if contains_any(lowercase_of(u), confirm_patterns()) {
            acc.confirmation_urls.push(u)
        } else {
            acc.confirmation_urls
        }));
        assert(result@.unsubscribe_urls =~= (if contains(lowercase_of(u), "unsubscribe"@) {
            acc.unsubscribe_urls.push(u)
        } else {
            acc.unsubscribe_urls
        }));
    }
}

impl ExtractedUrls {
    pub fn is_empty(&self) -> (r: bool)
        ensures
            r == (self@.all_urls.len() == 0),
    {
        self.all_urls.len() == 0
    }
}

// ---------------------------------------------------------------------
// Choosing the primary links
// ---------------------------------------------------------------------

/// The single most likely opt-out form among the candidates.
pub fn primary_form_url(urls: &ExtractedUrls, broker_domain: &str) -> (r: Option<String>)
    ensures
        option_view(r) == (match best_form(urls@.form_urls, broker_domain@) {
            Some((_, u)) => Some(u),
            None => None,
        }),
{
    let ghost fs = urls@.form_urls;
    let has_domain = !broker_domain.is_empty();
    let lower_domain = crate::text::lowercase(broker_domain);
    let mut best: Option<(i32, usize)> = None;
    let mut i: usize = 0;
    while i < urls.form_urls.len()
        invariant
            i <= urls.form_urls@.len(),
            fs == urls@.form_urls,
            has_domain == (broker_domain@.len() > 0),
            lower_domain@ == lowercase_of(broker_domain@),
            match best {
                Some((s, k)) => k < i && best_form(fs.take(i as int), broker_domain@) == Some(
                    (s as int, fs[k as int]),
                ),
                None => best_form(fs.take(i as int), broker_domain@) is None,
            },
        decreases urls.form_urls@.len() - i,
    {
        let lower = crate::text::lowercase(urls.form_urls[i].as_str());
        let lower_chars = crate::text::chars_of(lower.as_str());
        let base = form_score_chars(&lower_chars);
        proof {
            assert(fs.take(i + 1).drop_last() == fs.take(i as int));
            assert(fs.take(i + 1).last() == fs[i as int]);
            lemma_form_score_bounds(lower@);
        }
        if base >= 0 {
            let score = if has_domain && crate::text::contains_str(
                lower.as_str(),
                lower_domain.as_str(),
            ) {
                base + OWN_DOMAIN_BONUS
            } else {
                base
            };
            match best {
                Some((s, _)) => {
                    if score > s {
                        best = Some((score, i));
                    }
                },
                None => {
                    best = Some((score, i));
                },
            }
        }
        i = i + 1;
    }
    assert(fs.take(urls.form_urls@.len() as int) == fs);
    match best {
        Some((_, k)) => Some(urls.form_urls[k].clone()),
        None => None,
    }
}

proof fn lemma_count_contained_bound(hay: Seq<char>, needles: Seq<&'static str>)
    ensures
        count_contained(hay, needles) <= needles.len(),
    decreases needles.len(),
{
    if needles.len() > 0 {
        lemma_count_contained_bound(hay, needles.drop_last());
    }
}

proof fn lemma_form_score_bounds(lower: Seq<char>)
    ensures
        -20 <= form_score(lower) <= 400,
{
    lemma_count_contained_bound(lower, strong_form_patterns());
    lemma_count_contained_bound(lower, moderate_form_patterns());
    lemma_count_contained_bound(lower, weak_form_patterns());
}

/// The confirmation link to click, preferring the broker's own domain.
pub fn primary_confirmation_url(urls: &ExtractedUrls, broker_domain: &str) -> (r: Option<String>)
    ensures
        option_view(r) == primary_confirmation(urls@.confirmation_urls, broker_domain@),
{
    let ghost cs = urls@.confirmation_urls;
    if !broker_domain.is_empty() {
        let domain = crate::text::lowercase(broker_domain);
        let mut i: usize = 0;
        assert(cs.skip(0) == cs);
        while i < urls.confirmation_urls.len()
            invariant
                i <= urls.confirmation_urls@.len(),
                cs == urls@.confirmation_urls,
                domain@ == lowercase_of(broker_domain@),
                broker_domain@.len() > 0,
                first_on_domain(cs, domain@) == first_on_domain(cs.skip(i as int), domain@),
            decreases urls.confirmation_urls@.len() - i,
        {
            let lower = crate::text::lowercase(urls.confirmation_urls[i].as_str());
            proof {
                let t = cs.skip(i as int);
                assert(t[0] == cs[i as int]);
                assert(t.drop_first() == cs.skip(i + 1));
            }
            if crate::text::contains_str(lower.as_str(), domain.as_str()) {
                assert(first_on_domain(cs, domain@) == Some(cs[i as int]));
                assert(primary_confirmation(cs, broker_domain@) == Some(cs[i as int]));
                let found = urls.confirmation_urls[i].clone();
                assert(found@ == cs[i as int]);
                assert(option_view(Some(found)) == Some(found@));
                return Some(found);
            }
            i = i + 1;
        }
    }
    if urls.confirmation_urls.len() > 0 {
        Some(urls.confirmation_urls[0].clone())
    } else {
        None
    }
}

// ---------------------------------------------------------------------
// Bounces and tokens
// ---------------------------------------------------------------------

/// Which address a bounce notice is about.
///
/// This is what makes cleaning up dead addresses possible: an address that
/// bounces is one no request will ever reach.
pub fn extract_bounced_recipient(email: &Email) -> (r: Option<String>)
    ensures
        option_view(r) == bounced_recipient(*email),
{
    let mut content = email.body.clone();
    if !email.html_body.as_str().is_empty() {
        let with_space = crate::text::concat(content.as_str(), " ");
        let stripped_html = strip_tags(email.html_body.as_str());
        content = crate::text::concat(with_space.as_str(), stripped_html.as_str());
    }
    let spaced = crate::text::concat(content.as_str(), " ");
    let content = crate::text::concat(spaced.as_str(), email.subject.as_str());
    assert(content@ == bounce_content(*email));

    let patterns = bounced_recipient_list();
    let mut i: usize = 0;
    assert(patterns@.skip(0) == patterns@);
    while i < patterns.len()
        invariant
            i <= patterns@.len(),
            patterns@ == bounced_recipient_patterns(),
            content@ == bounce_content(*email),
            named_recipient(patterns@, content@) == named_recipient(
                patterns@.skip(i as int),
                content@,
            ),
        decreases patterns@.len() - i,
    {
        proof {
            let t = patterns@.skip(i as int);
            assert(t[0] == patterns@[i as int]);
            assert(t.drop_first() == patterns@.skip(i + 1));
        }
        match crate::patterns::first_capture(patterns[i], content.as_str()) {
            Some(Some(Some(address))) => {
                assert(named_recipient(patterns@, content@) == Some(trim(address@)));
                return Some(crate::text::trim_str(address.as_str()));
            },
            _ => {},
        }
        i = i + 1;
    }
    let found = match crate::patterns::find_all(
        r"[a-zA-Z0-9._%+-]+@[a-zA-Z0-9.-]+\.[a-zA-Z]{2,}",
        content.as_str(),
    ) {
        Some(v) => v,
        None => Vec::new(),
    };
    let ghost fv = views(found@);
    assert(fv =~= found_or_none(regex_found(email_address_pattern(), content@)));
    let excluded = not_bounced_list();
    let mut j: usize = 0;
    assert(fv.skip(0) == fv);
    assert(named_recipient(patterns@, content@) is None) by {
        assert(patterns@.skip(patterns@.len() as int).len() == 0);
    }
    while j < found.len()
        invariant
            j <= found@.len(),
            fv == views(found@),
            excluded@ == not_bounced_patterns(),
            content@ == bounce_content(*email),
            named_recipient(bounced_recipient_patterns(), content@) is None,
            fv == found_or_none(regex_found(email_address_pattern(), content@)),
            first_outside_address(fv) == first_outside_address(fv.skip(j as int)),
        decreases found@.len() - j,
    {
        proof {
            let t = fv.skip(j as int);
            assert(t[0] == found@[j as int]@);
            assert(t.drop_first() == fv.skip(j + 1));
        }
        let lower = crate::text::lowercase(found[j].as_str());
        let lower_chars = crate::text::chars_of(lower.as_str());
        if !crate::text::contains_any_of(&lower_chars, &excluded) {
            assert(first_outside_address(fv) == Some(found@[j as int]@));
            return Some(found[j].clone());
        }
        j = j + 1;
    }
    None
}

/// `s.split(c)`.
fn split_chars(s: &[char], c: char) -> (r: Vec<Vec<char>>)
    ensures
        r@.map_values(|v: Vec<char>| v@) == split_on(s@, c),
{
    let mut pieces: Vec<Vec<char>> = Vec::new();
    let mut current: Vec<char> = Vec::new();
    let mut i: usize = 0;
    while i < s.len()
        invariant
            i <= s@.len(),
            pieces@.map_values(|v: Vec<char>| v@).push(current@) == split_on(s@.take(i as int), c),
        decreases s@.len() - i,
    {
        proof {
            assert(s@.take(i + 1).drop_last() == s@.take(i as int));
            assert(s@.take(i + 1).last() == s@[i as int]);
        }
        if s[i] == c {
            let done = current;
            pieces.push(done);
            current = Vec::new();
            assert(pieces@.map_values(|v: Vec<char>| v@).push(current@) =~= split_on(
                s@.take(i + 1),
                c,
            ));
        } else {
            current.push(s[i]);
            assert(pieces@.map_values(|v: Vec<char>| v@).push(current@) =~= split_on(
                s@.take(i + 1),
                c,
            ));
        }
        i = i + 1;
    }
    assert(s@.take(s@.len() as int) == s@);
    pieces.push(current);
    assert(pieces@.map_values(|v: Vec<char>| v@) =~= split_on(s@, c));
    pieces
}

/// The UTF-8 length of a string of characters.
fn utf8_len_exec(s: &[char]) -> (n: usize)
    requires
        s@.len() < 0x1000_0000,
    ensures
        n == utf8_len(s@),
{
    let mut n: usize = 0;
    let mut i: usize = 0;
    while i < s.len()
        invariant
            i <= s@.len(),
            s@.len() < 0x1000_0000,
            n == utf8_len(s@.take(i as int)),
            n <= 4 * i,
        decreases s@.len() - i,
    {
        proof {
            assert(s@.take(i + 1).drop_last() == s@.take(i as int));
        }
        let u = s[i] as u32;
        let w: usize = if u < 0x80 {
            1
        } else if u < 0x800 {
            2
        } else if u < 0x10000 {
            3
        } else {
            4
        };
        n = n + w;
        i = i + 1;
    }
    assert(s@.take(s@.len() as int) == s@);
    n
}

/// The token in a confirmation link, if it carries one.
pub fn extract_confirmation_token(confirm_url: &str) -> (r: Option<String>)
    ensures
        option_view(r) == confirmation_token(confirm_url@),
{
    let Some(parts) = crate::weburl::parse_url(confirm_url) else {
        return None;
    };
    let ghost pairs = parts@.query;
    let names = token_param_list();
    let mut k: usize = 0;
    assert(names@.skip(0) == names@);
    while k < names.len()
        invariant
            k <= names@.len(),
            names@ == token_params(),
            pairs == parts@.query,
            parsed_url(confirm_url@) == Some(parts@),
            query_token(pairs, names@) == query_token(pairs, names@.skip(k as int)),
        decreases names@.len() - k,
    {
        proof {
            let t = names@.skip(k as int);
            assert(t[0] == names@[k as int]);
            assert(t.drop_first() == names@.skip(k + 1));
        }
        let value = first_query_value(&parts.query, names[k]);
        match value {
            Some(v) => {
                if !v.as_str().is_empty() {
                    assert(query_token(pairs, names@) == Some(v@));
                    return Some(v);
                }
            },
            None => {},
        }
        k = k + 1;
    }
    let path = crate::text::chars_of(parts.path.as_str());
    let segments = split_chars(&path, '/');
    let ghost segs = segments@.map_values(|v: Vec<char>| v@);
    let confirm = crate::text::chars_of("confirm");
    let verify = crate::text::chars_of("verify");
    let mut j: usize = 0;
    assert(names@.skip(names@.len() as int).len() == 0);
    assert(query_token(pairs, names@) is None);
    assert(segs.skip(0) == segs);
    while j < segments.len() && segments.len() - j > 1
        invariant
            segs == segments@.map_values(|v: Vec<char>| v@),
            confirm@ == "confirm"@,
            verify@ == "verify"@,
            path_token(segs) == path_token(segs.skip(j as int)),
            j <= segments@.len(),
            parsed_url(confirm_url@) == Some(parts@),
            query_token(parts@.query, token_params()) is None,
            segs == split_on(parts@.path, '/'),
        decreases segments@.len() - j,
    {
        proof {
            let t = segs.skip(j as int);
            assert(t[0] == segments@[j as int]@);
            assert(t[1] == segments@[j + 1]@);
            assert(t.drop_first() == segs.skip(j + 1));
        }
        let marker = &segments[j];
        let candidate = &segments[j + 1];
        let is_marker = crate::text::chars_equal(marker, &confirm) || crate::text::chars_equal(
            marker,
            &verify,
        );
        if is_marker {
            if candidate.len() < 0x1000_0000 && utf8_len_exec(candidate) > 10 {
                assert(path_token(segs) == Some(candidate@));
                return Some(crate::text::string_of(candidate));
            }
            if candidate.len() >= 0x1000_0000 {
                proof {
                    lemma_utf8_len_at_least(candidate@);
                }
                assert(path_token(segs) == Some(candidate@));
                return Some(crate::text::string_of(candidate));
            }
        }
        j = j + 1;
    }
    proof {
        let t = segs.skip(j as int);
        assert(t.len() < 2);
    }
    None
}

proof fn lemma_utf8_len_at_least(s: Seq<char>)
    ensures
        utf8_len(s) >= s.len(),
    decreases s.len(),
{
    if s.len() > 0 {
        lemma_utf8_len_at_least(s.drop_last());
    }
}

/// The value of the first pair named `name`.
fn first_query_value(pairs: &Vec<(String, String)>, name: &str) -> (r: Option<String>)
    ensures
        option_view(r) == first_value(
            pairs@.map_values(|p: (String, String)| (p.0@, p.1@)),
            name@,
        ),
{
    let ghost pv = pairs@.map_values(|p: (String, String)| (p.0@, p.1@));
    let mut i: usize = 0;
    assert(pv.skip(0) == pv);
    while i < pairs.len()
        invariant
            i <= pairs@.len(),
            pv == pairs@.map_values(|p: (String, String)| (p.0@, p.1@)),
            first_value(pv, name@) == first_value(pv.skip(i as int), name@),
        decreases pairs@.len() - i,
    {
        proof {
            let t = pv.skip(i as int);
            assert(t[0] == (pairs@[i as int].0@, pairs@[i as int].1@));
            assert(t.drop_first() == pv.skip(i + 1));
        }
        if crate::text::same_text(pairs[i].0.as_str(), name) {
            assert(first_value(pv, name@) == Some(pairs@[i as int].1@));
            return Some(pairs[i].1.clone());
        }
        i = i + 1;
    }
    None
}

} // verus!
