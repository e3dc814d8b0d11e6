//! Request letters: the data a template can reference, the fixed subject
//! lines, the descriptions of the templates, and rendering a letter from a
//! template's source with the template engine.

use vstd::prelude::*;

use crate::broker::Broker;
use crate::config::Profile;

pub use crate::config::DEFAULT_TEMPLATE;

verus! {

/// Everything a request template can reference.
#[derive(Debug, Clone, Default, PartialEq, Eq)]
pub struct EmailData {
    pub first_name: String,
    pub last_name: String,
    pub full_name: String,
    pub email: String,
    pub address: String,
    pub city: String,
    pub state: String,
    pub zip_code: String,
    pub country: String,
    pub phone: String,
    pub date_of_birth: String,
    pub broker_name: String,
    pub broker_email: String,
    pub broker_website: String,
    pub broker_opt_out: String,
    /// The letter's date, written out: "January 2, 2006".
    pub date: String,
    pub year: i32,
    /// This month's name.
    pub month: String,
    pub template: String,
}

/// The English name of month `m`, January being 1.
pub open spec fn month_name(m: u32) -> Seq<char> {
    if m == 1 {
        "January"@
    } else if m == 2 {
        "February"@
    } else if m == 3 {
        "March"@
    } else if m == 4 {
        "April"@
    } else if m == 5 {
        "May"@
    } else if m == 6 {
        "June"@
    } else if m == 7 {
        "July"@
    } else if m == 8 {
        "August"@
    } else if m == 9 {
        "September"@
    } else if m == 10 {
        "October"@
    } else if m == 11 {
        "November"@
    } else {
        "December"@
    }
}

/// A leap year of the proleptic Gregorian calendar.
pub open spec fn is_leap_year(y: int) -> bool {
    y % 4 == 0 && (y % 100 != 0 || y % 400 == 0)
}

/// How many days month `m` of year `y` has.
pub open spec fn days_in_month(y: int, m: u32) -> int {
    if m == 2 {
        if is_leap_year(y) {
            29
        } else {
            28
        }
    } else if m == 4 || m == 6 || m == 9 || m == 11 {
        30
    } else {
        31
    }
}

/// A day that exists in the calendar.
pub open spec fn is_calendar_date(y: i32, m: u32, d: u32) -> bool {
    1 <= m <= 12 && 1 <= d <= days_in_month(y as int, m)
}

/// What `chrono` writes for a calendar date, in the two layouts a letter
/// uses, or `None` when it holds no such date.
pub uninterp spec fn calendar_date_text(year: i32, month: u32, day: u32) -> Option<
    (Seq<char>, Seq<char>),
>;

/// The layout of a letter's date: "January 2, 2006".
pub const LONG_DATE: &'static str = "%B %-d, %Y";

/// The layout of a letter's month: "January".
pub const MONTH_ONLY: &'static str = "%B";

/// `chrono::NaiveDate::from_ymd_opt`, then `format` with the two layouts.
/// The result is named by `calendar_date_text`. Beyond the name, what is
/// claimed is what the crate documents: a date that exists, in a year of
/// four digits, is accepted and written as the month's English name, the
/// day without padding and the year; a result means the date exists. How
/// years of other lengths are written is left unsaid.
#[verifier::external_body]
fn format_date(
    year: i32,
    month: u32,
    day: u32,
    long_layout: &str,
    month_layout: &str,
) -> (r: Option<(String, String)>)
    requires
        long_layout@ == LONG_DATE@,
        month_layout@ == MONTH_ONLY@,
    ensures
        match r {
            Some((long, month_text)) => calendar_date_text(year, month, day) == Some(
                (long@, month_text@),
            ),
            None => calendar_date_text(year, month, day) is None,
        },
        r is Some ==> is_calendar_date(year, month, day),
        is_calendar_date(year, month, day) && 1000 <= year <= 9999 ==> r is Some,
        1000 <= year <= 9999 ==> match r {
            Some((long, month_text)) => long@ == month_name(month) + " "@ + crate::text::decimal(
                day as nat,
            ) + ", "@ + crate::text::decimal(year as nat) && month_text@ == month_name(month),
            None => true,
        },
{
    let date = chrono::NaiveDate::from_ymd_opt(year, month, day)?;
    Some((date.format(long_layout).to_string(), date.format(month_layout).to_string()))
}

impl EmailData {
    /// The data for one letter: the person's details, the broker's, and
    /// the date, `None` when the date is not one `chrono` holds.
    pub fn new(
        profile: &Profile,
        broker: &Broker,
        template: &str,
        year: i32,
        month: u32,
        day: u32,
    ) -> (r: Option<EmailData>)
        ensures
            r is None <==> calendar_date_text(year, month, day) is None,
            is_calendar_date(year, month, day) && 1000 <= year <= 9999 ==> r is Some,
            r matches Some(d) ==> {
                &&& 1000 <= year <= 9999 ==> d.date@ == month_name(month) + " "@
                    + crate::text::decimal(day as nat) + ", "@ + crate::text::decimal(year as nat)
                &&& 1000 <= year <= 9999 ==> d.month@ == month_name(month)
                &&& d.first_name@ == profile.first_name@
                &&& d.last_name@ == profile.last_name@
                &&& d.full_name@ == profile.full_name_view()
                &&& d.email@ == profile.email@
                &&& d.address@ == profile.address@
                &&& d.city@ == profile.city@
                &&& d.state@ == profile.state@
                &&& d.zip_code@ == profile.zip_code@
                &&& d.country@ == profile.country@
                &&& d.phone@ == profile.phone@
                &&& d.date_of_birth@ == profile.date_of_birth@
                &&& d.broker_name@ == broker.name@
                &&& d.broker_email@ == broker.email@
                &&& d.broker_website@ == broker.website@
                &&& d.broker_opt_out@ == broker.opt_out_url@
                &&& calendar_date_text(year, month, day) == Some((d.date@, d.month@))
                &&& d.year == year
                &&& d.template@ == template@
            },
    {
        let (date, month_name) = match format_date(year, month, day, LONG_DATE, MONTH_ONLY) {
            Some(texts) => texts,
            None => {
                return None;
            },
        };
        Some(
            EmailData {
                first_name: profile.first_name.clone(),
                last_name: profile.last_name.clone(),
                full_name: profile.full_name(),
                email: profile.email.clone(),
                address: profile.address.clone(),
                city: profile.city.clone(),
                state: profile.state.clone(),
                zip_code: profile.zip_code.clone(),
                country: profile.country.clone(),
                phone: profile.phone.clone(),
                date_of_birth: profile.date_of_birth.clone(),
                broker_name: broker.name.clone(),
                broker_email: broker.email.clone(),
                broker_website: broker.website.clone(),
                broker_opt_out: broker.opt_out_url.clone(),
                date,
                year,
                month: month_name,
                template: template.to_string(),
            },
        )
    }
}


/// The subject line a template's letters go out under.
pub open spec fn subject_of(template_name: Seq<char>) -> Seq<char> {
    if template_name == "gdpr"@ {
        "GDPR Data Erasure Request - Article 17 Right to Erasure"@
    } else if template_name == "ccpa"@ {
        "CCPA Data Deletion Request - Right to Delete Personal Information"@
    } else {
        "Personal Data Removal Request"@
    }
}

/// Subject lines are fixed per template rather than templated, because
/// brokers route on them and an injected newline in a subject is a header
/// injection vector.
pub fn subject_for(template_name: &str) -> (r: &'static str)
    ensures
        r@ == subject_of(template_name@),
{
    if crate::text::same_text(template_name, "gdpr") {
        "GDPR Data Erasure Request - Article 17 Right to Erasure"
    } else if crate::text::same_text(template_name, "ccpa") {
        "CCPA Data Deletion Request - Right to Delete Personal Information"
    } else {
        "Personal Data Removal Request"
    }
}

/// The templates' one-line descriptions, by name in sorted order.
pub open spec fn description_list() -> Seq<(Seq<char>, Seq<char>)> {
    seq![
        ("ccpa"@, "Invokes California Consumer Privacy Act deletion rights"@),
        ("gdpr"@, "Invokes the EU GDPR Article 17 right to erasure"@),
        ("generic"@, "References several privacy laws; a reasonable default anywhere"@),
    ]
}

/// One-line descriptions, for the command line and the setup wizard,
/// sorted by template name.
pub fn descriptions() -> (r: Vec<(&'static str, &'static str)>)
    ensures
        r@.map_values(|p: (&'static str, &'static str)| (p.0@, p.1@)) == description_list(),
{
    let r = vec![
        ("ccpa", "Invokes California Consumer Privacy Act deletion rights"),
        ("gdpr", "Invokes the EU GDPR Article 17 right to erasure"),
        ("generic", "References several privacy laws; a reasonable default anywhere"),
    ];
    assert(r@.map_values(|p: (&'static str, &'static str)| (p.0@, p.1@)) =~= description_list());
    r
}

/// Each template's subject is its own, and none holds a line break.
pub proof fn law_subjects_are_distinct_and_single_line()
    ensures
        subject_of("gdpr"@) != subject_of("ccpa"@),
        subject_of("gdpr"@) != subject_of("generic"@),
        subject_of("ccpa"@) != subject_of("generic"@),
        forall|t: Seq<char>, i: int|
            0 <= i < subject_of(t).len() ==> subject_of(t)[i] != '\n' && subject_of(t)[i] != '\r',
{
    reveal_strlit("gdpr");
    reveal_strlit("ccpa");
    reveal_strlit("generic");
    reveal_strlit("GDPR Data Erasure Request - Article 17 Right to Erasure");
    reveal_strlit("CCPA Data Deletion Request - Right to Delete Personal Information");
    reveal_strlit("Personal Data Removal Request");
    assert("gdpr"@ != "ccpa"@) by {
        assert("gdpr"@[0] != "ccpa"@[0]);
    }
    assert("generic"@ != "gdpr"@) by {
        assert("generic"@.len() != "gdpr"@.len());
    }
    assert("generic"@ != "ccpa"@) by {
        assert("generic"@.len() != "ccpa"@.len());
    }
    assert("GDPR Data Erasure Request - Article 17 Right to Erasure"@[0]
        != "CCPA Data Deletion Request - Right to Delete Personal Information"@[0]);
    assert("GDPR Data Erasure Request - Article 17 Right to Erasure"@[0]
        != "Personal Data Removal Request"@[0]);
    assert("CCPA Data Deletion Request - Right to Delete Personal Information"@[0]
        != "Personal Data Removal Request"@[0]);
}


/// Whether the template engine accepts `source` as a template.
pub uninterp spec fn template_parses(source: Seq<char>) -> bool;

/// What the template engine writes for `source`, given a text value for
/// each of `keys` and the number `number` under `number_key`; `None` when
/// rendering fails (such as on a placeholder that names no value).
pub uninterp spec fn template_output(
    source: Seq<char>,
    keys: Seq<Seq<char>>,
    values: Seq<Seq<char>>,
    number_key: Seq<char>,
    number: i32,
) -> Option<Seq<char>>;

/// `minijinja::Environment::template_from_str`, with placeholders that name
/// no value made an error. Claimed: the result is `template_parses` of the
/// source, which depends on the source alone.
#[verifier::external_body]
fn check_source(source: &str) -> (r: bool)
    ensures
        r == template_parses(source@),
{
    let mut env = minijinja::Environment::new();
    env.set_undefined_behavior(minijinja::UndefinedBehavior::Strict);
    env.template_from_str(source).is_ok()
}

/// `minijinja::Environment::template_from_str`, then `Template::render` with
/// a map from each key to its text and from `number_key` to `number`, and
/// with placeholders that name no value made an error. No auto-escaping
/// applies: the engine escapes only templates whose name ends in a markup
/// extension, and a template made from a string has none. Claimed: `None`
/// exactly when the source does not parse; otherwise the rendered text, or
/// `None` inside when rendering fails, as named by `template_output`.
#[verifier::external_body]
fn render_source(
    source: &str,
    keys: &[String],
    values: &[String],
    number_key: &str,
    number: i32,
) -> (r: Option<Option<String>>)
    requires
        keys@.len() == values@.len(),
    ensures
        r is None <==> !template_parses(source@),
        r matches Some(out) ==> match out {
            Some(text) => template_output(source@, crate::text::views(keys@), crate::text::views(values@), number_key@, number) == Some(text@),
            None => template_output(source@, crate::text::views(keys@), crate::text::views(values@), number_key@, number) is None,
        },
{
    let mut env = minijinja::Environment::new();
    env.set_undefined_behavior(minijinja::UndefinedBehavior::Strict);
    let template = match env.template_from_str(source) {
        Ok(template) => template,
        Err(_) => return None,
    };
    let mut context = std::collections::BTreeMap::new();
    for (key, value) in keys.iter().zip(values.iter()) {
        context.insert(key.clone(), minijinja::Value::from(value.clone()));
    }
    context.insert(number_key.to_string(), minijinja::Value::from(number));
    Some(template.render(minijinja::Value::from(context)).ok())
}

/// Why a letter could not be written.
#[derive(Debug, Clone, PartialEq, Eq)]
pub enum LetterError {
    /// A template's source is not a template.
    Parse { template: String },
    /// A template did not render, such as on a placeholder that names no
    /// field.
    Render { template: String },
    /// No template goes by that name.
    Unknown(String),
}

/// The text fields a template can reference, by name, in the order their
/// values are given.
pub open spec fn letter_keys() -> Seq<Seq<char>> {
    seq![
        "first_name"@,
        "last_name"@,
        "full_name"@,
        "email"@,
        "address"@,
        "city"@,
        "state"@,
        "zip_code"@,
        "country"@,
        "phone"@,
        "date_of_birth"@,
        "broker_name"@,
        "broker_email"@,
        "broker_website"@,
        "broker_opt_out"@,
        "date"@,
        "month"@,
        "template"@,
    ]
}

/// The value of each of `letter_keys` for a letter to `broker` from the
/// person in `profile`, dated `year`-`month`-`day`, from `template`.
pub open spec fn letter_values(
    profile: Profile,
    broker: Broker,
    template: Seq<char>,
    year: i32,
    month: u32,
    day: u32,
) -> Seq<Seq<char>> {
    seq![
        profile.first_name@,
        profile.last_name@,
        profile.full_name_view(),
        profile.email@,
        profile.address@,
        profile.city@,
        profile.state@,
        profile.zip_code@,
        profile.country@,
        profile.phone@,
        profile.date_of_birth@,
        broker.name@,
        broker.email@,
        broker.website@,
        broker.opt_out_url@,
        month_name(month) + " "@ + crate::text::decimal(day as nat) + ", "@ + crate::text::decimal(
            year as nat,
        ),
        month_name(month),
        template,
    ]
}

/// The number field a template can reference: the letter's year.
pub const YEAR_KEY: &'static str = "year";

/// `i` is the first of `templates` that goes by `name`.
pub open spec fn first_named(templates: Seq<(String, String)>, name: Seq<char>, i: int) -> bool {
    &&& 0 <= i < templates.len()
    &&& templates[i].0@ == name
    &&& forall|j: int| 0 <= j < i ==> templates[j].0@ != name
}

/// None of `templates` goes by `name`.
pub open spec fn none_named(templates: Seq<(String, String)>, name: Seq<char>) -> bool {
    forall|j: int| 0 <= j < templates.len() ==> templates[j].0@ != name
}

/// The sources of the first `n` templates all parse.
pub open spec fn parse_up_to(templates: Seq<(String, String)>, n: int) -> bool {
    forall|j: int| 0 <= j < n ==> template_parses(#[trigger] templates[j].1@)
}

/// `e` says that the template called `name` does not parse.
pub open spec fn is_parse_error(e: LetterError, name: Seq<char>) -> bool {
    e matches LetterError::Parse { template } && template@ == name
}

/// Where the first template of that name stands, if any does.
fn find_template(templates: &[(String, String)], name: &str) -> (r: Option<usize>)
    ensures
        match r {
            Some(i) => first_named(templates@, name@, i as int),
            None => none_named(templates@, name@),
        },
{
    let mut i: usize = 0;
    while i < templates.len()
        invariant
            i <= templates@.len(),
            forall|j: int| 0 <= j < i ==> templates@[j].0@ != name@,
        decreases templates@.len() - i,
    {
        if crate::text::same_text(templates[i].0.as_str(), name) {
            return Some(i);
        }
        i = i + 1;
    }
    None
}

/// Whether a template goes by `name`.
pub fn has_template(templates: &[(String, String)], name: &str) -> (r: bool)
    ensures
        r == !none_named(templates@, name@),
{
    find_template(templates, name).is_some()
}

/// Check that every template's source parses, so that a broken template is
/// caught when the templates are loaded rather than halfway through a run.
/// The first that does not parse is named in the error.
pub fn check_templates(templates: &[(String, String)]) -> (r: Result<(), LetterError>)
    ensures
        (r is Ok) == parse_up_to(templates@, templates@.len() as int),
        r matches Err(e) ==> exists|i: int|
            0 <= i < templates@.len() && !template_parses(templates@[i].1@) && parse_up_to(
                templates@,
                i,
            ) && #[trigger] is_parse_error(e, templates@[i].0@),
{
    let mut i: usize = 0;
    while i < templates.len()
        invariant
            i <= templates@.len(),
            parse_up_to(templates@, i as int),
        decreases templates@.len() - i,
    {
        if !check_source(templates[i].1.as_str()) {
            let e = LetterError::Parse { template: templates[i].0.clone() };
            assert(is_parse_error(e, templates@[i as int].0@));
            return Err(e);
        }
        i = i + 1;
    }
    Ok(())
}

/// The values of `letter_keys`, from a letter's data.
fn letter_fields(d: &EmailData) -> (r: (Vec<String>, Vec<String>))
    ensures
        r.0@.len() == r.1@.len(),
        crate::text::views(r.0@) == letter_keys(),
        crate::text::views(r.1@) == seq![
            d.first_name@,
            d.last_name@,
            d.full_name@,
            d.email@,
            d.address@,
            d.city@,
            d.state@,
            d.zip_code@,
            d.country@,
            d.phone@,
            d.date_of_birth@,
            d.broker_name@,
            d.broker_email@,
            d.broker_website@,
            d.broker_opt_out@,
            d.date@,
            d.month@,
            d.template@,
        ],
{
    let keys = vec![
        "first_name".to_string(),
        "last_name".to_string(),
        "full_name".to_string(),
        "email".to_string(),
        "address".to_string(),
        "city".to_string(),
        "state".to_string(),
        "zip_code".to_string(),
        "country".to_string(),
        "phone".to_string(),
        "date_of_birth".to_string(),
        "broker_name".to_string(),
        "broker_email".to_string(),
        "broker_website".to_string(),
        "broker_opt_out".to_string(),
        "date".to_string(),
        "month".to_string(),
        "template".to_string(),
    ];
    let values = vec![
        d.first_name.clone(),
        d.last_name.clone(),
        d.full_name.clone(),
        d.email.clone(),
        d.address.clone(),
        d.city.clone(),
        d.state.clone(),
        d.zip_code.clone(),
        d.country.clone(),
        d.phone.clone(),
        d.date_of_birth.clone(),
        d.broker_name.clone(),
        d.broker_email.clone(),
        d.broker_website.clone(),
        d.broker_opt_out.clone(),
        d.date.clone(),
        d.month.clone(),
        d.template.clone(),
    ];
    assert(crate::text::views(keys@) =~= letter_keys());
    (keys, values)
}

/// Whether a letter can be dated `year`-`month`-`day`: the day exists, in
/// a year of four digits.
pub fn is_writable_date(year: i32, month: u32, day: u32) -> (r: bool)
    ensures
        r == (is_calendar_date(year, month, day) && 1000 <= year <= 9999),
{
    if year < 1000 || year > 9999 || month < 1 || month > 12 || day < 1 {
        return false;
    }
    let leap = year % 4 == 0 && (year % 100 != 0 || year % 400 == 0);
    let last: u32 = if month == 2 {
        if leap {
            29
        } else {
            28
        }
    } else if month == 4 || month == 6 || month == 9 || month == 11 {
        30
    } else {
        31
    };
    day <= last
}

/// Render the template called `name`, from `templates` (each a name and its
/// source), as a letter to `broker` from the person in `profile`, dated
/// `year`-`month`-`day`: its subject and its body.
///
/// The subject is the template's fixed one. The body is what the template
/// engine writes for the template's source over the letter's fields.
pub fn render(
    templates: &[(String, String)],
    name: &str,
    profile: &Profile,
    broker: &Broker,
    year: i32,
    month: u32,
    day: u32,
) -> (r: Result<(String, String), LetterError>)
    requires
        is_calendar_date(year, month, day),
        1000 <= year <= 9999,
    ensures
        none_named(templates@, name@) ==> (r matches Err(LetterError::Unknown(n)) && n@ == name@),
        forall|i: int|
            first_named(templates@, name@, i) ==> {
                let source = #[trigger] templates@[i].1@;
                if !template_parses(source) {
                    r matches Err(LetterError::Parse { template }) && template@ == name@
                } else {
                    match template_output(
                        source,
                        letter_keys(),
                        letter_values(*profile, *broker, name@, year, month, day),
                        YEAR_KEY@,
                        year,
                    ) {
                        Some(body) => r matches Ok((subject, text)) && subject@ == subject_of(
                            name@,
                        ) && text@ == body,
                        None => r matches Err(LetterError::Render { template }) && template@
                            == name@,
                    }
                }
            },
{
    let index = match find_template(templates, name) {
        Some(i) => i,
        None => {
            return Err(LetterError::Unknown(name.to_string()));
        },
    };
    let data = match EmailData::new(profile, broker, name, year, month, day) {
        Some(d) => d,
        None => {
            return Err(LetterError::Unknown(name.to_string()));
        },
    };
    let (keys, values) = letter_fields(&data);
    let source = templates[index].1.as_str();
    match render_source(source, keys.as_slice(), values.as_slice(), YEAR_KEY, year) {
        None => Err(LetterError::Parse { template: name.to_string() }),
        Some(None) => Err(LetterError::Render { template: name.to_string() }),
        Some(Some(body)) => Ok((subject_for(name).to_string(), body)),
    }
}

} // verus!
