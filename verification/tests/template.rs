//! The data a request letter is built from, and its fixed subject lines.

use eruser::broker::Broker;
use eruser::config::Profile;
use eruser::template::{
    check_templates, descriptions, has_template, is_writable_date, render, subject_for, EmailData,
    LetterError, DEFAULT_TEMPLATE,
};

const TEMPLATES: [&str; 3] = ["ccpa", "gdpr", "generic"];

fn full_profile() -> Profile {
    Profile {
        first_name: "Jane".into(),
        last_name: "Doe".into(),
        email: "jane@example.com".into(),
        address: "123 Main Street".into(),
        city: "San Francisco".into(),
        state: "CA".into(),
        zip_code: "94102".into(),
        country: "USA".into(),
        phone: "+1-555-123-4567".into(),
        date_of_birth: "1990-01-15".into(),
    }
}

fn test_broker() -> Broker {
    Broker {
        id: "acme".into(),
        name: "Acme Data".into(),
        email: "privacy@acme.example".into(),
        website: "https://acme.example".into(),
        opt_out_url: "https://acme.example/optout".into(),
        region: "us".into(),
        category: "people-search".into(),
        notes: String::new(),
        requires_id: false,
        tags: Vec::new(),
    }
}

#[test]
fn subjects_are_distinct_per_template() {
    let subjects: Vec<&str> = TEMPLATES.iter().map(|name| subject_for(name)).collect();
    let unique: std::collections::HashSet<_> = subjects.iter().collect();
    assert_eq!(
        unique.len(),
        subjects.len(),
        "subjects collide: {subjects:?}"
    );
}

/// A subject reaching the mail layer with a newline in it would be a header
/// injection. Subjects are constants, so this can never regress silently.
#[test]
fn subjects_contain_no_line_breaks() {
    for name in TEMPLATES {
        let subject = subject_for(name);
        assert!(!subject.contains('\r') && !subject.contains('\n'), "{name}");
    }
    assert!(!subject_for("anything else").contains('\n'));
}

#[test]
fn every_template_has_a_description() {
    let descriptions = descriptions();
    for name in TEMPLATES {
        assert!(
            descriptions.iter().any(|(n, _)| *n == name),
            "{name} has no description"
        );
    }
}

#[test]
fn default_template_exists() {
    assert!(TEMPLATES.contains(&DEFAULT_TEMPLATE));
}

#[test]
fn broker_fields_reach_the_data_struct() {
    let data = EmailData::new(&full_profile(), &test_broker(), "gdpr", 2026, 8, 19)
        .expect("a real date");
    assert_eq!(data.broker_name, "Acme Data");
    assert_eq!(data.broker_email, "privacy@acme.example");
    assert_eq!(data.broker_website, "https://acme.example");
    assert_eq!(data.broker_opt_out, "https://acme.example/optout");
    assert_eq!(data.template, "gdpr");
    assert_eq!(data.full_name, "Jane Doe");
    assert_eq!(data.date, "August 19, 2026");
}

#[test]
fn email_data_formats_the_date_like_the_go_version() {
    let data = EmailData::new(&full_profile(), &test_broker(), "generic", 2026, 8, 9)
        .expect("a real date");
    // "August 9, 2026": no zero padding on the day.
    assert!(
        data.date.contains(&data.year.to_string()),
        "date {:?} should contain the year",
        data.date
    );
    assert!(
        data.date.contains(", "),
        "date {:?} should be long-form",
        data.date
    );
    let day = data.date.split(' ').nth(1).unwrap().trim_end_matches(',');
    assert!(
        !day.starts_with('0'),
        "day {day:?} should not be zero padded"
    );
    assert_eq!(data.month, data.date.split(' ').next().unwrap());
    assert_eq!(data.date, "August 9, 2026");
}

/// A day that is not in the calendar makes no letter.
#[test]
fn a_date_that_does_not_exist_makes_no_letter() {
    assert!(EmailData::new(&full_profile(), &test_broker(), "generic", 2026, 2, 30).is_none());
    assert!(EmailData::new(&full_profile(), &test_broker(), "generic", 2024, 2, 29).is_some());
    assert!(EmailData::new(&full_profile(), &test_broker(), "generic", 2026, 13, 1).is_none());
}

#[test]
fn the_gdpr_subject_cites_article_17() {
    assert_eq!(
        subject_for("gdpr"),
        "GDPR Data Erasure Request - Article 17 Right to Erasure"
    );
    assert_eq!(subject_for("unknown"), "Personal Data Removal Request");
}


/// A letter in the shape the shipped ones have: addressed to the broker,
/// listing the optional details only when they are given, and signed.
const GENERIC: &str = "To Whom It May Concern at {{ broker_name }},\n\nI am writing to request the deletion of all personal data you hold about me.\n\n- Name: {{ full_name }}\n- Email: {{ email }}\n{% if address %}- Address: {{ address }}\n{% endif %}{% if city %}- City: {{ city }}\n{% endif %}{% if zip_code %}- Postal Code: {{ zip_code }}\n{% endif %}{% if phone %}- Phone: {{ phone }}\n{% endif %}{% if date_of_birth %}- Date of Birth: {{ date_of_birth }}\n{% endif %}\nPlease confirm by {{ month }} {{ year }}.\n\nSincerely,\n{{ full_name }}\n";

fn library() -> Vec<(String, String)> {
    vec![
        ("ccpa".to_string(), "Under Cal. Civ. Code 1798.105, delete {{ full_name }}.".to_string()),
        ("gdpr".to_string(), "Under Article 17 GDPR, erase {{ full_name }}.".to_string()),
        ("generic".to_string(), GENERIC.to_string()),
    ]
}

fn minimal_profile() -> Profile {
    Profile {
        first_name: "Jane".into(),
        last_name: "Doe".into(),
        email: "jane@example.com".into(),
        ..Default::default()
    }
}

fn letter(name: &str, profile: &Profile) -> Result<(String, String), LetterError> {
    render(&library(), name, profile, &test_broker(), 2026, 8, 19)
}

#[test]
fn loaded_templates_parse() {
    assert_eq!(check_templates(&library()), Ok(()));
    let mut broken = library();
    broken.push(("broken".to_string(), "{% if %}".to_string()));
    assert_eq!(
        check_templates(&broken),
        Err(LetterError::Parse { template: "broken".to_string() })
    );
}

#[test]
fn unknown_template_is_rejected() {
    let err = letter("nonexistent", &full_profile()).unwrap_err();
    assert!(matches!(err, LetterError::Unknown(name) if name == "nonexistent"));
}

#[test]
fn has_template_reports_membership() {
    assert!(has_template(&library(), "gdpr"));
    assert!(!has_template(&library(), "hipaa"));
    assert!(has_template(&library(), DEFAULT_TEMPLATE));
}

#[test]
fn every_template_renders_with_only_required_fields() {
    for name in TEMPLATES {
        let (subject, body) = letter(name, &minimal_profile()).unwrap();
        assert_eq!(subject, subject_for(name));
        assert!(body.contains("Jane Doe"), "{name}");
    }
}

#[test]
fn optional_fields_are_omitted_when_blank() {
    let (_, body) = letter("generic", &minimal_profile()).unwrap();
    assert!(!body.contains("- Address:"));
    assert!(!body.contains("- City:"));
    assert!(!body.contains("- Phone:"));
    assert!(!body.contains("- Date of Birth:"));
    assert!(!body.contains("\n\n\n"));
}

#[test]
fn optional_fields_are_included_when_present() {
    let (_, body) = letter("generic", &full_profile()).unwrap();
    assert!(body.contains("- Address: 123 Main Street"));
    assert!(body.contains("- City: San Francisco"));
    assert!(body.contains("- Postal Code: 94102"));
    assert!(body.contains("- Phone: +1-555-123-4567"));
    assert!(body.contains("- Date of Birth: 1990-01-15"));
}

#[test]
fn body_is_addressed_to_the_broker_and_signed_by_the_user() {
    let (_, body) = letter("generic", &full_profile()).unwrap();
    assert!(body.starts_with("To Whom It May Concern at Acme Data,"));
    assert!(body.contains("Sincerely,\nJane Doe"));
    assert!(body.contains("Please confirm by August 2026."));
}

#[test]
fn plain_text_output_is_not_html_escaped() {
    let profile = Profile { last_name: "O'Brien & Sons".into(), ..minimal_profile() };
    let (_, body) = letter("generic", &profile).unwrap();
    assert!(body.contains("Jane O'Brien & Sons"));
    assert!(!body.contains("&#"));
    assert!(!body.contains("&amp;"));
}

#[test]
fn a_placeholder_that_names_no_field_does_not_render() {
    let templates = vec![("odd".to_string(), "Dear {{ nickname }}".to_string())];
    assert_eq!(check_templates(&templates), Ok(()));
    assert_eq!(
        render(&templates, "odd", &full_profile(), &test_broker(), 2026, 8, 19),
        Err(LetterError::Render { template: "odd".to_string() })
    );
}

#[test]
fn only_real_four_digit_dates_can_date_a_letter() {
    assert!(is_writable_date(2024, 2, 29));
    assert!(!is_writable_date(2023, 2, 29));
    assert!(!is_writable_date(2026, 13, 1));
    assert!(!is_writable_date(99, 1, 1));
}
