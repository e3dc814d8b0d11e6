//! The stored enums, accounts and timestamps of history.

use eruser::config::SmtpConfig;
use eruser::history::accounts::{AccountScope, SenderAccount};
use eruser::history::legacy::parse_go_time;
use eruser::history::{PipelineStatus, ResponseType, Status, TaskStatus, TaskType};

#[test]
fn enums_round_trip_through_their_database_representation() {
    for status in Status::all().iter() {
        assert_eq!(Status::from_db(status.as_str()), *status);
    }
    for status in PipelineStatus::all().iter() {
        assert_eq!(PipelineStatus::from_db(status.as_str()), *status);
    }
    for task_type in TaskType::all().iter() {
        assert_eq!(TaskType::from_db(task_type.as_str()), *task_type);
    }
    for status in TaskStatus::all().iter() {
        assert_eq!(TaskStatus::from_db(status.as_str()), *status);
    }
    for response_type in ResponseType::all().iter() {
        assert_eq!(
            ResponseType::from_db(response_type.as_str()),
            *response_type
        );
    }
}

/// A row written by a newer version should not make an older one unable to
/// read its own history.
#[test]
fn unknown_enum_values_fall_back_rather_than_failing() {
    assert_eq!(
        PipelineStatus::from_db("teleported"),
        PipelineStatus::EmailSent
    );
    assert_eq!(Status::from_db("exploded"), Status::Failed);
    assert_eq!(ResponseType::from_db("shrug"), ResponseType::Unknown);
    assert_eq!(TaskStatus::from_db("later"), TaskStatus::Pending);
}

#[test]
fn parsing_an_unknown_enum_value_is_still_an_error() {
    assert!("teleported".parse::<PipelineStatus>().is_err());
}

#[test]
fn an_account_is_named_by_its_label_and_address() {
    let named = SenderAccount {
        id: 1,
        user_id: 1,
        label: "personal gmail".into(),
        scope: AccountScope::Personal,
        provider: "smtp".into(),
        from_address: "jane@gmail.com".into(),
        smtp: SmtpConfig::default(),
        api_key: String::new(),
        daily_limit: 250,
        enabled: true,
        priority: 0,
        created_at: None,
    };

    assert_eq!(named.display_name(), "personal gmail (jane@gmail.com)");

    let unlabelled = SenderAccount {
        label: String::new(),
        ..named
    };
    assert_eq!(unlabelled.display_name(), "jane@gmail.com");
}

#[test]
fn scopes_round_trip_through_the_database_representation() {
    for scope in [AccountScope::Personal, AccountScope::Family] {
        assert_eq!(AccountScope::from_db(scope.as_str()), scope);
    }
    assert!(AccountScope::Family.is_shared());
    assert!(!AccountScope::Personal.is_shared());
}

/// The native format the older version wrote, with its monotonic-clock
/// reading, as found in a real database.
#[test]
fn a_go_native_timestamp_is_understood() {
    let parsed = parse_go_time("2026-08-19 21:16:20.587187055 -0500 CDT m=+150.374812277")
        .expect("the native format must parse");
    let parsed = chrono::DateTime::parse_from_rfc3339(&parsed).expect("RFC 3339 comes back");

    assert_eq!(parsed.format("%Y-%m-%d").to_string(), "2026-08-20");
    // 21:16 at -0500 is 02:16 the next day in UTC.
    assert_eq!(parsed.format("%H:%M").to_string(), "02:16");
}

#[test]
fn go_timestamps_without_a_monotonic_reading_are_understood() {
    assert!(parse_go_time("2026-08-19 21:16:20.587187055 -0500 CDT").is_some());
    assert!(parse_go_time("2026-08-19 21:16:20 +0000 UTC").is_some());
}

/// SQLite's own text format has no zone; those were written in UTC.
#[test]
fn a_plain_sqlite_timestamp_is_read_as_utc() {
    let parsed = parse_go_time("2026-08-19 21:16:20").expect("SQLite's format must parse");
    assert_eq!(parsed, "2026-08-19T21:16:20+00:00");
}

/// A value that already parses needs no rewriting, and rewriting it would
/// only risk changing it.
#[test]
fn a_value_that_is_already_correct_is_left_alone() {
    assert!(parse_go_time("2026-08-19T21:16:20+00:00").is_none());
    assert!(parse_go_time("2026-08-19T21:16:20Z").is_none());
}

#[test]
fn nonsense_is_left_alone_rather_than_guessed_at() {
    assert!(parse_go_time("").is_none());
    assert!(parse_go_time("not a time").is_none());
    assert!(parse_go_time("yesterday").is_none());
}
