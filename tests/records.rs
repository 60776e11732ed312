use pomodoro::migration::{declared_migrations, MigrationKind, DATABASE_URL};
use pomodoro::session::{PomodoroSession, SessionKind};
use pomodoro::settings::Settings;
use pomodoro::task::Task;

fn sample_task() -> Task {
    Task::new(
        "1".to_string(),
        "Write spec".to_string(),
        false,
        0,
        4,
        "2024-01-01T00:00:00Z".to_string(),
    )
}

#[test]
fn task_example_round_trips_without_drift() {
    let t = sample_task();
    let fields = t.clone().into_fields();
    assert_eq!(
        fields,
        (
            "1".to_string(),
            "Write spec".to_string(),
            false,
            0,
            4,
            "2024-01-01T00:00:00Z".to_string()
        )
    );
    let back = Task::from_fields(fields);
    assert_eq!(back, t);
    assert_eq!(back.id(), "1");
    assert_eq!(back.title(), "Write spec");
    assert!(!back.completed());
    assert_eq!(back.pomodoros_completed(), 0);
    assert_eq!(back.estimated_pomodoros(), 4);
    assert_eq!(back.created_at(), "2024-01-01T00:00:00Z");
}

#[test]
fn task_round_trip_keeps_large_counters_and_flag() {
    let t = Task::new(String::new(), "é ü".to_string(), true, u32::MAX, 7, String::new());
    let back = Task::from_fields(t.clone().into_fields());
    assert_eq!(back, t);
    assert!(back.completed());
    assert_eq!(back.pomodoros_completed(), u32::MAX);
    assert_eq!(back.title(), "é ü");
}

#[test]
fn settings_round_trip_keeps_all_seven_fields() {
    let s = Settings::new(1500, 300, 900, 4, true, false, true);
    let f = s.to_fields();
    assert_eq!(f, (1500, 300, 900, 4, true, false, true));
    let back = Settings::from_fields(f);
    assert_eq!(back, s);
    assert_eq!(back.work_duration(), 1500);
    assert_eq!(back.short_break(), 300);
    assert_eq!(back.long_break(), 900);
    assert_eq!(back.sessions_until_long_break(), 4);
    assert!(back.auto_start_breaks());
    assert!(!back.auto_start_pomodoros());
    assert!(back.notifications_enabled());
}

#[test]
fn settings_round_trip_with_toggles_flipped() {
    let s = Settings::new(0, u32::MAX, 1, 0, false, true, false);
    let back = Settings::from_fields(s.to_fields());
    assert_eq!(back, s);
    assert!(!back.auto_start_breaks());
    assert!(back.auto_start_pomodoros());
    assert!(!back.notifications_enabled());
}

#[test]
fn session_kinds_parse_from_their_text() {
    assert_eq!(SessionKind::parse("work"), Some(SessionKind::Work));
    assert_eq!(SessionKind::parse("short_break"), Some(SessionKind::ShortBreak));
    assert_eq!(SessionKind::parse("long_break"), Some(SessionKind::LongBreak));
    assert_eq!(SessionKind::Work.name(), "work");
    assert_eq!(SessionKind::ShortBreak.name(), "short_break");
    assert_eq!(SessionKind::LongBreak.name(), "long_break");
}

#[test]
fn session_type_outside_the_three_kinds_is_rejected() {
    for bad in ["", "Work", "nap", "short-break", "long_break ", "work_"] {
        assert_eq!(SessionKind::parse(bad), None);
        let s = PomodoroSession::new(None, 60, "2024-01-01T00:25:00Z".to_string(), bad.to_string());
        assert_eq!(s.kind(), None);
        assert!(!s.has_valid_type());
        assert_eq!(s.session_type(), bad);
    }
}

#[test]
fn session_fields_are_kept() {
    let s = PomodoroSession::new(
        Some("1".to_string()),
        1500,
        "2024-01-01T00:25:00Z".to_string(),
        "work".to_string(),
    );
    assert_eq!(s.task_id(), &Some("1".to_string()));
    assert_eq!(s.duration(), 1500);
    assert_eq!(s.completed_at(), "2024-01-01T00:25:00Z");
    assert_eq!(s.session_type(), "work");
    assert_eq!(s.kind(), Some(SessionKind::Work));
    assert!(s.has_valid_type());
}

#[test]
fn session_of_kind_stores_the_kind_text() {
    let s = PomodoroSession::of_kind(None, 300, "t".to_string(), SessionKind::ShortBreak);
    assert_eq!(s.task_id(), &None);
    assert_eq!(s.session_type(), "short_break");
    assert_eq!(s.kind(), Some(SessionKind::ShortBreak));
    let l = PomodoroSession::of_kind(Some("9".to_string()), 900, "t".to_string(), SessionKind::LongBreak);
    assert_eq!(l.session_type(), "long_break");
    assert!(l.has_valid_type());
}

#[test]
fn one_forward_migration_is_declared() {
    let m = declared_migrations();
    assert_eq!(m.len(), 1);
    assert_eq!(m[0].version, 1);
    assert_eq!(m[0].description, "create initial tables");
    assert_eq!(m[0].kind, MigrationKind::Up);
    assert_eq!(DATABASE_URL, "sqlite:pomodoro.db");
}

#[test]
fn declared_migration_versions_are_distinct() {
    let m = declared_migrations();
    for i in 0..m.len() {
        for j in (i + 1)..m.len() {
            assert!(m[i].version < m[j].version);
        }
    }
}
