use analytics_recorder::manager::{open_session, AnalyticsManager, StoredRows, WriteOutcome};
use analytics_recorder::model::{
    AnalyticsError, AnalyticsFailure, DeveloperMetrics, HealthMetrics, Location, SystemInfo, Timestamp, UserSession,
};
use analytics_recorder::store::Store;
use analytics_recorder::trend::{session_owned_by, trend};

const DAY: i64 = 86_400;
const NOW: i64 = 1_700_000_000;

fn session_of(session_id: &str, user_id: &str) -> UserSession {
    open_session(
        session_id.to_string(),
        Timestamp::new(NOW - 10 * DAY, 0),
        user_id,
        Location {
            country: "France".to_string(),
            city: "Paris".to_string(),
            timezone: "Europe/Paris".to_string(),
            ip: "2.2.2.2".to_string(),
        },
        SystemInfo {
            os: "linux".to_string(),
            os_version: "6.1.0".to_string(),
            cpu_cores: 4,
            memory_total: 8_000_000,
            memory_available: 4_000_000,
            python_version: "3.12.0".to_string(),
            screen_resolution: "2560x1440".to_string(),
        },
    )
}

fn usage(session_id: &str, secs: i64, nanos: u32, lines_written: i32) -> DeveloperMetrics {
    DeveloperMetrics {
        session_id: session_id.to_string(),
        timestamp: Timestamp::new(secs, nanos),
        coding_time: 60,
        lines_written,
        errors_encountered: 0,
        successful_compilations: 1,
        failed_compilations: 0,
        debug_time: 0,
        keyboard_intensity: 0.5f32.to_bits(),
        mouse_intensity: 0.125f32.to_bits(),
        active_files: 1,
        test_coverage: 1.0f32.to_bits(),
    }
}

fn health(session_id: &str, secs: i64, break_count: i32) -> HealthMetrics {
    HealthMetrics {
        session_id: session_id.to_string(),
        timestamp: Timestamp::new(secs, 0),
        break_count,
        break_duration: 300,
        focus_duration: 1500,
        posture_alerts: 2,
        eye_strain_alerts: 1,
        keyboard_intensity: 0.25f32.to_bits(),
        stress_indicators: 0,
    }
}

fn manager_with(sessions: &[(&str, &str)]) -> AnalyticsManager {
    let mut manager = AnalyticsManager::new(Ok(StoredRows::empty()), Ok(())).unwrap();
    for (session_id, user_id) in sessions {
        assert_eq!(manager.save_session(session_of(session_id, user_id), WriteOutcome::Stored), Ok(()));
    }
    manager
}

fn lines(trend: &[DeveloperMetrics]) -> Vec<i32> {
    trend.iter().map(|m| m.lines_written).collect()
}

#[test]
fn recorded_sample_is_returned_exactly_once() {
    let mut manager = manager_with(&[("s-1", "alice")]);
    let now = Timestamp::new(NOW, 0);
    assert!(manager.usage_trends_at("alice", &now, 7).is_empty());
    assert_eq!(manager.save_developer_metrics(usage("s-1", NOW - DAY, 0, 11), WriteOutcome::Stored), Ok(()));
    let trend = manager.usage_trends_at("alice", &now, 7);
    assert_eq!(lines(&trend), vec![11]);
    assert_eq!(trend[0].timestamp.secs, NOW - DAY);
    assert_eq!(manager.developer_metrics_count(), 1);
}

#[test]
fn recorded_health_sample_is_returned_exactly_once() {
    let mut manager = manager_with(&[("s-1", "alice")]);
    let now = Timestamp::new(NOW, 0);
    assert_eq!(manager.save_health_metrics(health("s-1", NOW - 5, 3), WriteOutcome::Stored), Ok(()));
    let trend = manager.health_trends_at("alice", &now, 1);
    assert_eq!(trend.len(), 1);
    assert_eq!(trend[0].break_count, 3);
    assert_eq!(trend[0].break_duration, 300);
    assert_eq!(trend[0].focus_duration, 1500);
    assert_eq!(trend[0].posture_alerts, 2);
    assert_eq!(trend[0].eye_strain_alerts, 1);
    assert_eq!(f32::from_bits(trend[0].keyboard_intensity), 0.25);
    assert_eq!(manager.health_metrics_count(), 1);
    assert!(manager.usage_trends_at("alice", &now, 1).is_empty());
}

#[test]
fn trend_is_most_recent_first() {
    let mut manager = manager_with(&[("s-1", "alice"), ("s-2", "alice")]);
    for (session, age, tag) in [("s-1", 500, 1), ("s-2", 100, 2), ("s-1", 900, 3), ("s-2", 300, 4), ("s-1", 700, 5)] {
        assert_eq!(manager.save_developer_metrics(usage(session, NOW - age, 0, tag), WriteOutcome::Stored), Ok(()));
    }
    let trend = manager.usage_trends_at("alice", &Timestamp::new(NOW, 0), 1);
    assert_eq!(lines(&trend), vec![2, 4, 1, 5, 3]);
}

#[test]
fn nanoseconds_decide_between_samples_of_one_second() {
    let mut manager = manager_with(&[("s-1", "alice")]);
    for (nanos, tag) in [(5, 1), (900_000_000, 2), (6, 3)] {
        assert_eq!(manager.save_developer_metrics(usage("s-1", NOW, nanos, tag), WriteOutcome::Stored), Ok(()));
    }
    let trend = manager.usage_trends_at("alice", &Timestamp::new(NOW + 1, 0), 1);
    assert_eq!(lines(&trend), vec![2, 3, 1]);
}

#[test]
fn two_samples_of_one_session_come_out_in_time_order_whatever_the_insertion_order() {
    let earlier = usage("s-1", NOW - 200, 0, 1);
    let later = usage("s-1", NOW - 100, 0, 2);
    let now = Timestamp::new(NOW, 0);

    let mut one_way = manager_with(&[("s-1", "alice")]);
    assert_eq!(one_way.save_developer_metrics(earlier.clone(), WriteOutcome::Stored), Ok(()));
    assert_eq!(one_way.save_developer_metrics(later.clone(), WriteOutcome::Stored), Ok(()));

    let mut other_way = manager_with(&[("s-1", "alice")]);
    assert_eq!(other_way.save_developer_metrics(later, WriteOutcome::Stored), Ok(()));
    assert_eq!(other_way.save_developer_metrics(earlier, WriteOutcome::Stored), Ok(()));

    assert_eq!(lines(&one_way.usage_trends_at("alice", &now, 1)), vec![2, 1]);
    assert_eq!(lines(&other_way.usage_trends_at("alice", &now, 1)), vec![2, 1]);
}

#[test]
fn trend_holds_only_the_samples_of_the_users_sessions() {
    let mut manager = manager_with(&[("s-a", "alice"), ("s-b", "bob")]);
    assert_eq!(manager.save_developer_metrics(usage("s-a", NOW - 10, 0, 1), WriteOutcome::Stored), Ok(()));
    assert_eq!(manager.save_developer_metrics(usage("s-b", NOW - 20, 0, 2), WriteOutcome::Stored), Ok(()));
    assert_eq!(manager.save_developer_metrics(usage("s-a", NOW - 30, 0, 3), WriteOutcome::Stored), Ok(()));
    let now = Timestamp::new(NOW, 0);
    assert_eq!(lines(&manager.usage_trends_at("alice", &now, 1)), vec![1, 3]);
    assert_eq!(lines(&manager.usage_trends_at("bob", &now, 1)), vec![2]);
    assert!(manager.usage_trends_at("carol", &now, 1).is_empty());
    assert!(manager.usage_trends_at("", &now, 1).is_empty());
}

#[test]
fn sample_of_an_unknown_session_is_stored_but_not_returned() {
    let mut manager = manager_with(&[("s-1", "alice")]);
    assert_eq!(manager.save_developer_metrics(usage("s-404", NOW - 10, 0, 1), WriteOutcome::Stored), Ok(()));
    assert_eq!(manager.developer_metrics_count(), 1);
    let now = Timestamp::new(NOW, 0);
    assert!(manager.usage_trends_at("alice", &now, 1).is_empty());
    assert_eq!(manager.save_session(session_of("s-404", "alice"), WriteOutcome::Stored), Ok(()));
    assert_eq!(lines(&manager.usage_trends_at("alice", &now, 1)), vec![1]);
}

#[test]
fn sample_whose_write_failed_is_dropped() {
    let mut manager = manager_with(&[("s-1", "alice")]);
    let r = manager.save_developer_metrics(
        usage("s-1", NOW - 10, 0, 1),
        WriteOutcome::Failed("disk is full".to_string()),
    );
    assert_eq!(
        r,
        Err(AnalyticsFailure { kind: AnalyticsError::Persistence, detail: "disk is full".to_string() })
    );
    let r = manager.save_health_metrics(
        health("s-1", NOW - 10, 1),
        WriteOutcome::Failed("FOREIGN KEY constraint failed".to_string()),
    );
    assert_eq!(
        r,
        Err(AnalyticsFailure {
            kind: AnalyticsError::Persistence,
            detail: "FOREIGN KEY constraint failed".to_string(),
        })
    );
    assert_eq!(manager.developer_metrics_count(), 0);
    assert_eq!(manager.health_metrics_count(), 0);
    let now = Timestamp::new(NOW, 0);
    assert!(manager.usage_trends_at("alice", &now, 1).is_empty());
    assert!(manager.health_trends_at("alice", &now, 1).is_empty());
}

#[test]
fn the_same_sample_recorded_twice_is_returned_twice() {
    let mut manager = manager_with(&[("s-1", "alice")]);
    assert_eq!(manager.save_developer_metrics(usage("s-1", NOW - 10, 0, 8), WriteOutcome::Stored), Ok(()));
    assert_eq!(manager.save_developer_metrics(usage("s-1", NOW - 10, 0, 8), WriteOutcome::Stored), Ok(()));
    assert_eq!(lines(&manager.usage_trends_at("alice", &Timestamp::new(NOW, 0), 1)), vec![8, 8]);
}

#[test]
fn empty_tables_give_empty_trends() {
    let manager = manager_with(&[]);
    let now = Timestamp::new(NOW, 0);
    assert!(manager.usage_trends_at("alice", &now, 30).is_empty());
    assert!(manager.health_trends_at("alice", &now, 30).is_empty());
    let both = manager.user_analytics_at("alice", &now, 30);
    assert!(both.usage_trends.is_empty());
    assert!(both.health_trends.is_empty());
}

#[test]
fn combined_trends_hold_both_sequences() {
    let mut manager = manager_with(&[("s-1", "alice")]);
    assert_eq!(manager.save_developer_metrics(usage("s-1", NOW - 10, 0, 1), WriteOutcome::Stored), Ok(()));
    assert_eq!(manager.save_developer_metrics(usage("s-1", NOW - 5, 0, 2), WriteOutcome::Stored), Ok(()));
    assert_eq!(manager.save_health_metrics(health("s-1", NOW - 7, 4), WriteOutcome::Stored), Ok(()));
    let both = manager.user_analytics_at("alice", &Timestamp::new(NOW, 0), 1);
    assert_eq!(lines(&both.usage_trends), vec![2, 1]);
    assert_eq!(both.health_trends.len(), 1);
    assert_eq!(both.health_trends[0].break_count, 4);
}

#[test]
fn trends_read_against_the_clock_leave_old_samples_out() {
    let mut manager = manager_with(&[("s-1", "alice")]);
    assert_eq!(manager.save_developer_metrics(usage("s-1", 1_000_000_000, 0, 1), WriteOutcome::Stored), Ok(()));
    assert_eq!(manager.save_health_metrics(health("s-1", 1_000_000_000, 1), WriteOutcome::Stored), Ok(()));
    assert!(manager.get_usage_trends("alice", 1).is_empty());
    assert!(manager.get_health_trends("alice", 1).is_empty());
    assert_eq!(manager.get_usage_trends("alice", i32::MAX).len(), 1);
    assert_eq!(manager.get_health_trends("alice", i32::MAX).len(), 1);
    let both = manager.get_user_analytics("alice", i32::MAX);
    assert_eq!(both.usage_trends.len(), 1);
    assert_eq!(both.health_trends.len(), 1);
}

#[test]
fn store_answers_the_same_queries() {
    let mut store = Store::new();
    assert_eq!(store.insert_session(session_of("s-1", "alice")), Ok(()));
    assert_eq!(
        store.insert_session(session_of("s-1", "alice")).err().map(|f| f.kind),
        Some(AnalyticsError::Persistence)
    );
    store.insert_developer_metrics(usage("s-1", NOW - 10, 0, 1));
    store.insert_developer_metrics(usage("s-1", NOW - 5, 0, 2));
    store.insert_health_metrics(health("s-1", NOW - 1, 6));
    assert_eq!(store.session_count(), 1);
    assert_eq!(store.developer_metrics_count(), 2);
    assert_eq!(store.health_metrics_count(), 1);
    assert!(store.contains_session("s-1"));
    assert!(!store.contains_session("s-"));
    let now = Timestamp::new(NOW, 0);
    assert_eq!(lines(&store.usage_trends("alice", &now, 1)), vec![2, 1]);
    assert_eq!(store.health_trends("alice", &now, 1)[0].break_count, 6);
}

#[test]
fn store_restore_checks_the_session_rows() {
    let ok = Store::restore(vec![session_of("s-1", "alice"), session_of("s-2", "alice")], vec![], vec![]);
    assert_eq!(ok.unwrap().session_count(), 2);
    let repeated = Store::restore(vec![session_of("s-1", "alice"), session_of("s-2", "bob"), session_of("s-1", "carol")], vec![], vec![]);
    assert_eq!(repeated.err().map(|f| f.kind), Some(AnalyticsError::Initialization));
    let mut negative = session_of("s-3", "alice");
    negative.idle_time = -5;
    assert_eq!(Store::restore(vec![negative], vec![], vec![]).err().map(|f| f.kind), Some(AnalyticsError::Initialization));
}

#[test]
fn a_sample_stamped_after_now_is_not_in_the_trend() {
    let mut manager = manager_with(&[("s-1", "alice")]);
    for (secs, nanos, tag) in [(NOW + 1, 0, 1), (NOW, 1, 2), (NOW, 0, 3), (NOW - 1, 0, 4), (NOW + DAY, 0, 5)] {
        assert_eq!(manager.save_developer_metrics(usage("s-1", secs, nanos, tag), WriteOutcome::Stored), Ok(()));
        assert_eq!(manager.save_health_metrics(health("s-1", secs, tag), WriteOutcome::Stored), Ok(()));
    }
    let now = Timestamp::new(NOW, 0);
    assert_eq!(lines(&manager.usage_trends_at("alice", &now, 1)), vec![3, 4]);
    assert_eq!(lines(&manager.usage_trends_at("alice", &now, 0)), vec![3]);
    let mut breaks: Vec<i32> =
        manager.health_trends_at("alice", &now, 1).iter().map(|m| m.break_count).collect();
    assert_eq!(breaks.len(), 3);
    assert_eq!(breaks[2], 4);
    breaks.sort();
    assert_eq!(breaks, vec![2, 3, 4]);
    let far = Timestamp::new(4_000_000_000, 0);
    assert!(manager.get_usage_trends("alice", 1).is_empty());
    assert_eq!(manager.usage_trends_at("alice", &far, i32::MAX).len(), 5);
}

#[test]
fn trend_over_plain_tables() {
    let sessions = vec![session_of("s-1", "alice"), session_of("s-2", "bob")];
    let samples = vec![usage("s-2", NOW, 0, 1), usage("s-1", NOW - 3, 0, 2), usage("s-1", NOW - 1, 0, 3)];
    let out = trend(&sessions, &samples, "alice", &Timestamp::new(NOW, 0), 1);
    assert_eq!(lines(&out), vec![3, 2]);
    assert!(session_owned_by(&sessions, &"s-1".to_string(), &"alice".to_string()));
    assert!(!session_owned_by(&sessions, &"s-1".to_string(), &"bob".to_string()));
    assert!(!session_owned_by(&sessions, &"s-3".to_string(), &"alice".to_string()));
}
