use lorian_workspace::config::ActivityConfig;
use lorian_workspace::config::ButtonConfig;
use lorian_workspace::session::SessionManager;
use lorian_workspace::session::EMPTY_LIST_DURATION_SECS;

fn activity(name: &str, details: &str, duration: u64) -> ActivityConfig {
    ActivityConfig {
        name: name.to_string(),
        details: details.to_string(),
        state: format!("state of {}", name),
        large_image: None,
        large_text: None,
        small_image: None,
        small_text: None,
        duration_seconds: duration,
        buttons: None,
    }
}

fn two_activities() -> Vec<ActivityConfig> {
    vec![activity("A", "details A", 2), activity("B", "details B", 3)]
}

#[test]
fn new_session_starts_disconnected_at_front() {
    let s = SessionManager::new("12345".to_string(), two_activities());
    assert_eq!(s.current_index, 0);
    assert!(!s.is_alive());
    assert!(!s.is_connected());
    assert_eq!(s.last_connect_attempt, 0);
    assert_eq!(s.application_id, "12345");
}

#[test]
fn advance_cycles_through_all_activities() {
    // Rotation is a cycle: advancing as many times as the list is long
    // returns the index to its starting value.
    let mut s = SessionManager::new("12345".to_string(), two_activities());
    s.advance();
    assert_eq!(s.current_index, 1);
    s.advance();
    assert_eq!(s.current_index, 0);

    let three = vec![
        activity("A", "a", 1),
        activity("B", "b", 1),
        activity("C", "c", 1),
    ];
    let mut t = SessionManager::new("12345".to_string(), three);
    t.advance();
    let start = t.current_index;
    for _ in 0..3 {
        t.advance();
    }
    assert_eq!(t.current_index, start);
}

#[test]
fn advance_on_empty_list_stays_put() {
    let mut s = SessionManager::new("12345".to_string(), Vec::new());
    s.advance();
    assert_eq!(s.current_index, 0);
}

#[test]
fn reconnect_within_five_seconds_is_refused() {
    // A second reconnect within five seconds performs no real attempt and
    // leaves the recorded attempt time untouched.
    let mut s = SessionManager::new("12345".to_string(), two_activities());
    assert!(s.begin_reconnect(100));
    assert_eq!(s.last_connect_attempt, 100);
    assert!(!s.begin_reconnect(104));
    assert_eq!(s.last_connect_attempt, 100);
    assert!(!s.is_alive());
    assert!(s.begin_reconnect(105));
    assert_eq!(s.last_connect_attempt, 105);
}

#[test]
fn reconnect_allows_clock_going_backwards() {
    let mut s = SessionManager::new("12345".to_string(), two_activities());
    assert!(s.begin_reconnect(100));
    // The clock went backwards: the attempt is not refused.
    assert!(s.begin_reconnect(50));
    assert_eq!(s.last_connect_attempt, 50);
}

#[test]
fn reload_with_short_list_resets_index() {
    // After reload(new_list) with new_list.len() <= current_index the index
    // resets to the front.
    let three = vec![
        activity("A", "a", 1),
        activity("B", "b", 1),
        activity("C", "c", 1),
    ];
    let mut s = SessionManager::new("12345".to_string(), three);
    s.advance();
    s.advance();
    assert_eq!(s.current_index, 2);
    s.reload(two_activities());
    assert_eq!(s.current_index, 0);
    assert_eq!(s.activities.len(), 2);
}

#[test]
fn reload_keeps_index_still_in_bounds() {
    let mut s = SessionManager::new("12345".to_string(), two_activities());
    s.advance();
    assert_eq!(s.current_index, 1);
    let three = vec![
        activity("A", "a", 1),
        activity("B", "b", 1),
        activity("C", "c", 1),
    ];
    s.reload(three);
    assert_eq!(s.current_index, 1);
    assert_eq!(s.activities.len(), 3);
}

#[test]
fn failed_config_load_leaves_activities_untouched() {
    // A malformed re-read of the configuration (handed in as None) leaves the
    // previously loaded activities and the rotation position as they were.
    let mut s = SessionManager::new("12345".to_string(), two_activities());
    s.advance();
    let applied = s.apply_reload(None);
    assert!(!applied);
    assert_eq!(s.current_index, 1);
    assert_eq!(s.activities.len(), 2);
    assert_eq!(s.activities[0].name, "A");
    assert_eq!(s.activities[1].name, "B");
}

#[test]
fn successful_config_load_replaces_activities() {
    let mut s = SessionManager::new("12345".to_string(), two_activities());
    let applied = s.apply_reload(Some(vec![activity("C", "c", 7)]));
    assert!(applied);
    assert_eq!(s.activities.len(), 1);
    assert_eq!(s.activities[0].name, "C");
    assert_eq!(s.current_index, 0);
}

#[test]
fn publish_failure_downgrades_to_disconnected() {
    let mut s = SessionManager::new("12345".to_string(), two_activities());
    s.apply_connect_result(true);
    assert!(s.is_alive());
    s.apply_publish_result(false);
    assert!(!s.is_alive());
    s.apply_publish_result(true);
    assert!(s.is_alive());
}

#[test]
fn failed_connect_leaves_state_unchanged() {
    let mut s = SessionManager::new("12345".to_string(), two_activities());
    s.apply_connect_result(false);
    assert!(!s.is_alive());
    assert_eq!(s.current_index, 0);
}

#[test]
fn mark_disconnected_clears_connection() {
    let mut s = SessionManager::new("12345".to_string(), two_activities());
    s.apply_connect_result(true);
    s.mark_disconnected();
    assert!(!s.is_alive());
}

#[test]
fn current_duration_reads_current_activity() {
    let mut s = SessionManager::new("12345".to_string(), two_activities());
    assert_eq!(s.current_duration(), 2);
    s.advance();
    assert_eq!(s.current_duration(), 3);
}

#[test]
fn current_duration_falls_back_on_empty_list() {
    let s = SessionManager::new("12345".to_string(), Vec::new());
    assert_eq!(s.current_duration(), EMPTY_LIST_DURATION_SECS);
    assert_eq!(s.current_duration(), 30);
}

#[test]
fn payload_carries_texts_and_timestamp() {
    let s = SessionManager::new("12345".to_string(), two_activities());
    let p = s.publish_payload(1700000000).expect("payload");
    assert_eq!(p.details, "details A");
    assert_eq!(p.state, "state of A");
    assert_eq!(p.start_timestamp, 1700000000);
    assert!(p.assets.is_none());
    assert!(p.buttons.is_none());
}

#[test]
fn payload_on_empty_list_is_none() {
    let s = SessionManager::new("12345".to_string(), Vec::new());
    assert!(s.publish_payload(123).is_none());
}

#[test]
fn payload_assets_need_a_large_image() {
    // A small image without a large one is left out entirely: no assets are
    // attached at all.
    let mut a = activity("A", "a", 2);
    a.small_image = Some("small".to_string());
    a.small_text = Some("caption".to_string());
    let s = SessionManager::new("12345".to_string(), vec![a]);
    let p = s.publish_payload(5).expect("payload");
    assert!(p.assets.is_none());
}

#[test]
fn payload_small_caption_needs_a_small_image() {
    let mut a = activity("A", "a", 2);
    a.large_image = Some("big".to_string());
    a.large_text = Some("big caption".to_string());
    a.small_text = Some("orphan caption".to_string());
    let s = SessionManager::new("12345".to_string(), vec![a]);
    let p = s.publish_payload(5).expect("payload");
    let assets = p.assets.expect("assets");
    assert_eq!(assets.large_image, "big");
    assert_eq!(assets.large_text.as_deref(), Some("big caption"));
    assert!(assets.small_image.is_none());
    assert!(assets.small_text.is_none());
}

#[test]
fn payload_full_assets_and_buttons_in_order() {
    let mut a = activity("A", "a", 2);
    a.large_image = Some("big".to_string());
    a.large_text = Some("big caption".to_string());
    a.small_image = Some("small".to_string());
    a.small_text = Some("small caption".to_string());
    a.buttons = Some(vec![
        ButtonConfig { label: "first".to_string(), url: "https://example.com/1".to_string() },
        ButtonConfig { label: "second".to_string(), url: "https://example.com/2".to_string() },
    ]);
    let s = SessionManager::new("12345".to_string(), vec![a]);
    let p = s.publish_payload(5).expect("payload");
    let assets = p.assets.expect("assets");
    assert_eq!(assets.small_image.as_deref(), Some("small"));
    assert_eq!(assets.small_text.as_deref(), Some("small caption"));
    let buttons = p.buttons.expect("buttons");
    assert_eq!(buttons.len(), 2);
    assert_eq!(buttons[0].label, "first");
    assert_eq!(buttons[0].url, "https://example.com/1");
    assert_eq!(buttons[1].label, "second");
    assert_eq!(buttons[1].url, "https://example.com/2");
}

#[test]
fn status_summary_names_current_activity() {
    let mut s = SessionManager::new("12345".to_string(), two_activities());
    assert_eq!(s.status_summary(), "📊 Actividad actual: A (1/2) - details A");
    s.advance();
    assert_eq!(s.status_summary(), "📊 Actividad actual: B (2/2) - details B");
}

#[test]
fn status_summary_reports_missing_activities() {
    let s = SessionManager::new("12345".to_string(), Vec::new());
    assert_eq!(s.status_summary(), "❌ Sin actividades configuradas");
}
