use lorian_workspace::config::app_data_dir;
use lorian_workspace::config::default_config;
use lorian_workspace::config::should_reload;
use lorian_workspace::config::ActivityConfig;
use lorian_workspace::config::ConfigError;
use lorian_workspace::config::SessionConfig;
use lorian_workspace::text::decimal_string;

fn activity(name: &str, duration: u64) -> ActivityConfig {
    ActivityConfig {
        name: name.to_string(),
        details: String::new(),
        state: String::new(),
        large_image: None,
        large_text: None,
        small_image: None,
        small_text: None,
        duration_seconds: duration,
        buttons: None,
    }
}

#[test]
fn empty_activity_list_is_rejected_at_startup() {
    let cfg = SessionConfig { application_id: "1".to_string(), activities: Vec::new() };
    assert_eq!(cfg.validate_startup(), Err(ConfigError::EmptyActivities));
}

#[test]
fn non_empty_activity_list_passes_startup() {
    let cfg = SessionConfig {
        application_id: "1".to_string(),
        activities: vec![activity("A", 2)],
    };
    assert_eq!(cfg.validate_startup(), Ok(()));
}

#[test]
fn default_config_holds_six_sample_activities() {
    let cfg = default_config();
    assert_eq!(cfg.application_id, "1234567890123456789");
    assert_eq!(cfg.activities.len(), 6);
    let names: Vec<&str> = cfg.activities.iter().map(|a| a.name.as_str()).collect();
    assert_eq!(
        names,
        vec!["commission", "working", "chatting", "surprised", "confused", "cute_mode"]
    );
    let durations: Vec<u64> = cfg.activities.iter().map(|a| a.duration_seconds).collect();
    assert_eq!(durations, vec![3, 5, 4, 2, 3, 6]);
    assert_eq!(cfg.validate_startup(), Ok(()));
}

#[test]
fn default_config_first_activity_contents() {
    let cfg = default_config();
    let a = &cfg.activities[0];
    assert_eq!(a.details, "💼 Open for Commissions");
    assert_eq!(a.state, "Taking art requests");
    assert_eq!(a.large_image.as_deref(), Some("award"));
    assert_eq!(a.large_text.as_deref(), Some("Commission Status"));
    assert_eq!(a.small_image.as_deref(), Some("thanks"));
    assert_eq!(a.small_text.as_deref(), Some("Available now"));
    let buttons = a.buttons.as_ref().expect("buttons");
    assert_eq!(buttons.len(), 2);
    assert_eq!(buttons[0].label, "💰 Commission Info");
    assert_eq!(buttons[0].url, "https://example.com/commissions");
    assert_eq!(buttons[1].label, "🎨 Portfolio");
    assert_eq!(buttons[1].url, "https://example.com/portfolio");
}

#[test]
fn default_config_button_counts() {
    let cfg = default_config();
    let counts: Vec<usize> = cfg
        .activities
        .iter()
        .map(|a| a.buttons.as_ref().map(|b| b.len()).unwrap_or(0))
        .collect();
    assert_eq!(counts, vec![2, 1, 2, 1, 1, 2]);
}

#[test]
fn data_dir_prefers_roaming_appdata() {
    let dir = app_data_dir(Some("/home/u/AppData/Roaming".to_string()), Some("/home/u".to_string()));
    assert_eq!(dir, "/home/u/AppData/Roaming/lorianworkspace");
}

#[test]
fn data_dir_falls_back_to_home_then_current() {
    assert_eq!(app_data_dir(None, Some("/home/u".to_string())), "/home/u/.lorianworkspace");
    assert_eq!(app_data_dir(None, None), ".");
}

#[test]
fn reload_fires_only_for_config_file_modifications() {
    let config_only = vec!["config.json".to_string()];
    let others = vec!["app.log".to_string(), "notes.txt".to_string()];
    let mixed = vec!["app.log".to_string(), "config.json".to_string()];
    assert!(should_reload(true, &config_only));
    assert!(should_reload(true, &mixed));
    assert!(!should_reload(true, &others));
    assert!(!should_reload(false, &config_only));
    assert!(!should_reload(true, &Vec::new()));
}

#[test]
fn decimal_rendering_is_exact() {
    assert_eq!(decimal_string(0), "0");
    assert_eq!(decimal_string(7), "7");
    assert_eq!(decimal_string(10), "10");
    assert_eq!(decimal_string(30), "30");
    assert_eq!(decimal_string(1234567890), "1234567890");
    assert_eq!(decimal_string(u64::MAX), "18446744073709551615");
}
