use restloop::error::TimerError;
use restloop::settings::{
    default_escape_count, default_rest_secs, default_work_secs, Settings, DEFAULT_ESCAPE_COUNT,
    DEFAULT_REST_SECS, DEFAULT_WORK_SECS,
};
use restloop::timer::TimerConfig;

#[test]
fn defaults_are_thirty_minutes_two_minutes_ten_presses() {
    assert_eq!(default_work_secs(), 60 * 30);
    assert_eq!(default_rest_secs(), 60 * 2);
    assert_eq!(default_escape_count(), 10);
    assert_eq!(DEFAULT_WORK_SECS, 1800);
    assert_eq!(DEFAULT_REST_SECS, 120);
    assert_eq!(DEFAULT_ESCAPE_COUNT, 10);
}

#[test]
fn default_settings_use_the_defaults() {
    let s = Settings::default();
    assert_eq!(s, Settings { work_secs: 1800, rest_secs: 120, escape_count: 10 });
}

#[test]
fn missing_stored_fields_take_their_default() {
    assert_eq!(Settings::from_stored(None, None, None), Settings::default());
    assert_eq!(
        Settings::from_stored(Some(5), None, Some(0)),
        Settings { work_secs: 5, rest_secs: 120, escape_count: 0 }
    );
    assert_eq!(
        Settings::from_stored(None, Some(9), None),
        Settings { work_secs: 1800, rest_secs: 9, escape_count: 10 }
    );
}

#[test]
fn settings_become_a_checked_configuration() {
    let config = TimerConfig::from_settings(&Settings::default()).unwrap();
    assert_eq!(config.work_duration_secs, 1800);
    assert_eq!(config.rest_duration_secs, 120);
    assert_eq!(config.escape_threshold, 10);
    let bad = Settings { work_secs: 5, rest_secs: 120, escape_count: 0 };
    assert_eq!(TimerConfig::from_settings(&bad), Err(TimerError::Configuration));
}
