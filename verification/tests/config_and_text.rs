use anilist_push::config::Config;
use anilist_push::text::{str_eq, u64_to_dec};

fn full_config() -> Config {
    Config {
        app_token: "app".to_string(),
        user_token: "user".to_string(),
        anilist_token: "anilist".to_string(),
        latest_notification_id: 7,
    }
}

#[test]
fn default_config_is_empty_with_zero_watermark() {
    let c = Config::default();
    assert_eq!(c.app_token, "");
    assert_eq!(c.user_token, "");
    assert_eq!(c.anilist_token, "");
    assert_eq!(c.latest_notification_id, 0);
}

#[test]
fn credentials_present_requires_all_three() {
    assert!(full_config().credentials_present());
    assert!(!Config::default().credentials_present());
    let mut c = full_config();
    c.app_token = String::new();
    assert!(!c.credentials_present());
    let mut c = full_config();
    c.user_token = String::new();
    assert!(!c.credentials_present());
    let mut c = full_config();
    c.anilist_token = String::new();
    assert!(!c.credentials_present());
}

#[test]
fn overrides_replace_only_given_tokens() {
    let mut c = full_config();
    let changed = c.apply_overrides(Some("new-app".to_string()), None, None, false);
    assert!(changed);
    assert_eq!(c.app_token, "new-app");
    assert_eq!(c.user_token, "user");
    assert_eq!(c.anilist_token, "anilist");
    assert_eq!(c.latest_notification_id, 7);
}

#[test]
fn reset_zeroes_the_watermark() {
    let mut c = full_config();
    let changed = c.apply_overrides(None, None, None, true);
    assert!(changed);
    assert_eq!(c.latest_notification_id, 0);
    assert_eq!(c.app_token, "app");
}

#[test]
fn no_flags_change_nothing() {
    let mut c = full_config();
    let changed = c.apply_overrides(None, None, None, false);
    assert!(!changed);
    assert_eq!(c.app_token, "app");
    assert_eq!(c.user_token, "user");
    assert_eq!(c.anilist_token, "anilist");
    assert_eq!(c.latest_notification_id, 7);
}

#[test]
fn decimal_rendering_is_exact() {
    assert_eq!(u64_to_dec(0), "0");
    assert_eq!(u64_to_dec(7), "7");
    assert_eq!(u64_to_dec(10), "10");
    assert_eq!(u64_to_dec(123), "123");
    assert_eq!(u64_to_dec(1000000), "1000000");
    assert_eq!(u64_to_dec(u64::MAX), "18446744073709551615");
}

#[test]
fn str_eq_compares_by_characters() {
    assert!(str_eq("", ""));
    assert!(str_eq("AIRING", "AIRING"));
    assert!(!str_eq("AIRING", "AIRINg"));
    assert!(!str_eq("AIRING", "AIRING "));
    assert!(!str_eq("", "A"));
    assert!(str_eq("naïve ✓", "naïve ✓"));
}
