use weatherlight::config::config_needs_setup;
use weatherlight::config::AppConfig;
use weatherlight::config::save_config;

#[test]
fn default_settings() {
    let c = AppConfig::default();
    assert_eq!(c.provider, "open-meteo");
    assert_eq!(c.unit, "C");
    assert!(c.auto_location);
    assert!(!c.auto_start);
    assert_eq!(c.location, "");
    assert_eq!(c.api_key, "");
    assert!(c.pulse);
    assert_eq!(c.pulse_speed, 5000);
    assert_eq!(c.max_brightness, 60);
    assert!(!c.sunset_sunrise);
    assert_eq!(c.temp_horizon, "current");
    assert_eq!(c.precip_horizon, "immediate");
}

#[test]
fn default_config_renders_exactly() {
    let text = save_config(&AppConfig::default());
    let expected = "{\n  \"provider\": \"open-meteo\",\n  \"unit\": \"C\",\n  \"autoLocation\": true,\n  \"autoStart\": false,\n  \"location\": \"\",\n  \"apiKey\": \"\",\n  \"pulse\": true,\n  \"pulseSpeed\": 5000,\n  \"maxBrightness\": 60,\n  \"sunsetSunrise\": false,\n  \"tempHorizon\": \"current\",\n  \"precipHorizon\": \"immediate\"\n}";
    assert_eq!(text, expected);
}

#[test]
fn rendered_config_is_valid_json() {
    let mut c = AppConfig::default();
    c.location = "Oslo, Norway".to_string();
    c.api_key = "SECRET-REDACTED".to_string();
    c.pulse_speed = 0;
    c.max_brightness = 255;
    let text = save_config(&c);
    let parsed: serde_json::Value = serde_json::from_str(&text).unwrap();
    assert_eq!(parsed["location"], "Oslo, Norway");
    assert_eq!(parsed["apiKey"], "SECRET-REDACTED");
    assert_eq!(parsed["pulseSpeed"], 0);
    assert_eq!(parsed["maxBrightness"], 255);
    assert_eq!(parsed["provider"], "open-meteo");
}

#[test]
fn strings_are_escaped() {
    let mut c = AppConfig::default();
    c.location = "a\"b\\c\nd\te\r\u{1}".to_string();
    let text = save_config(&c);
    assert!(text.contains("a\\\"b\\\\c\\nd\\te\\r\\u0001"));
    let parsed: serde_json::Value = serde_json::from_str(&text).unwrap();
    assert_eq!(parsed["location"], "a\"b\\c\nd\te\r\u{1}");
}

#[test]
fn non_ascii_passes_through() {
    let mut c = AppConfig::default();
    c.location = "Zürich, Schweiz — ☔".to_string();
    let text = save_config(&c);
    let parsed: serde_json::Value = serde_json::from_str(&text).unwrap();
    assert_eq!(parsed["location"], "Zürich, Schweiz — ☔");
}

#[test]
fn setup_gate() {
    // Default: auto-location on, open-meteo needs no key.
    assert!(!config_needs_setup(&AppConfig::default()));

    let mut c = AppConfig::default();
    c.auto_location = false;
    assert!(config_needs_setup(&c));
    c.location = "Oslo".to_string();
    assert!(!config_needs_setup(&c));

    c.provider = "openweathermap".to_string();
    assert!(config_needs_setup(&c));
    c.api_key = "SECRET-REDACTED".to_string();
    assert!(!config_needs_setup(&c));
}
