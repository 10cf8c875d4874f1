use weatherlight::busylight::DeviceInfo;
use weatherlight::controller::LightCommand;
use weatherlight::controller::decide_light;
use weatherlight::models::device_info_result;
use weatherlight::models::location_validation;
use weatherlight::weather::check_is_night;

#[test]
fn night_with_standard_ordering() {
    // Sunrise 06:00, sunset 18:00.
    let sr = Some(6 * 60);
    let ss = Some(18 * 60);
    assert!(check_is_night(5 * 60, sr, ss));
    assert!(!check_is_night(6 * 60, sr, ss));
    assert!(!check_is_night(12 * 60, sr, ss));
    assert!(!check_is_night(18 * 60, sr, ss));
    assert!(check_is_night(18 * 60 + 1, sr, ss));
    assert!(check_is_night(23 * 60, sr, ss));
}

#[test]
fn night_with_wrapped_ordering() {
    // Reported in a shifted zone: sunrise 17:00, sunset 07:00. Night is
    // the span strictly between sunset and sunrise.
    let sr = Some(17 * 60);
    let ss = Some(7 * 60);
    assert!(check_is_night(12 * 60, sr, ss));
    assert!(!check_is_night(18 * 60, sr, ss));
    assert!(!check_is_night(6 * 60, sr, ss));
    assert!(!check_is_night(7 * 60, sr, ss));
    assert!(!check_is_night(17 * 60, sr, ss));
}

#[test]
fn missing_sun_times_count_as_day() {
    assert!(!check_is_night(0, None, Some(18 * 60)));
    assert!(!check_is_night(0, Some(6 * 60), None));
    assert!(!check_is_night(0, None, None));
}

#[test]
fn validation_outcomes() {
    let ok = location_validation(Some("Oslo, Norway".to_string()));
    assert!(ok.valid);
    assert_eq!(ok.name.as_deref(), Some("Oslo, Norway"));
    assert!(ok.error.is_none());

    let bad = location_validation(None);
    assert!(!bad.valid);
    assert!(bad.name.is_none());
    assert_eq!(bad.error.as_deref(), Some("Location not found"));
}

#[test]
fn device_info_repackaging() {
    let info = DeviceInfo {
        product: Some("Busylight".to_string()),
        path: None,
        vendor_id: 10171,
        product_id: 0x3bcd,
    };
    let r = device_info_result(&info);
    assert_eq!(r.product.as_deref(), Some("Busylight"));
    assert_eq!(r.path, None);
    assert_eq!(r.vendor_id, 10171);
    assert_eq!(r.product_id, 0x3bcd);
}

#[test]
fn light_decision_night_and_black_turn_off() {
    assert!(matches!(decide_light((10, 20, 30), true, false, true, 60, 5000), LightCommand::Off));
    assert!(matches!(decide_light((0, 0, 0), false, true, true, 60, 5000), LightCommand::Off));
}

#[test]
fn light_decision_precipitation_pulses() {
    let cmd = decide_light((10, 20, 30), false, true, true, 60, 5000);
    match cmd {
        LightCommand::Pulse { color, pct_high, pct_low, speed_ms } => {
            assert_eq!(color, (10, 20, 30));
            assert_eq!(pct_high, 60);
            assert_eq!(pct_low, 30);
            assert_eq!(speed_ms, 5000);
        },
        _ => panic!("expected a pulse command"),
    }
}

#[test]
fn light_decision_fair_weather_is_solid() {
    let cmd = decide_light((255, 255, 255), false, false, true, 60, 5000);
    match cmd {
        LightCommand::Solid { color } => {
            // (60/100)^2.8 in 16.16 fixed point is 15678: 255 scales to 61.
            assert_eq!(color, (61, 61, 61));
        },
        _ => panic!("expected a solid command"),
    }
    // Precipitation with pulsing disabled is also solid.
    assert!(matches!(
        decide_light((255, 255, 255), false, true, false, 60, 5000),
        LightCommand::Solid { .. }
    ));
}
