use weatherlight::color::apply_brightness;
use weatherlight::color::degamma;
use weatherlight::color::hex_to_rgb;

#[test]
fn degamma_endpoints() {
    assert_eq!(degamma(0), 0);
    assert_eq!(degamma(255), 255);
}

#[test]
fn degamma_known_values() {
    // The two-segment sRGB inverse transfer, quantized round-half-up.
    assert_eq!(degamma(1), 0);
    assert_eq!(degamma(10), 1);
    assert_eq!(degamma(64), 13);
    assert_eq!(degamma(128), 55);
    assert_eq!(degamma(200), 147);
}

#[test]
fn degamma_monotonic_everywhere() {
    let mut prev = degamma(0);
    for v in 1..=255u8 {
        let cur = degamma(v);
        assert!(prev <= cur, "degamma not monotonic at {}", v);
        prev = cur;
    }
}

#[test]
fn brightness_full_is_identity() {
    assert_eq!(apply_brightness((10, 20, 30), 100), (10, 20, 30));
    assert_eq!(apply_brightness((255, 255, 255), 100), (255, 255, 255));
    assert_eq!(apply_brightness((0, 0, 0), 100), (0, 0, 0));
}

#[test]
fn brightness_zero_is_black() {
    assert_eq!(apply_brightness((10, 20, 30), 0), (0, 0, 0));
    assert_eq!(apply_brightness((255, 255, 255), 0), (0, 0, 0));
}

#[test]
fn brightness_half_exact() {
    // (50/100)^2.8 in 16.16 fixed point is 9410; channels truncate.
    assert_eq!(apply_brightness((200, 100, 50), 50), (28, 14, 7));
}

#[test]
fn brightness_above_hundred_clamps() {
    assert_eq!(apply_brightness((200, 100, 50), 255), (200, 100, 50));
}

#[test]
fn hex_parses_valid_colors() {
    assert_eq!(hex_to_rgb("#ff0080"), Some((255, 0, 128)));
    assert_eq!(hex_to_rgb("#000000"), Some((0, 0, 0)));
    assert_eq!(hex_to_rgb("#FFffFF"), Some((255, 255, 255)));
    assert_eq!(hex_to_rgb("#0000FF"), Some((0, 0, 255)));
    assert_eq!(hex_to_rgb("#12aB9c"), Some((0x12, 0xab, 0x9c)));
}

#[test]
fn hex_rejects_malformed_strings() {
    assert_eq!(hex_to_rgb("ff0080"), None);
    assert_eq!(hex_to_rgb("#ff008"), None);
    assert_eq!(hex_to_rgb("#ff00800"), None);
    assert_eq!(hex_to_rgb("#gg0000"), None);
    assert_eq!(hex_to_rgb(""), None);
    assert_eq!(hex_to_rgb("#00 000"), None);
}
