use rheel::color::{fnv1a_hash, generate_deterministic_color, hsv_to_rgb, is_bright, parse_hex_color, resolve, Rgb};

#[test]
fn parse_hex_six_digits_with_hash() {
    assert_eq!(parse_hex_color("#A1b2C3"), Some(Rgb { r: 0xA1, g: 0xb2, b: 0xC3 }));
}

#[test]
fn parse_hex_six_digits_bare() {
    assert_eq!(parse_hex_color("a1b2c3"), Some(Rgb { r: 0xa1, g: 0xb2, b: 0xc3 }));
}

#[test]
fn parse_hex_strips_at_most_one_hash() {
    // only #RRGGBB or RRGGBB are explicit colors; a second leading hash
    // leaves seven characters, which is no explicit color
    assert_eq!(parse_hex_color("##aabbcc"), None);
}

#[test]
fn parse_hex_wrong_length_is_none() {
    assert_eq!(parse_hex_color("#abc"), None);
    assert_eq!(parse_hex_color("abcdefa"), None);
    assert_eq!(parse_hex_color(""), None);
    assert_eq!(parse_hex_color("#"), None);
}

#[test]
fn parse_hex_non_hex_is_none() {
    assert_eq!(parse_hex_color("#zzzzzz"), None);
    assert_eq!(parse_hex_color("12345g"), None);
}

#[test]
fn brightness_boundaries() {
    assert!(is_bright(Rgb { r: 255, g: 255, b: 255 }));
    assert!(!is_bright(Rgb { r: 0, g: 0, b: 0 }));
    // 299*128 + 587*128 + 114*128 == 128000 exactly: not bright
    assert!(!is_bright(Rgb { r: 128, g: 128, b: 128 }));
    assert!(is_bright(Rgb { r: 129, g: 128, b: 128 }));
}

#[test]
fn hsv_red_sector_exact() {
    // c = 810, dist = 1000, x = 0, m = 90: channels (229, 22, 22)
    assert_eq!(hsv_to_rgb(0, 900, 900), Rgb { r: 229, g: 22, b: 22 });
}

#[test]
fn hsv_green_sector_exact() {
    // h = 120 degrees: sector (0, c, x); d = 0 so x = 0; c = 720, m = 80
    assert_eq!(hsv_to_rgb(120_000, 900, 800), Rgb { r: 20, g: 204, b: 20 });
}

#[test]
fn hsv_mid_sector_exact() {
    // h = 90 degrees: sector (x, c, 0); d = 1500, dist = 500, c = 640,
    // x = 640 * 500 / 1000 = 320, m = 160
    assert_eq!(hsv_to_rgb(90_000, 800, 800), Rgb { r: 122, g: 204, b: 40 });
}

#[test]
fn hsv_full_saturation_primaries() {
    assert_eq!(hsv_to_rgb(0, 1000, 1000), Rgb { r: 255, g: 0, b: 0 });
    assert_eq!(hsv_to_rgb(120_000, 1000, 1000), Rgb { r: 0, g: 255, b: 0 });
    assert_eq!(hsv_to_rgb(240_000, 1000, 1000), Rgb { r: 0, g: 0, b: 255 });
}

#[test]
fn hsv_zero_saturation_is_gray() {
    // at zero saturation every channel is the truncated value level,
    // whatever the hue
    assert_eq!(hsv_to_rgb(0, 0, 1000), Rgb { r: 255, g: 255, b: 255 });
    assert_eq!(hsv_to_rgb(200_000, 0, 500), Rgb { r: 127, g: 127, b: 127 });
    assert_eq!(hsv_to_rgb(310_000, 0, 0), Rgb { r: 0, g: 0, b: 0 });
}

#[test]
fn hsv_extreme_channels_follow_value_and_chroma() {
    // the largest channel is trunc(255 v), the smallest trunc(255 (v - c))
    let c = hsv_to_rgb(90_000, 800, 800);
    let max = c.r.max(c.g).max(c.b);
    let min = c.r.min(c.g).min(c.b);
    assert_eq!(max, (800u32 * 255 / 1000) as u8);
    assert_eq!(min, ((800u32 - 640) * 255 / 1000) as u8);
}

#[test]
fn fnv_hash_known_values() {
    assert_eq!(fnv1a_hash(""), 0xcbf29ce484222325);
    assert_eq!(fnv1a_hash("a"), 0xaf63dc4c8601ec8c);
    assert_eq!(fnv1a_hash("foo"), 0xdcb27518fed9d577);
}

#[test]
fn derived_color_is_deterministic() {
    // the same seed resolves to the identical color on every call
    let a = resolve(&None, "foo");
    let b = resolve(&None, "foo");
    assert_eq!(a, b);
    let c = generate_deterministic_color("foo");
    let d = generate_deterministic_color("foo");
    assert_eq!(c, d);
    assert_eq!(a, c);
}

#[test]
fn derived_color_is_never_flat() {
    // the draw ranges keep the largest channel at the value level, between
    // 204 and 241, and the smallest at or below 72
    for seed in ["foo", "bar", "1", "a much longer label"] {
        let c = generate_deterministic_color(seed);
        let max = c.r.max(c.g).max(c.b);
        let min = c.r.min(c.g).min(c.b);
        assert!((204..242).contains(&max), "max channel {} for {:?}", max, c);
        assert!(min <= 72, "min channel {} for {:?}", min, c);
    }
}

#[test]
fn resolve_prefers_explicit_color() {
    let explicit = Some(String::from("#FF8000"));
    assert_eq!(resolve(&explicit, "anything"), Rgb { r: 255, g: 128, b: 0 });
}

#[test]
fn resolve_falls_back_on_malformed_explicit() {
    let explicit = Some(String::from("not-a-color"));
    assert_eq!(resolve(&explicit, "foo"), resolve(&None, "foo"));
}
