use rheel::engine::{RotationState, MAX_DURATION_MS, TURN};
use rheel::layout::{build, hit_angle, normalize_angle, SegmentConfig, POINTER_ANGLE};
use rheel::wheel::{default_config, Wheel, WheelConfig};

fn equal_segments(n: u32) -> Vec<SegmentConfig> {
    let mut v = Vec::new();
    let names = ["A", "B", "C", "D", "E", "F", "G", "H"];
    for i in 0..n as usize {
        v.push(SegmentConfig { label: String::from(names[i]), weight: 1, color: None });
    }
    v
}

fn test_wheel(segments: Vec<SegmentConfig>, duration_ms: u32) -> Wheel {
    Wheel::new(WheelConfig {
        spin_duration_ms: duration_ms,
        center_color: None,
        center_radius_milli: None,
        winner_message: None,
        winner_font_size: None,
        label_font_size: None,
        show_segments_borders: None,
        segments,
    })
}

#[test]
fn normalize_handles_negative_and_large_angles() {
    assert_eq!(normalize_angle(0), 0);
    assert_eq!(normalize_angle(-1), TURN - 1);
    assert_eq!(normalize_angle(TURN), 0);
    assert_eq!(normalize_angle(-123_456_789_012), normalize_angle(-123_456_789_012 % TURN));
    assert_eq!(normalize_angle(37 * TURN + 42), 42);
}

#[test]
fn pointer_sits_north() {
    assert_eq!(hit_angle(0), POINTER_ANGLE);
    assert_eq!(hit_angle(POINTER_ANGLE), 0);
    assert_eq!(hit_angle(-250_000), 0);
}

#[test]
fn hit_test_matches_layout_at_rest() {
    // five equal segments of width one fifth of a turn; a hit angle of
    // three quarters of a turn falls in the fourth segment
    let layout = build(equal_segments(5));
    assert_eq!(layout.total_weight, 5);
    let idx = layout.segment_at(0);
    assert_eq!(idx, 3);
    assert_eq!(layout.segments[idx].label, "D");
}

#[test]
fn hit_test_total_over_all_angles() {
    let layout = build(equal_segments(5));
    let angles = [
        0i64,
        -1,
        1,
        -123_456_789,
        987_654_321,
        i64::MAX / 2,
        i64::MIN / 2,
        TURN,
        -TURN,
    ];
    for &a in angles.iter() {
        let idx = layout.segment_at(a);
        assert!(idx < 5);
    }
}

#[test]
fn weighted_boundaries_are_exact() {
    // weights 1,2,3: boundaries at 0, 166666, 500000, 1000000
    let mut v = Vec::new();
    for (label, weight) in [("x", 1u32), ("y", 2), ("z", 3)] {
        v.push(SegmentConfig { label: String::from(label), weight, color: None });
    }
    let layout = build(v);
    assert_eq!(layout.total_weight, 6);
    // probe a hit angle h by rotating the wheel so that h sits under the pointer
    let probe = |h: i64| layout.segment_at(POINTER_ANGLE - h);
    assert_eq!(probe(0), 0);
    assert_eq!(probe(166_665), 0);
    assert_eq!(probe(166_666), 1);
    assert_eq!(probe(499_999), 1);
    assert_eq!(probe(500_000), 2);
    assert_eq!(probe(999_999), 2);
}

#[test]
fn zero_weight_segment_is_unreachable() {
    let mut v = Vec::new();
    v.push(SegmentConfig { label: String::from("empty"), weight: 0, color: None });
    v.push(SegmentConfig { label: String::from("full"), weight: 1, color: None });
    let layout = build(v);
    for &a in [0i64, 250_000, 500_000, 750_000, -333_333].iter() {
        assert_eq!(layout.segment_at(a), 1);
    }
}

#[test]
fn build_preserves_order_and_weights() {
    let layout = build(equal_segments(5));
    assert_eq!(layout.segments.len(), 5);
    for (i, name) in ["A", "B", "C", "D", "E"].iter().enumerate() {
        assert_eq!(layout.segments[i].label, *name);
        assert_eq!(layout.segments[i].weight, 1);
    }
}

#[test]
fn spin_travel_has_ten_turn_minimum() {
    let mut rs = RotationState::new(5000, 123_456);
    rs.start_spin();
    assert!(rs.is_spinning);
    assert!(rs.target_angle - rs.start_angle >= 10 * TURN);
    assert!(rs.target_angle - rs.start_angle < 15 * TURN);
    assert_eq!(rs.start_angle, 123_456);
}

#[test]
fn easing_reaches_target_exactly_and_completes_once() {
    let mut rs = RotationState::new(1000, 0);
    rs.start_spin_with(10 * TURN, 0);
    assert_eq!(rs.target_angle, 10 * TURN);
    let mut completions = 0;
    for _ in 0..15 {
        if rs.advance(100) {
            completions += 1;
        }
    }
    assert_eq!(completions, 1);
    assert_eq!(rs.current_angle, rs.target_angle);
    assert!(!rs.is_spinning);
}

#[test]
fn easing_midpoint_is_exact() {
    // halfway through: t = 512 of 1024, eased = 1024 - 512^5/1024^4 = 992,
    // so the angle is 992 * 10_000_000 / 1024 = 9_687_500
    let mut rs = RotationState::new(1000, 0);
    rs.start_spin_with(10 * TURN, 0);
    for _ in 0..5 {
        rs.advance(100);
    }
    assert_eq!(rs.elapsed_ms, 500);
    assert_eq!(rs.current_angle, 9_687_500);
    assert!(rs.is_spinning);
}

#[test]
fn frame_delta_is_clamped() {
    let mut rs = RotationState::new(1000, 0);
    rs.start_spin_with(10 * TURN, 0);
    rs.advance(100_000);
    assert_eq!(rs.elapsed_ms, 100);
    assert!(rs.is_spinning);
}

#[test]
fn overshooting_frame_accumulates_uncapped() {
    // elapsed time grows by the clamped delta even past the duration; only
    // progress saturates
    let mut rs = RotationState::new(250, 0);
    rs.start_spin_with(10 * TURN, 0);
    assert!(!rs.advance(100));
    assert!(!rs.advance(100));
    assert_eq!(rs.elapsed_ms, 200);
    let completed = rs.advance(100_000);
    assert!(completed);
    assert_eq!(rs.elapsed_ms, 300);
    assert_eq!(rs.current_angle, rs.target_angle);
}

#[test]
fn advance_at_rest_changes_nothing() {
    let mut rs = RotationState::new(1000, 777);
    let completed = rs.advance(50);
    assert!(!completed);
    assert_eq!(rs.current_angle, 777);
    assert_eq!(rs.elapsed_ms, 0);
    assert!(!rs.is_spinning);
}

#[test]
fn duration_is_clamped_to_maximum() {
    let rs = RotationState::new(u32::MAX, 0);
    assert_eq!(rs.duration_ms, MAX_DURATION_MS);
}

#[test]
fn zero_duration_spin_settles_on_first_frame() {
    let mut rs = RotationState::new(0, 0);
    rs.start_spin_with(10 * TURN, 500_000);
    let completed = rs.advance(1);
    assert!(completed);
    assert_eq!(rs.current_angle, rs.target_angle);
}

#[test]
fn spin_request_while_spinning_is_ignored() {
    let mut w = test_wheel(equal_segments(5), 2000);
    w.request_spin();
    assert!(w.rotation.is_spinning);
    let target = w.rotation.target_angle;
    let start = w.rotation.start_angle;
    let elapsed = w.rotation.elapsed_ms;
    let last = w.last_segment_index;
    w.request_spin();
    assert_eq!(w.rotation.target_angle, target);
    assert_eq!(w.rotation.start_angle, start);
    assert_eq!(w.rotation.elapsed_ms, elapsed);
    assert_eq!(w.last_segment_index, last);
    assert!(w.rotation.is_spinning);
}

#[test]
fn spin_request_clears_previous_winner() {
    let mut w = test_wheel(equal_segments(5), 200);
    w.request_spin();
    loop {
        if w.frame(100).completed {
            break;
        }
    }
    assert!(w.winning_label.is_some());
    w.request_spin();
    assert!(w.winning_label.is_none());
    assert!(w.last_segment_index.is_none());
}

#[test]
fn first_frame_of_spin_never_ticks() {
    let mut w = test_wheel(equal_segments(5), 2000);
    w.request_spin();
    let out = w.frame(1);
    assert!(out.tick.is_none());
    assert!(w.last_segment_index.is_some());
}

#[test]
fn ticks_count_boundary_crossings() {
    // with 1 ms frames of a 2000 ms spin, the wheel moves well under one
    // fifth of a turn per frame, so every crossing is seen exactly once
    let mut w = test_wheel(equal_segments(5), 2000);
    w.request_spin();
    let travel = w.rotation.target_angle - w.rotation.start_angle;
    let width = TURN / 5;
    let mut ticks: i64 = 0;
    let mut frames = 0;
    loop {
        let out = w.frame(1);
        if let Some(p) = out.tick {
            assert!((550..650).contains(&p.frequency_hz));
            assert!((500..1500).contains(&p.gain_micro));
            assert_eq!(p.duration_ms, 30);
            ticks += 1;
        }
        frames += 1;
        if out.completed {
            break;
        }
        assert!(frames < 10_000, "spin did not settle");
    }
    let crossings = travel / width;
    assert!(
        (crossings - 1..=crossings + 1).contains(&ticks),
        "ticks {} not within one of crossings {}",
        ticks,
        crossings
    );
}

#[test]
fn winner_matches_hit_test_at_target() {
    let mut w = test_wheel(equal_segments(5), 1000);
    w.request_spin();
    let target = w.rotation.target_angle;
    loop {
        if w.frame(100).completed {
            break;
        }
    }
    assert_eq!(w.rotation.current_angle, target);
    let idx = w.layout.segment_at(target);
    assert_eq!(w.winning_label.as_deref(), Some(w.layout.segments[idx].label.as_str()));
    assert_eq!(w.current_segment_index(), idx);
}

#[test]
fn frame_at_rest_changes_nothing() {
    let mut w = test_wheel(equal_segments(5), 1000);
    let angle = w.rotation.current_angle;
    let out = w.frame(100);
    assert!(!out.completed);
    assert!(out.tick.is_none());
    assert_eq!(w.rotation.current_angle, angle);
    assert!(w.winning_label.is_none());
}

#[test]
fn new_wheel_rests_below_one_turn() {
    let w = test_wheel(equal_segments(5), 1000);
    assert!(w.rotation.current_angle >= 0);
    assert!(w.rotation.current_angle < TURN);
    assert!(!w.rotation.is_spinning);
    assert!(w.winning_label.is_none());
}

#[test]
fn default_config_fields() {
    let c = default_config();
    assert_eq!(c.spin_duration_ms, 5000);
    assert_eq!(c.center_color.as_deref(), Some("#202020"));
    assert_eq!(c.center_radius_milli, Some(250));
    assert_eq!(c.winner_message.as_deref(), Some("Winner:\n{label}"));
    assert_eq!(c.winner_font_size, Some(40));
    assert_eq!(c.label_font_size, Some(20));
    assert_eq!(c.show_segments_borders, Some(true));
    assert_eq!(c.segments.len(), 5);
    for (i, s) in c.segments.iter().enumerate() {
        assert_eq!(s.label, (i + 1).to_string());
        assert_eq!(s.weight, 1);
        assert!(s.color.is_none());
    }
}

#[test]
fn wheel_applies_defaults_and_clamps() {
    let mut config = default_config();
    config.center_radius_milli = Some(5000);
    config.center_color = Some(String::from("bogus"));
    let w = Wheel::new(config);
    assert_eq!(w.center_radius_milli, 800);
    // a malformed center color falls back to gray 32
    assert_eq!(w.center_color, rheel::color::Rgb { r: 32, g: 32, b: 32 });
    let w2 = test_wheel(equal_segments(3), 1000);
    assert_eq!(w2.center_radius_milli, 200);
    assert_eq!(w2.winner_template, "Winner:\n{label}");
    assert_eq!(w2.winner_font_size, 40);
    assert_eq!(w2.label_font_size, 20);
    assert!(w2.show_segments_borders);
}
