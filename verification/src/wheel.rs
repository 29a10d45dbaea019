use vstd::prelude::*;

use crate::color::{Rgb, spec_parse_hex, parse_hex_color};
use crate::engine::{
    RotationState, TURN, EASE_SCALE, spec_elapsed_after, spec_progress, spec_angle_at,
    MAX_DURATION_MS,
};
use crate::layout::{
    SegmentConfig, WheelLayout, build, spec_cum_weight, spec_segment_at, spec_hit_angle,
    spec_resolve_config,
};
use crate::rng::rand_i64_in;

verus! {

/// The whole configuration of one wheel, after parsing and before defaults
/// are applied. Absent optional fields take the documented defaults.
pub struct WheelConfig {
    pub spin_duration_ms: u32,
    pub center_color: Option<String>,
    pub center_radius_milli: Option<u32>,
    pub winner_message: Option<String>,
    pub winner_font_size: Option<u32>,
    pub label_font_size: Option<u32>,
    pub show_segments_borders: Option<bool>,
    pub segments: Vec<SegmentConfig>,
}

/// One tick cue: a short sound whose pitch and gain are jittered per
/// crossing; the duration is fixed.
pub struct TickParams {
    pub frequency_hz: u32,
    pub gain_micro: u32,
    pub duration_ms: u32,
}

/// What one frame of the simulation asks of the host: possibly a tick to
/// play, and whether the spin settled this frame.
pub struct FrameOutput {
    pub tick: Option<TickParams>,
    pub completed: bool,
}

/// The center color when the configured one is absent or malformed: gray 32.
pub open spec fn spec_center_color(c: Option<Seq<char>>) -> Rgb {
    match c {
        Some(s) => match spec_parse_hex(s) {
            Some(rgb) => rgb,
            None => Rgb { r: 32, g: 32, b: 32 },
        },
        None => Rgb { r: 32, g: 32, b: 32 },
    }
}

/// The center radius as a fraction of the outer radius, in thousandths,
/// defaulted to 200 and clamped to 800.
pub open spec fn spec_center_radius(c: Option<u32>) -> int {
    let raw = match c {
        Some(r) => r as int,
        None => 200,
    };
    if raw > 800 {
        800
    } else {
        raw
    }
}

/// One wheel instance: the immutable layout, the rotation owned by the spin
/// engine, the boundary-crossing tracker of the running spin, the latched
/// winner, and the resolved visual settings that rendering consumes.
pub struct Wheel {
    pub layout: WheelLayout,
    pub rotation: RotationState,
    pub last_segment_index: Option<usize>,
    pub winning_label: Option<String>,
    pub center_color: Rgb,
    pub center_radius_milli: u32,
    pub winner_template: String,
    pub winner_font_size: u32,
    pub label_font_size: u32,
    pub show_segments_borders: bool,
}

impl Wheel {
    /// Internal invariant: the layout is well formed with a positive total
    /// weight (the constructor rejects the rest), the rotation is well
    /// formed, and no winner is shown while a spin runs.
    pub open spec fn wf(self) -> bool {
        &&& self.layout.wf()
        &&& self.layout.total_weight > 0
        &&& self.layout.segments@.len() > 0
        &&& self.rotation.wf()
        &&& self.rotation.is_spinning ==> self.winning_label is None
        &&& self.center_radius_milli <= 800
    }

    /// Everything that one frame or one spin request leaves untouched: the
    /// layout and the visual settings.
    pub open spec fn same_fixture(self, other: Wheel) -> bool {
        &&& self.layout == other.layout
        &&& self.center_color == other.center_color
        &&& self.center_radius_milli == other.center_radius_milli
        &&& self.winner_template == other.winner_template
        &&& self.winner_font_size == other.winner_font_size
        &&& self.label_font_size == other.label_font_size
        &&& self.show_segments_borders == other.show_segments_borders
    }

    /// Build a wheel from its configuration: segments resolved in order, the
    /// rest angle drawn below one turn, visual settings defaulted and
    /// clamped, no spin running and no winner shown. All-zero weights would
    /// leave the hit-test without a divisor, so they are rejected here by
    /// precondition; the host falls back to the default configuration
    /// instead, the same recovery it uses for any malformed configuration.
    pub fn new(config: WheelConfig) -> (w: Wheel)
        requires
            0 < config.segments@.len() <= 0x1_0000_0000,
            spec_cum_weight(
                config.segments@.map_values(|c: SegmentConfig| c.weight),
                config.segments@.len() as int,
            ) > 0,
        ensures
            w.wf(),
            !w.rotation.is_spinning,
            w.last_segment_index is None,
            w.winning_label is None,
            w.layout.segments@.len() == config.segments@.len(),
            forall|i: int|
                0 <= i < config.segments@.len() ==> #[trigger] w.layout.segments@[i]
                    == spec_resolve_config(config.segments@[i]),
            0 <= w.rotation.current_angle < TURN,
            w.rotation.start_angle == 0,
            w.rotation.target_angle == 0,
            w.rotation.elapsed_ms == 0,
            w.rotation.duration_ms == if config.spin_duration_ms > MAX_DURATION_MS {
                MAX_DURATION_MS as int
            } else {
                config.spin_duration_ms as int
            },
            w.center_color == spec_center_color(config.center_color.deep_view()),
            w.center_radius_milli == spec_center_radius(config.center_radius_milli),
            w.winner_template@ == match config.winner_message {
                Some(m) => m@,
                None => "Winner:\n{label}"@,
            },
            w.winner_font_size == match config.winner_font_size {
                Some(s) => s as int,
                None => 40,
            },
            w.label_font_size == match config.label_font_size {
                Some(s) => s as int,
                None => 20,
            },
            w.show_segments_borders == match config.show_segments_borders {
                Some(b) => b,
                None => true,
            },
    {
        let WheelConfig {
            spin_duration_ms,
            center_color,
            center_radius_milli,
            winner_message,
            winner_font_size,
            label_font_size,
            show_segments_borders,
            segments,
        } = config;
        let layout = build(segments);
        proof {
            assert(layout.weights() == config.segments@.map_values(|c: SegmentConfig| c.weight));
        }
        let resolved_center: Rgb = match &center_color {
            Some(s) => match parse_hex_color(s.as_str()) {
                Some(rgb) => rgb,
                None => Rgb { r: 32, g: 32, b: 32 },
            },
            None => Rgb { r: 32, g: 32, b: 32 },
        };
        let radius_raw: u32 = match center_radius_milli {
            Some(r) => r,
            None => 200,
        };
        let radius: u32 = if radius_raw > 800 {
            800
        } else {
            radius_raw
        };
        let template: String = match winner_message {
            Some(m) => m,
            None => "Winner:\n{label}".to_owned(),
        };
        let wfs: u32 = match winner_font_size {
            Some(s) => s,
            None => 40,
        };
        let lfs: u32 = match label_font_size {
            Some(s) => s,
            None => 20,
        };
        let borders: bool = match show_segments_borders {
            Some(b) => b,
            None => true,
        };
        let initial: i64 = rand_i64_in(0, TURN);
        let rotation = RotationState::new(spin_duration_ms, initial);
        Wheel {
            layout,
            rotation,
            last_segment_index: None,
            winning_label: None,
            center_color: resolved_center,
            center_radius_milli: radius,
            winner_template: template,
            winner_font_size: wfs,
            label_font_size: lfs,
            show_segments_borders: borders,
        }
    }

    /// React to a "spin requested" event. While a spin runs the request is
    /// ignored and nothing at all changes; at rest it clears the displayed
    /// winner, resets the crossing tracker, and starts a randomized spin of
    /// at least ten full turns.
    pub fn request_spin(&mut self)
        requires
            old(self).wf(),
        ensures
            final(self).wf(),
            old(self).same_fixture(*final(self)),
            old(self).rotation.is_spinning ==> *final(self) == *old(self),
            !old(self).rotation.is_spinning ==> {
                &&& final(self).rotation.is_spinning
                &&& final(self).winning_label is None
                &&& final(self).last_segment_index is None
                &&& final(self).rotation.start_angle == (old(self).rotation.current_angle as int)
                    % (TURN as int)
                &&& final(self).rotation.current_angle == final(self).rotation.start_angle
                &&& final(self).rotation.start_angle + 10 * (TURN as int)
                    <= final(self).rotation.target_angle
                &&& final(self).rotation.target_angle < final(self).rotation.start_angle + 15 * (
                TURN as int)
                &&& final(self).rotation.elapsed_ms == 0
                &&& final(self).rotation.duration_ms == old(self).rotation.duration_ms
            },
    {
        if self.rotation.is_spinning {
            return ;
        }
        self.winning_label = None;
        self.last_segment_index = None;
        self.rotation.start_spin();
    }

    /// Jittered parameters of one tick cue.
    fn draw_tick_params() -> (p: TickParams)
        ensures
            550 <= p.frequency_hz < 650,
            500 <= p.gain_micro < 1500,
            p.duration_ms == 30,
    {
        let f: i64 = rand_i64_in(550, 650);
        let g: i64 = rand_i64_in(500, 1500);
        TickParams { frequency_hz: f as u32, gain_micro: g as u32, duration_ms: 30 }
    }

    /// One frame of the simulation. At rest nothing changes and nothing is
    /// asked. During a spin the rotation advances along the ease-out; the
    /// segment under the pointer is recorded, and a tick is emitted exactly
    /// when the index differs from the previously recorded one — never on the
    /// first recording of the spin. The frame on which progress completes
    /// latches the winner: the label of the segment under the pointer at the
    /// target angle.
    pub fn frame(&mut self, dt_ms: u32) -> (out: FrameOutput)
        requires
            old(self).wf(),
        ensures
            final(self).wf(),
            old(self).same_fixture(*final(self)),
            !old(self).rotation.is_spinning ==> *final(self) == *old(self) && out.tick is None
                && !out.completed,
            old(self).rotation.is_spinning ==> {
                let e = spec_elapsed_after(old(self).rotation.elapsed_ms as int, dt_ms as int);
                let t = spec_progress(e, old(self).rotation.duration_ms as int);
                let ang = spec_angle_at(
                    old(self).rotation.start_angle as int,
                    old(self).rotation.target_angle as int,
                    t,
                );
                let idx = spec_segment_at(old(self).layout.weights(), spec_hit_angle(ang));
                &&& final(self).rotation.current_angle == ang
                &&& final(self).rotation.start_angle == old(self).rotation.start_angle
                &&& final(self).rotation.target_angle == old(self).rotation.target_angle
                &&& final(self).rotation.duration_ms == old(self).rotation.duration_ms
                &&& final(self).rotation.elapsed_ms == e
                &&& final(self).last_segment_index == Some(idx as usize)
                &&& (out.tick is Some <==> (old(self).last_segment_index is Some
                    && old(self).last_segment_index != Some(idx as usize)))
                &&& (out.tick matches Some(p) ==> 550 <= p.frequency_hz < 650 && 500
                    <= p.gain_micro < 1500 && p.duration_ms == 30)
                &&& out.completed == (t == EASE_SCALE as int)
                &&& out.completed ==> {
                    &&& final(self).rotation.current_angle == old(self).rotation.target_angle
                    &&& !final(self).rotation.is_spinning
                    &&& final(self).winning_label == Some(old(self).layout.segments@[idx].label)
                }
                &&& !out.completed ==> final(self).rotation.is_spinning
                    && final(self).winning_label is None
            },
    {
        if !self.rotation.is_spinning {
            return FrameOutput { tick: None, completed: false };
        }
        let completed = self.rotation.advance(dt_ms);
        let idx = self.layout.segment_at(self.rotation.current_angle);
        let tick: Option<TickParams> = match self.last_segment_index {
            None => None,
            Some(last) => if last != idx {
                Some(Self::draw_tick_params())
            } else {
                None
            },
        };
        self.last_segment_index = Some(idx);
        if completed {
            self.winning_label = Some(self.layout.segments[idx].label.clone());
        }
        FrameOutput { tick, completed }
    }

    /// The index of the segment currently under the fixed pointer, used each
    /// frame for the pointer color and at rest for the winner.
    pub fn current_segment_index(&self) -> (idx: usize)
        requires
            self.wf(),
        ensures
            idx < self.layout.segments@.len(),
            idx == spec_segment_at(
                self.layout.weights(),
                spec_hit_angle(self.rotation.current_angle as int),
            ),
    {
        self.layout.segment_at(self.rotation.current_angle)
    }
}

/// The default configuration, used whole whenever the configured document is
/// missing or malformed: a five-second spin over five equal, unnamed-color
/// segments labeled by their one-based positions.
pub fn default_config() -> (c: WheelConfig)
    ensures
        c.spin_duration_ms == 5000,
        c.center_color matches Some(s) && s@ == "#202020"@,
        c.center_radius_milli == Some(250u32),
        c.winner_message matches Some(m) && m@ == "Winner:\n{label}"@,
        c.winner_font_size == Some(40u32),
        c.label_font_size == Some(20u32),
        c.show_segments_borders == Some(true),
        c.segments@.len() == 5,
        forall|i: int|
            0 <= i < 5 ==> (#[trigger] c.segments@[i]).weight == 1 && c.segments@[i].color
                is None,
        c.segments@[0].label@ == "1"@,
        c.segments@[1].label@ == "2"@,
        c.segments@[2].label@ == "3"@,
        c.segments@[3].label@ == "4"@,
        c.segments@[4].label@ == "5"@,
{
    let mut segments: Vec<SegmentConfig> = Vec::new();
    segments.push(SegmentConfig { label: "1".to_owned(), weight: 1, color: None });
    segments.push(SegmentConfig { label: "2".to_owned(), weight: 1, color: None });
    segments.push(SegmentConfig { label: "3".to_owned(), weight: 1, color: None });
    segments.push(SegmentConfig { label: "4".to_owned(), weight: 1, color: None });
    segments.push(SegmentConfig { label: "5".to_owned(), weight: 1, color: None });
    WheelConfig {
        spin_duration_ms: 5000,
        center_color: Some("#202020".to_owned()),
        center_radius_milli: Some(250),
        winner_message: Some("Winner:\n{label}".to_owned()),
        winner_font_size: Some(40),
        label_font_size: Some(20),
        show_segments_borders: Some(true),
        segments,
    }
}

} // verus!
