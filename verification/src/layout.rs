use vstd::prelude::*;

use crate::color::{Rgb, resolve, spec_resolve};
use crate::engine::TURN;

verus! {

/// Fixed pointer anchor: "north" in a screen frame where 0 is east and angles
/// grow clockwise, i.e. 1.5 pi, as a fraction of `TURN`.
pub const POINTER_ANGLE: i64 = 750_000;

/// One configured segment, before colors are resolved.
pub struct SegmentConfig {
    pub label: String,
    pub weight: u32,
    pub color: Option<String>,
}

/// One wedge of the wheel: label, weight and resolved color. Immutable once
/// the wheel is built.
pub struct Segment {
    pub label: String,
    pub weight: u32,
    pub color: Rgb,
}

/// The ordered segments with the sum of their weights. Segment `i` occupies
/// the arc `[boundary(i), boundary(i+1))` of one full turn, proportional to
/// its weight; zero-weight segments give empty arcs and stay out of reach of
/// the hit-test by construction.
pub struct WheelLayout {
    pub segments: Vec<Segment>,
    pub total_weight: u64,
}

/// Sum of the first `i` weights.
pub open spec fn spec_cum_weight(ws: Seq<u32>, i: int) -> int
    decreases i,
{
    if i <= 0 {
        0
    } else {
        spec_cum_weight(ws, i - 1) + ws[i - 1]
    }
}

/// The angular position where segment `i` begins: the cumulative weight,
/// scaled to turn units, rounded down.
pub open spec fn spec_boundary(ws: Seq<u32>, i: int) -> int {
    spec_cum_weight(ws, i) * (TURN as int) / spec_cum_weight(ws, ws.len() as int)
}

/// The angular width of segment `i`.
pub open spec fn spec_width(ws: Seq<u32>, i: int) -> int {
    spec_boundary(ws, i + 1) - spec_boundary(ws, i)
}

/// Sum of the widths of the first `i` segments.
pub open spec fn spec_width_sum(ws: Seq<u32>, i: int) -> int
    decreases i,
{
    if i <= 0 {
        0
    } else {
        spec_width_sum(ws, i - 1) + spec_width(ws, i - 1)
    }
}

/// The first segment at or after `i` whose arc ends past `hit`, falling back
/// to the last segment.
pub open spec fn spec_segment_at_from(ws: Seq<u32>, hit: int, i: int) -> int
    decreases ws.len() - i,
{
    if i + 1 >= ws.len() {
        ws.len() as int - 1
    } else if hit < spec_boundary(ws, i + 1) {
        i
    } else {
        spec_segment_at_from(ws, hit, i + 1)
    }
}

/// The segment whose arc contains the hit angle: the first one in order whose
/// interval `[boundary(i), boundary(i+1))` contains it, the last segment if
/// none does.
pub open spec fn spec_segment_at(ws: Seq<u32>, hit: int) -> int {
    spec_segment_at_from(ws, hit, 0)
}

/// A rotation angle reduced to `[0, TURN)` by Euclidean remainder.
pub open spec fn spec_normalize(a: int) -> int {
    a % (TURN as int)
}

/// The wheel angle under the fixed pointer: the pointer anchor minus the
/// rotation, reduced to `[0, TURN)`.
pub open spec fn spec_hit_angle(angle: int) -> int {
    (POINTER_ANGLE as int - spec_normalize(angle)) % (TURN as int)
}

impl WheelLayout {
    /// The weights in segment order.
    pub open spec fn weights(self) -> Seq<u32> {
        self.segments@.map_values(|s: Segment| s.weight)
    }

    /// Internal invariant: the stored total is the sum of the weights, and
    /// the segment count is small enough that the sum fits its carrier.
    pub open spec fn wf(self) -> bool {
        &&& self.total_weight == spec_cum_weight(self.weights(), self.segments@.len() as int)
        &&& self.segments@.len() <= 0x1_0000_0000
    }
}

/// Cumulative weights never decrease.
pub proof fn lemma_cum_monotone(ws: Seq<u32>, i: int, j: int)
    requires
        0 <= i <= j,
    ensures
        spec_cum_weight(ws, i) <= spec_cum_weight(ws, j),
    decreases j - i,
{
    if i < j {
        lemma_cum_monotone(ws, i, j - 1);
    }
}

/// Each cumulative weight is bounded by the count of summands.
proof fn lemma_cum_bound(ws: Seq<u32>, i: int)
    requires
        0 <= i,
    ensures
        0 <= spec_cum_weight(ws, i) <= i * 0xffff_ffff,
    decreases i,
{
    if i > 0 {
        lemma_cum_bound(ws, i - 1);
        assert((i - 1) * 0xffff_ffff + 0xffff_ffff == i * 0xffff_ffff) by (nonlinear_arith);
    }
}

/// Boundaries never decrease, start at zero, and end exactly at one full
/// turn.
pub proof fn lemma_boundary_monotone(ws: Seq<u32>, i: int, j: int)
    requires
        0 <= i <= j,
        spec_cum_weight(ws, ws.len() as int) > 0,
    ensures
        spec_boundary(ws, i) <= spec_boundary(ws, j),
{
    let total = spec_cum_weight(ws, ws.len() as int);
    lemma_cum_monotone(ws, i, j);
    lemma_cum_monotone(ws, 0, i);
    assert(spec_cum_weight(ws, i) * (TURN as int) <= spec_cum_weight(ws, j) * (TURN as int))
        by (nonlinear_arith)
        requires
            spec_cum_weight(ws, i) <= spec_cum_weight(ws, j),
    ;
    vstd::arithmetic::div_mod::lemma_div_is_ordered(
        spec_cum_weight(ws, i) * (TURN as int),
        spec_cum_weight(ws, j) * (TURN as int),
        total,
    );
}

/// A boundary at or before the end never exceeds one full turn, and the end
/// boundary is exactly one full turn.
pub proof fn lemma_boundary_range(ws: Seq<u32>, i: int)
    requires
        0 <= i <= ws.len(),
        spec_cum_weight(ws, ws.len() as int) > 0,
    ensures
        0 <= spec_boundary(ws, i) <= TURN as int,
        spec_boundary(ws, 0) == 0,
        spec_boundary(ws, ws.len() as int) == TURN as int,
{
    let total = spec_cum_weight(ws, ws.len() as int);
    assert(total * (TURN as int) / total == TURN as int) by (nonlinear_arith)
        requires
            total > 0,
    ;
    lemma_boundary_monotone(ws, 0, i);
    lemma_boundary_monotone(ws, i, ws.len() as int);
    assert(spec_cum_weight(ws, 0) == 0);
    assert(0 * (TURN as int) / total == 0);
}

/// Layout coverage: the angular widths of the segments sum to exactly one
/// full turn, and consecutive arcs `[boundary(i), boundary(i+1))` tile
/// `[0, TURN)` with no gap or overlap: each arc begins where the previous one
/// ends, the first begins at 0, the last ends at `TURN`, and no boundary
/// steps backwards.
pub proof fn lemma_layout_coverage(ws: Seq<u32>)
    requires
        ws.len() > 0,
        spec_cum_weight(ws, ws.len() as int) > 0,
    ensures
        spec_width_sum(ws, ws.len() as int) == TURN as int,
        spec_boundary(ws, 0) == 0,
        spec_boundary(ws, ws.len() as int) == TURN as int,
        forall|i: int|
            0 <= i < ws.len() ==> #[trigger] spec_width(ws, i) == spec_boundary(ws, i + 1)
                - spec_boundary(ws, i),
        forall|i: int|
            0 <= i < ws.len() ==> spec_boundary(ws, i) <= #[trigger] spec_boundary(ws, i + 1),
{
    lemma_boundary_range(ws, 0);
    lemma_width_sum_telescopes(ws, ws.len() as int);
    assert forall|i: int| 0 <= i < ws.len() implies spec_boundary(ws, i) <= #[trigger] spec_boundary(
        ws,
        i + 1,
    ) by {
        lemma_boundary_monotone(ws, i, i + 1);
    }
}

/// The width sum telescopes to the end boundary.
proof fn lemma_width_sum_telescopes(ws: Seq<u32>, i: int)
    requires
        0 <= i <= ws.len(),
        spec_cum_weight(ws, ws.len() as int) > 0,
    ensures
        spec_width_sum(ws, i) == spec_boundary(ws, i),
    decreases i,
{
    if i == 0 {
        lemma_boundary_range(ws, 0);
    } else {
        lemma_width_sum_telescopes(ws, i - 1);
    }
}

/// The resolved segment's arc really contains the hit angle, and the
/// resolved index is in range: consistency of the hit-test with the layout.
pub proof fn lemma_segment_at_in_interval(ws: Seq<u32>, hit: int)
    requires
        ws.len() > 0,
        spec_cum_weight(ws, ws.len() as int) > 0,
        0 <= hit < TURN as int,
    ensures
        0 <= spec_segment_at(ws, hit) < ws.len(),
        spec_boundary(ws, spec_segment_at(ws, hit)) <= hit,
        hit < spec_boundary(ws, spec_segment_at(ws, hit) + 1),
{
    lemma_boundary_range(ws, 0);
    lemma_segment_at_from_interval(ws, hit, 0);
}

proof fn lemma_segment_at_from_interval(ws: Seq<u32>, hit: int, i: int)
    requires
        0 <= i < ws.len(),
        spec_cum_weight(ws, ws.len() as int) > 0,
        spec_boundary(ws, i) <= hit,
        hit < TURN as int,
    ensures
        i <= spec_segment_at_from(ws, hit, i) < ws.len(),
        spec_boundary(ws, spec_segment_at_from(ws, hit, i)) <= hit,
        hit < spec_boundary(ws, spec_segment_at_from(ws, hit, i) + 1),
    decreases ws.len() - i,
{
    if i + 1 >= ws.len() {
        lemma_boundary_range(ws, ws.len() as int);
    } else if hit < spec_boundary(ws, i + 1) {
    } else {
        lemma_segment_at_from_interval(ws, hit, i + 1);
    }
}

/// Hit-test totality: whatever the rotation angle, the hit angle lands in
/// `[0, TURN)` and the resolved index is a valid segment index.
pub proof fn lemma_hit_test_total(ws: Seq<u32>, angle: int)
    requires
        ws.len() > 0,
    ensures
        0 <= spec_hit_angle(angle) < TURN as int,
        0 <= spec_segment_at(ws, spec_hit_angle(angle)) < ws.len(),
{
    lemma_segment_at_from_range(ws, spec_hit_angle(angle), 0);
}

/// The walk from any start index stays within the segment range.
proof fn lemma_segment_at_from_range(ws: Seq<u32>, hit: int, i: int)
    requires
        0 <= i < ws.len(),
    ensures
        i <= spec_segment_at_from(ws, hit, i) < ws.len(),
    decreases ws.len() - i,
{
    if i + 1 < ws.len() && !(hit < spec_boundary(ws, i + 1)) {
        lemma_segment_at_from_range(ws, hit, i + 1);
    }
}

/// Reduce any rotation angle to `[0, TURN)` by Euclidean remainder.
pub fn normalize_angle(angle: i64) -> (n: i64)
    ensures
        n == spec_normalize(angle as int),
        0 <= n < TURN,
{
    let r: i64 = angle % TURN;
    if r < 0 {
        r + TURN
    } else {
        r
    }
}

/// The wheel angle under the fixed pointer, in `[0, TURN)`, for any rotation
/// angle.
pub fn hit_angle(angle: i64) -> (h: i64)
    ensures
        h == spec_hit_angle(angle as int),
        0 <= h < TURN,
{
    let n = normalize_angle(angle);
    let d: i64 = POINTER_ANGLE - n;
    if d < 0 {
        d + TURN
    } else {
        d
    }
}

impl WheelLayout {
    /// The index of the segment under the fixed pointer at the given rotation
    /// angle. Total over every angle, positive or not: the walk falls back to
    /// the last segment if rounding leaves no arc containing the hit angle.
    pub fn segment_at(&self, angle: i64) -> (idx: usize)
        requires
            self.wf(),
            self.total_weight > 0,
        ensures
            idx < self.segments@.len(),
            idx == spec_segment_at(self.weights(), spec_hit_angle(angle as int)),
    {
        let ws = Ghost(self.weights());
        proof {
            assert(self.segments@.len() > 0) by {
                if self.segments@.len() == 0 {
                    assert(spec_cum_weight(self.weights(), 0) == 0);
                }
            }
        }
        let hit: i64 = hit_angle(angle);
        let n: usize = self.segments.len();
        let total: u64 = self.total_weight;
        let mut cum: u64 = 0;
        let mut i: usize = 0;
        while i < n - 1
            invariant
                0 <= i <= n - 1,
                n == self.segments@.len(),
                n >= 1,
                ws@ == self.weights(),
                self.wf(),
                total == self.total_weight > 0,
                cum == spec_cum_weight(ws@, i as int),
                0 <= hit < TURN,
                hit == spec_hit_angle(angle as int),
                spec_segment_at(ws@, hit as int) == spec_segment_at_from(ws@, hit as int, i as int),
            decreases n - 1 - i,
        {
            proof {
                lemma_cum_monotone(ws@, i + 1 as int, n as int);
                lemma_cum_bound(ws@, i as int);
                assert(ws@[i as int] == self.segments@[i as int].weight);
            }
            cum = cum + (self.segments[i].weight as u64);
            assert(cum == spec_cum_weight(ws@, i as int + 1));
            assert(cum <= total);
            let bnum: u128 = (cum as u128) * (TURN as u128);
            let b128: u128 = bnum / (total as u128);
            proof {
                assert(cum as int * (TURN as int) <= total as int * (TURN as int))
                    by (nonlinear_arith)
                    requires
                        0 <= cum <= total,
                ;
                vstd::arithmetic::div_mod::lemma_div_is_ordered(
                    cum as int * (TURN as int),
                    total as int * (TURN as int),
                    total as int,
                );
                assert(total as int * (TURN as int) / (total as int) == TURN as int)
                    by (nonlinear_arith)
                    requires
                        total > 0,
                ;
                assert(b128 as int == spec_boundary(ws@, i as int + 1));
            }
            let b: u64 = b128 as u64;
            if (hit as u64) < b {
                return i;
            }
            i = i + 1;
        }
        proof {
            assert(spec_segment_at_from(ws@, hit as int, i as int) == n - 1);
        }
        n - 1
    }
}

/// The segment a configuration entry becomes: same label and weight, the
/// color resolved from the explicit spec or derived from the label.
pub open spec fn spec_resolve_config(c: SegmentConfig) -> Segment {
    Segment { label: c.label, weight: c.weight, color: spec_resolve(c.color.deep_view(), c.label@) }
}

/// Build the wheel from configured segments: order preserved, each color
/// resolved from its explicit spec or derived from its own label, and the
/// total weight summed. Zero weights are tolerated here; only the hit-test
/// divides by the total.
pub fn build(configs: Vec<SegmentConfig>) -> (l: WheelLayout)
    requires
        configs@.len() <= 0x1_0000_0000,
    ensures
        l.wf(),
        l.segments@.len() == configs@.len(),
        l.weights() == configs@.map_values(|c: SegmentConfig| c.weight),
        forall|i: int|
            0 <= i < configs@.len() ==> #[trigger] l.segments@[i] == spec_resolve_config(
                configs@[i],
            ),
{
    let cws = Ghost(configs@.map_values(|c: SegmentConfig| c.weight));
    let n: usize = configs.len();
    let mut segments: Vec<Segment> = Vec::new();
    let mut total: u64 = 0;
    let mut i: usize = 0;
    while i < n
        invariant
            0 <= i <= n,
            n == configs@.len() <= 0x1_0000_0000,
            cws@ == configs@.map_values(|c: SegmentConfig| c.weight),
            segments@.len() == i,
            total == spec_cum_weight(cws@, i as int),
            forall|j: int|
                0 <= j < i ==> #[trigger] segments@[j] == spec_resolve_config(configs@[j]),
        decreases n - i,
    {
        let c = &configs[i];
        let color = resolve(&c.color, c.label.as_str());
        let label = c.label.clone();
        let weight = c.weight;
        segments.push(Segment { label, weight, color });
        proof {
            lemma_cum_bound(cws@, i as int);
            assert(cws@[i as int] == configs@[i as int].weight);
            assert(i as int * 0xffff_ffff + 0xffff_ffff <= 0x1_0000_0000 * 0xffff_ffff)
                by (nonlinear_arith)
                requires
                    0 <= i as int <= 0x1_0000_0000 - 1,
            ;
        }
        total = total + (weight as u64);
        i = i + 1;
    }
    let l = WheelLayout { segments, total_weight: total };
    proof {
        assert(l.weights() =~= cws@);
        assert(spec_cum_weight(l.weights(), n as int) == spec_cum_weight(cws@, n as int));
    }
    l
}

} // verus!
