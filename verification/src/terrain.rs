//! One mountain layer: a bounded random walk of heights, its outline, and its
//! scrolling.
//!
//! Lengths are whole numbers of micro-pixels: [`UNIT`] of them make a pixel.

use crate::color::Color;
use crate::randomness::drawn_u64;
use crate::randomness::Randomness;
use crate::randomness::StreamPosition;
use vstd::prelude::*;

verus! {

/// One pixel, in the unit that lengths are kept in.
pub const UNIT: i64 = 1_000_000;

/// The largest height, up or down, that a walk may be bounded by.
pub const HEIGHT_LIMIT: i64 = 0x1000_0000_0000_0000;

/// The largest step that a walk may take.
pub const STEP_LIMIT: i64 = 0x1000_0000_0000_0000;

/// The most samples that a layer may hold.
pub const SAMPLE_LIMIT: u64 = 0x2_0000_0000;

/// A bounded random walk, as numbers.
pub struct WalkState {
    pub height: int,
    pub slope: int,
    pub step_max: int,
    pub step_change: int,
    pub min_height: int,
    pub max_height: int,
}

impl WalkState {
    /// The slope after a draw of `draw` from `0..step_change`: it changes by
    /// `2 * draw - step_change` and is then held within `step_max` of zero.
    pub open spec fn next_slope(self, draw: int) -> int {
        let slope = self.slope + 2 * draw - self.step_change;
        if slope > self.step_max {
            self.step_max
        } else if slope < -self.step_max {
            -self.step_max
        } else {
            slope
        }
    }

    /// The walk one step on: the height moves by the slope, the slope
    /// changes with the draw, and a height that leaves the bounds is put
    /// back on the bound it crossed while the new slope changes sign.
    pub open spec fn step(self, draw: int) -> WalkState {
        let height = self.height + self.slope;
        let slope = self.next_slope(draw);
        if height > self.max_height {
            WalkState { height: self.max_height, slope: -slope, ..self }
        } else if height < self.min_height {
            WalkState { height: self.min_height, slope: -slope, ..self }
        } else {
            WalkState { height, slope, ..self }
        }
    }

    /// Whether the height lies within its bounds and the slope within
    /// `step_max` of zero.
    pub open spec fn within_bounds(self) -> bool {
        &&& self.min_height <= self.height <= self.max_height
        &&& -self.step_max <= self.slope <= self.step_max
    }
}

/// Every step of a walk ends within bounds, whatever was drawn and wherever
/// the walk stood before.
pub proof fn lemma_step_within_bounds(walk: WalkState, draw: int)
    requires
        walk.min_height <= walk.max_height,
        0 <= walk.step_max,
    ensures
        walk.step(draw).within_bounds(),
        walk.step(draw).min_height == walk.min_height,
        walk.step(draw).max_height == walk.max_height,
        walk.step(draw).step_max == walk.step_max,
        walk.step(draw).step_change == walk.step_change,
{
}

/// One step of `walk` with the draw that the stream gives at `at`.
pub open spec fn walk_step(walk: WalkState, at: StreamPosition) -> (WalkState, StreamPosition) {
    let draw = drawn_u64(at, 0, walk.step_change as u64);
    (walk.step(draw.0 as int), draw.1)
}

/// `walk` after `n` steps drawn from `at` on, and the position after them.
pub open spec fn walked(walk: WalkState, at: StreamPosition, n: nat) -> (WalkState, StreamPosition)
    decreases n,
{
    if n == 0 {
        (walk, at)
    } else {
        let before = walked(walk, at, (n - 1) as nat);
        walk_step(before.0, before.1)
    }
}

/// The heights that `walk` records in `n` steps drawn from `at` on: one after
/// each step.
pub open spec fn walk_samples(walk: WalkState, at: StreamPosition, n: nat) -> Seq<int> {
    Seq::new(n, |k: int| walked(walk, at, (k + 1) as nat).0.height)
}

/// A new walk between `min_height` and `max_height`, drawn at `at`: the
/// largest step from 0.9 to 1.1 pixels, the change of slope from 0.15 to 0.35
/// pixels, the height from zero to `max_height`, and the slope within the
/// largest step of zero.
pub open spec fn fresh_walk(at: StreamPosition, min_height: int, max_height: int) -> (
    WalkState,
    StreamPosition,
) {
    let step_max = drawn_u64(at, 900_000, 1_100_000);
    let step_change = drawn_u64(step_max.1, 150_000, 350_000);
    let height = drawn_u64(step_change.1, 0, max_height as u64);
    let slope = drawn_u64(height.1, 0, step_max.0);
    (
        WalkState {
            height: height.0 as int,
            slope: 2 * slope.0 - step_max.0,
            step_max: step_max.0 as int,
            step_change: step_change.0 as int,
            min_height,
            max_height,
        },
        slope.1,
    )
}

/// All steps of a walk that starts with ordered bounds end within them.
pub proof fn lemma_walked_within_bounds(walk: WalkState, at: StreamPosition, n: nat)
    requires
        walk.min_height <= walk.max_height,
        0 <= walk.step_max,
    ensures
        n > 0 ==> walked(walk, at, n).0.within_bounds(),
        walked(walk, at, n).0.min_height == walk.min_height,
        walked(walk, at, n).0.max_height == walk.max_height,
        walked(walk, at, n).0.step_max == walk.step_max,
        walked(walk, at, n).0.step_change == walk.step_change,
    decreases n,
{
    if n > 0 {
        lemma_walked_within_bounds(walk, at, (n - 1) as nat);
        let before = walked(walk, at, (n - 1) as nat);
        let draw = drawn_u64(before.1, 0, before.0.step_change as u64);
        lemma_step_within_bounds(before.0, draw.0 as int);
    }
}

/// Every sample of a walk lies between the walk's bounds.
pub proof fn lemma_samples_within_bounds(walk: WalkState, at: StreamPosition, n: nat, k: int)
    requires
        walk.min_height <= walk.max_height,
        0 <= walk.step_max,
        0 <= k < n,
    ensures
        walk.min_height <= walk_samples(walk, at, n)[k] <= walk.max_height,
{
    lemma_walked_within_bounds(walk, at, (k + 1) as nat);
}

/// The state of a bounded random walk of heights.
#[derive(Clone, Copy, Debug, PartialEq, Eq, Structural)]
pub struct MountainHeightGenerator {
    pub height: i64,
    pub slope: i64,
    pub step_max: i64,
    pub step_change: i64,
    pub min_height: i64,
    pub max_height: i64,
}

impl View for MountainHeightGenerator {
    type V = WalkState;

    open spec fn view(&self) -> WalkState {
        WalkState {
            height: self.height as int,
            slope: self.slope as int,
            step_max: self.step_max as int,
            step_change: self.step_change as int,
            min_height: self.min_height as int,
            max_height: self.max_height as int,
        }
    }
}

impl MountainHeightGenerator {
    /// A walk that can be stepped: ordered bounds, positive steps, and all
    /// of it small enough that a step cannot overflow.
    pub open spec fn wf(&self) -> bool {
        &&& -HEIGHT_LIMIT <= self.min_height <= self.max_height <= HEIGHT_LIMIT
        &&& -HEIGHT_LIMIT <= self.height <= HEIGHT_LIMIT
        &&& 0 < self.step_max <= STEP_LIMIT
        &&& 0 < self.step_change <= STEP_LIMIT
        &&& -self.step_max <= self.slope <= self.step_max
    }

    /// Whether the walk can be stepped.
    pub fn is_valid(&self) -> (valid: bool)
        ensures
            valid == self.wf(),
    {
        -HEIGHT_LIMIT <= self.min_height && self.min_height <= self.max_height && self.max_height
            <= HEIGHT_LIMIT && -HEIGHT_LIMIT <= self.height && self.height <= HEIGHT_LIMIT && 0
            < self.step_max && self.step_max <= STEP_LIMIT && 0 < self.step_change
            && self.step_change <= STEP_LIMIT && -self.step_max <= self.slope && self.slope
            <= self.step_max
    }

    /// The walk that four drawn numbers start: the largest step, the change
    /// of slope, the first height, and the number that the first slope is
    /// made of, which is doubled and lowered by the largest step.
    pub fn from_draws(
        min_height: i64,
        max_height: i64,
        step_max: u64,
        step_change: u64,
        height: u64,
        slope: u64,
    ) -> (generator: Self)
        requires
            -HEIGHT_LIMIT <= min_height <= max_height <= HEIGHT_LIMIT,
            0 < step_max <= STEP_LIMIT,
            0 < step_change <= STEP_LIMIT,
            height <= HEIGHT_LIMIT,
            slope < step_max,
        ensures
            generator.wf(),
            generator@ == (WalkState {
                height: height as int,
                slope: 2 * slope - step_max,
                step_max: step_max as int,
                step_change: step_change as int,
                min_height: min_height as int,
                max_height: max_height as int,
            }),
    {
        MountainHeightGenerator {
            height: height as i64,
            slope: (slope as i64) * 2 - (step_max as i64),
            step_max: step_max as i64,
            step_change: step_change as i64,
            min_height,
            max_height,
        }
    }

    /// Starts a walk between the two bounds with four draws: the largest
    /// step, from 0.9 to 1.1 pixels; the change of slope, from 0.15 to 0.35
    /// pixels; the first height, from zero to the upper bound; and the first
    /// slope, within the largest step of zero. The upper ends are left out.
    pub fn new(min_height: i64, max_height: i64, randomness: &mut Randomness) -> (generator: Self)
        requires
            -HEIGHT_LIMIT <= min_height <= max_height <= HEIGHT_LIMIT,
            0 < max_height,
        ensures
            generator.wf(),
            generator@ == fresh_walk(old(randomness)@, min_height as int, max_height as int).0,
            final(randomness)@ == fresh_walk(
                old(randomness)@,
                min_height as int,
                max_height as int,
            ).1,
            900_000 <= generator.step_max < 1_100_000,
            150_000 <= generator.step_change < 350_000,
            0 <= generator.height < max_height,
            -generator.step_max <= generator.slope < generator.step_max,
            generator.min_height == min_height,
            generator.max_height == max_height,
    {
        let step_max = randomness.draw_u64(900_000, 1_100_000);
        let step_change = randomness.draw_u64(150_000, 350_000);
        let height = randomness.draw_u64(0, max_height as u64);
        let slope = randomness.draw_u64(0, step_max);
        Self::from_draws(min_height, max_height, step_max, step_change, height, slope)
    }

    /// Takes one step with `draw` as the number drawn from `0..step_change`
    /// and returns the new height. The height moves by the slope and is put
    /// back on a bound that it crosses; the slope changes by
    /// `2 * draw - step_change`, is held within the largest step of zero,
    /// and changes sign where the height was put back.
    pub fn advance(&mut self, draw: u64) -> (height: i64)
        requires
            old(self).wf(),
            draw < old(self).step_change,
        ensures
            final(self).wf(),
            final(self)@ == old(self)@.step(draw as int),
            height == final(self).height,
            final(self)@.within_bounds(),
    {
        self.height = self.height + self.slope;
        self.slope = self.slope + ((draw as i64) * 2 - self.step_change);
        if self.slope > self.step_max {
            self.slope = self.step_max;
        } else if self.slope < -self.step_max {
            self.slope = -self.step_max;
        }
        if self.height > self.max_height {
            self.height = self.max_height;
            self.slope = -self.slope;
        } else if self.height < self.min_height {
            self.height = self.min_height;
            self.slope = -self.slope;
        }
        self.height
    }

    /// Takes one step with a draw from the stream and returns the new
    /// height, which lies within the bounds; the new slope lies within the
    /// largest step of zero.
    pub fn next(&mut self, randomness: &mut Randomness) -> (height: i64)
        requires
            old(self).wf(),
        ensures
            final(self).wf(),
            final(self)@ == walk_step(old(self)@, old(randomness)@).0,
            final(randomness)@ == walk_step(old(self)@, old(randomness)@).1,
            height == final(self).height,
            final(self)@.within_bounds(),
    {
        let draw = randomness.draw_u64(0, self.step_change as u64);
        self.advance(draw)
    }
}

/// A corner of an outline.
#[derive(Clone, Copy, Debug, PartialEq, Eq, Structural)]
pub struct Vertex {
    pub x: i64,
    pub y: i64,
}

/// A mountain layer: its heights from left to right, one to a pixel, and
/// what is needed to draw it and to scroll it on.
#[derive(Debug)]
pub struct Mountain {
    pub heights: Vec<i64>,
    pub color: Color,
    /// Depth of the layer, from one at the back.
    pub z: u8,
    pub height_generator: MountainHeightGenerator,
    /// How far the layer has scrolled into its leftmost pixel.
    pub sub_pixel_offset: i64,
}

/// A mountain layer, as numbers.
pub struct MountainView {
    pub heights: Seq<int>,
    pub color: Color,
    pub z: int,
    pub walk: WalkState,
    pub sub_pixel_offset: int,
}

impl View for Mountain {
    type V = MountainView;

    open spec fn view(&self) -> MountainView {
        MountainView {
            heights: self.heights@.map_values(|h: i64| h as int),
            color: self.color,
            z: self.z as int,
            walk: self.height_generator@,
            sub_pixel_offset: self.sub_pixel_offset as int,
        }
    }
}

/// The layer that `Mountain::new` builds at `at`, and the position after it:
/// a fresh walk, stepped twice for every pixel of `width`.
pub open spec fn mountain_at(
    at: StreamPosition,
    width: u32,
    min_height: int,
    max_height: int,
    color: Color,
    z: u8,
) -> (MountainView, StreamPosition) {
    let start = fresh_walk(at, min_height, max_height);
    let end = walked(start.0, start.1, (2 * width) as nat);
    (
        MountainView {
            heights: walk_samples(start.0, start.1, (2 * width) as nat),
            color,
            z: z as int,
            walk: end.0,
            sub_pixel_offset: 0,
        },
        end.1,
    )
}

/// Whatever the stream gives, the layer drawn between ordered bounds has two
/// heights to a pixel of width, each within the bounds, the colour and the
/// depth it was given, and no scroll offset.
pub proof fn lemma_mountain_within_bounds(
    at: StreamPosition,
    width: u32,
    min_height: int,
    max_height: int,
    color: Color,
    z: u8,
)
    requires
        min_height <= max_height,
    ensures
        mountain_at(at, width, min_height, max_height, color, z).0.heights.len() == 2 * width,
        forall|k: int|
            0 <= k < 2 * width ==> min_height <= #[trigger] mountain_at(
                at,
                width,
                min_height,
                max_height,
                color,
                z,
            ).0.heights[k] <= max_height,
        mountain_at(at, width, min_height, max_height, color, z).0.walk.min_height == min_height,
        mountain_at(at, width, min_height, max_height, color, z).0.walk.max_height == max_height,
        mountain_at(at, width, min_height, max_height, color, z).0.color == color,
        mountain_at(at, width, min_height, max_height, color, z).0.z == z,
        mountain_at(at, width, min_height, max_height, color, z).0.sub_pixel_offset == 0,
{
    let start = fresh_walk(at, min_height, max_height);
    let layer = mountain_at(at, width, min_height, max_height, color, z).0;
    lemma_walked_within_bounds(start.0, start.1, (2 * width) as nat);
    assert forall|k: int| 0 <= k < 2 * width implies min_height <= #[trigger] layer.heights[k]
        <= max_height by {
        lemma_samples_within_bounds(start.0, start.1, (2 * width) as nat, k);
    }
}

/// The same stream gives the same layer: two layers built at equal
/// positions, with the same width, bounds, colour and depth, have the same
/// heights, one for one, and leave the stream at equal positions.
pub proof fn lemma_same_stream_same_mountain(
    first: Mountain,
    second: Mountain,
    at_first: StreamPosition,
    at_second: StreamPosition,
    width: u32,
    min_height: int,
    max_height: int,
    color: Color,
    z: u8,
)
    requires
        at_first == at_second,
        first@ == mountain_at(at_first, width, min_height, max_height, color, z).0,
        second@ == mountain_at(at_second, width, min_height, max_height, color, z).0,
    ensures
        first@ == second@,
        first.heights@ == second.heights@,
        first.height_generator == second.height_generator,
        first.color == second.color,
        first.z == second.z,
        first.sub_pixel_offset == second.sub_pixel_offset,
        mountain_at(at_first, width, min_height, max_height, color, z).1 == mountain_at(
            at_second,
            width,
            min_height,
            max_height,
            color,
            z,
        ).1,
{
    assert(first.heights@.len() == first@.heights.len());
    assert(second.heights@.len() == second@.heights.len());
    assert forall|k: int| 0 <= k < first.heights@.len() implies first.heights@[k]
        == second.heights@[k] by {
        assert(first@.heights[k] == first.heights@[k] as int);
        assert(second@.heights[k] == second.heights@[k] as int);
    }
    assert(first.heights@ =~= second.heights@);
    assert(first.height_generator@ == second.height_generator@);
}

/// The outline of a layer in a viewport: from the bottom left corner, moved
/// left by the scroll offset, over one corner per height, a pixel apart, to
/// the bottom on the right.
pub open spec fn outline(m: MountainView, width: u32, height: u32) -> Seq<(int, int)> {
    let start_x = -(width * 500_000) - m.sub_pixel_offset;
    let floor_y = -(height * 500_000);
    seq![(start_x, floor_y)] + Seq::new(
        m.heights.len(),
        |i: int| (start_x + i * UNIT, m.heights[i]),
    ) + seq![(start_x + m.heights.len() * UNIT, floor_y)]
}

/// The layer after scrolling for `delta_millis` milliseconds, drawn from `at`
/// on, and the position afterwards. The offset grows by 0.8 pixels a
/// second times the square of the depth; for every whole pixel in it one
/// height leaves on the left and the walk adds one on the right.
pub open spec fn scrolled(m: MountainView, at: StreamPosition, delta_millis: u32) -> (
    MountainView,
    StreamPosition,
) {
    let moved = m.sub_pixel_offset + 800 * (m.z * m.z) * delta_millis;
    let whole = (moved / (UNIT as int)) as nat;
    let end = walked(m.walk, at, whole);
    (
        MountainView {
            heights: (m.heights + walk_samples(m.walk, at, whole)).skip(whole as int),
            walk: end.0,
            sub_pixel_offset: moved % (UNIT as int),
            ..m
        },
        end.1,
    )
}

/// The speed of a layer of depth `z`, in micro-pixels a second: 0.8 pixels
/// times the square of the depth.
pub open spec fn speed_of(z: int) -> int {
    800_000 * (z * z)
}

/// Parallax: of two layers the nearer one, which has the greater depth,
/// scrolls faster.
pub proof fn lemma_nearer_layers_scroll_faster(far: int, near: int)
    requires
        0 <= far < near,
    ensures
        speed_of(far) < speed_of(near),
{
    assert(far * far < near * near) by (nonlinear_arith)
        requires
            0 <= far < near,
    ;
}

/// The corners of a path, as pairs of numbers.
pub open spec fn corners(path: Seq<Vertex>) -> Seq<(int, int)> {
    path.map_values(|v: Vertex| (v.x as int, v.y as int))
}

impl Mountain {
    /// A layer that can be drawn and scrolled.
    pub open spec fn wf(&self) -> bool {
        &&& self.height_generator.wf()
        &&& self.heights@.len() <= SAMPLE_LIMIT
        &&& 0 <= self.sub_pixel_offset < UNIT
    }

    /// Whether the layer can be drawn and scrolled.
    pub fn is_valid(&self) -> (valid: bool)
        ensures
            valid == self.wf(),
    {
        self.height_generator.is_valid() && (self.heights.len() as u64) <= SAMPLE_LIMIT && 0
            <= self.sub_pixel_offset && self.sub_pixel_offset < UNIT
    }

    /// Whether every height lies within the bounds of the walk.
    pub open spec fn heights_within_bounds(&self) -> bool {
        forall|i: int|
            0 <= i < self.heights@.len() ==> self.height_generator.min_height
                <= #[trigger] self.heights@[i] <= self.height_generator.max_height
    }

    /// Builds a layer of `2 * width` heights by a fresh walk between the two
    /// bounds. Every height lies within the bounds.
    pub fn new(
        width: u32,
        min_height: i64,
        max_height: i64,
        color: Color,
        z: u8,
        randomness: &mut Randomness,
    ) -> (mountain: Self)
        requires
            -HEIGHT_LIMIT <= min_height <= max_height <= HEIGHT_LIMIT,
            0 < max_height,
        ensures
            mountain.wf(),
            mountain@ == mountain_at(
                old(randomness)@,
                width,
                min_height as int,
                max_height as int,
                color,
                z,
            ).0,
            final(randomness)@ == mountain_at(
                old(randomness)@,
                width,
                min_height as int,
                max_height as int,
                color,
                z,
            ).1,
            mountain.heights@.len() == 2 * width,
            mountain.height_generator.min_height == min_height,
            mountain.height_generator.max_height == max_height,
            900_000 <= mountain.height_generator.step_max < 1_100_000,
            150_000 <= mountain.height_generator.step_change < 350_000,
            mountain.heights_within_bounds(),
            mountain.color == color,
            mountain.z == z,
            mountain.sub_pixel_offset == 0,
    {
        let ghost at = randomness@;
        let mut height_generator = MountainHeightGenerator::new(min_height, max_height, randomness);
        let ghost start = fresh_walk(at, min_height as int, max_height as int);
        let count: u64 = 2 * (width as u64);
        let mut heights: Vec<i64> = Vec::new();
        let mut i: u64 = 0;
        while i < count
            invariant
                i <= count,
                count == 2 * width,
                height_generator.wf(),
                height_generator.min_height == min_height,
                height_generator.max_height == max_height,
                900_000 <= height_generator.step_max < 1_100_000,
                150_000 <= height_generator.step_change < 350_000,
                height_generator@ == walked(start.0, start.1, i as nat).0,
                randomness@ == walked(start.0, start.1, i as nat).1,
                heights@.len() == i,
                forall|k: int|
                    0 <= k < i ==> #[trigger] heights@[k] == walked(
                        start.0,
                        start.1,
                        (k + 1) as nat,
                    ).0.height,
                forall|k: int| 0 <= k < i ==> min_height <= #[trigger] heights@[k] <= max_height,
            decreases count - i,
        {
            let height = height_generator.next(randomness);
            heights.push(height);
            i += 1;
        }
        let mountain = Mountain { heights, color, z, height_generator, sub_pixel_offset: 0 };
        proof {
            assert(mountain@.heights =~= walk_samples(start.0, start.1, (2 * width) as nat));
        }
        mountain
    }

    /// How fast the layer scrolls, in micro-pixels a second: 0.8 pixels times
    /// the square of its depth, so that nearer layers move faster.
    pub fn speed(&self) -> (speed: u64)
        ensures
            speed == speed_of(self.z as int),
    {
        let z: u64 = self.z as u64;
        assert(z * z <= 255 * 255) by (nonlinear_arith)
            requires
                z <= 255,
        ;
        800_000 * (z * z)
    }

    /// Scrolls the layer on by `delta_millis` milliseconds at its speed.
    /// For every whole pixel scrolled the leftmost height is dropped and the
    /// walk is continued by one height on the right, so the number of heights
    /// stays the same and they stay within the bounds.
    pub fn scroll(&mut self, delta_millis: u32, randomness: &mut Randomness)
        requires
            old(self).wf(),
        ensures
            final(self).wf(),
            final(self)@ == scrolled(old(self)@, old(randomness)@, delta_millis).0,
            final(randomness)@ == scrolled(old(self)@, old(randomness)@, delta_millis).1,
            final(self).heights@.len() == old(self).heights@.len(),
            old(self).heights_within_bounds() ==> final(self).heights_within_bounds(),
    {
        let ghost before = self@;
        let ghost at = randomness@;
        let ghost was_within = self.heights_within_bounds();
        let z: i64 = self.z as i64;
        assert(0 <= z * z <= 255 * 255) by (nonlinear_arith)
            requires
                0 <= z <= 255,
        ;
        let per_milli: i64 = 800 * (z * z);
        assert(0 <= per_milli * (delta_millis as i64) <= 52_020_000 * 0xffff_ffff)
            by (nonlinear_arith)
            requires
                0 <= per_milli <= 52_020_000,
                0 <= delta_millis <= 0xffff_ffff,
        ;
        let moved: i64 = self.sub_pixel_offset + per_milli * (delta_millis as i64);
        let whole: u64 = (moved / UNIT) as u64;
        self.sub_pixel_offset = moved % UNIT;
        let len: u64 = self.heights.len() as u64;
        let kept: Vec<i64> = if whole < len {
            self.heights.split_off(whole as usize)
        } else {
            Vec::new()
        };
        self.heights = kept;
        let mut i: u64 = 0;
        while i < whole
            invariant
                i <= whole,
                len == before.heights.len(),
                len <= SAMPLE_LIMIT,
                self.height_generator.wf(),
                self.height_generator.min_height == before.walk.min_height,
                self.height_generator.max_height == before.walk.max_height,
                self.height_generator@ == walked(before.walk, at, i as nat).0,
                randomness@ == walked(before.walk, at, i as nat).1,
                0 <= self.sub_pixel_offset < UNIT,
                self.sub_pixel_offset == moved % UNIT,
                self.z == before.z,
                self.color == before.color,
                self.heights@.len() + vstd::math::min(whole as int, len + i) == len + i,
                forall|k: int|
                    0 <= k < self.heights@.len() ==> #[trigger] self.heights@[k] == (before.heights
                        + walk_samples(before.walk, at, i as nat))[k + vstd::math::min(
                        whole as int,
                        len + i,
                    )],
                was_within ==> self.heights_within_bounds(),
            decreases whole - i,
        {
            let height = self.height_generator.next(randomness);
            if whole - i <= len {
                self.heights.push(height);
            }
            i += 1;
        }
        proof {
            let want = scrolled(before, at, delta_millis).0;
            assert(self@.heights =~= want.heights);
        }
    }

    /// The outline of the layer in a viewport of the given size, closed
    /// along the bottom edge.
    pub fn build_path(&self, width: u32, height: u32) -> (path: Vec<Vertex>)
        requires
            self.wf(),
        ensures
            corners(path@) == outline(self@, width, height),
    {
        let start_x: i64 = -((width as i64) * 500_000) - self.sub_pixel_offset;
        let floor_y: i64 = -((height as i64) * 500_000);
        let mut path: Vec<Vertex> = Vec::new();
        path.push(Vertex { x: start_x, y: floor_y });
        let n = self.heights.len();
        let mut i: usize = 0;
        while i < n
            invariant
                i <= n,
                n == self.heights@.len(),
                n <= SAMPLE_LIMIT,
                start_x == -(width * 500_000) - self.sub_pixel_offset,
                0 <= self.sub_pixel_offset < UNIT,
                path@.len() == i + 1,
                path@[0] == (Vertex { x: start_x, y: floor_y }),
                forall|k: int|
                    0 <= k < i ==> #[trigger] path@[k + 1] == (Vertex {
                        x: (start_x + k * UNIT) as i64,
                        y: self.heights@[k],
                    }),
            decreases n - i,
        {
            let x: i64 = start_x + (i as i64) * UNIT;
            path.push(Vertex { x, y: self.heights[i] });
            i += 1;
        }
        let end_x: i64 = start_x + (n as i64) * UNIT;
        path.push(Vertex { x: end_x, y: floor_y });
        proof {
            let want = outline(self@, width, height);
            assert(corners(path@).len() == want.len());
            assert forall|k: int| 0 <= k < want.len() implies corners(path@)[k] == want[k] by {
                if 0 < k && k <= n {
                    assert(path@[(k - 1) + 1] == path@[k]);
                }
            }
            assert(corners(path@) =~= want);
        }
        path
    }
}

} // verus!
