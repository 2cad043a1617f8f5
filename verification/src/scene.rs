//! A whole scene: a sky and four to six mountain layers, back to front, all
//! drawn from the stream of one token.

use crate::color::blended;
use crate::color::color_drawn;
use crate::color::color_within;
use crate::color::interpolate;
use crate::color::rand_color;
use crate::color::Color;
use crate::randomness::drawn_i32;
use crate::randomness::drawn_u64;
use crate::randomness::stream_start;
use crate::randomness::Randomness;
use crate::randomness::StreamPosition;
use crate::terrain::mountain_at;
use crate::terrain::Mountain;
use crate::terrain::MountainView;
use crate::terrain::HEIGHT_LIMIT;
use core::ops::Range;
use vstd::prelude::*;

verus! {

/// The range `low..high` of channel values.
pub open spec fn band(low: u8, high: u8) -> Range<u8> {
    Range { start: low, end: high }
}

/// A dark sky: every channel from 1 to 39.
pub open spec fn is_dark_sky(c: Color) -> bool {
    color_within(c, band(1, 40), band(1, 40), band(1, 40))
}

/// A pale blue-grey sky: red and green from 215 to 224, blue from 230 to 254.
pub open spec fn is_pale_sky(c: Color) -> bool {
    color_within(c, band(215, 225), band(215, 225), band(230, 255))
}

/// A light grey sky: every channel from 200 to 254.
pub open spec fn is_light_sky(c: Color) -> bool {
    color_within(c, band(200, 255), band(200, 255), band(200, 255))
}

/// Whether `c` is one of the three kinds of sky.
pub open spec fn is_sky_color(c: Color) -> bool {
    is_dark_sky(c) || is_pale_sky(c) || is_light_sky(c)
}

/// The channel ranges of a kind of sky, red first: kind 1 is dark, kind 2
/// pale blue-grey, and every other kind light grey.
pub open spec fn sky_bands(kind: i32) -> (Range<u8>, Range<u8>, Range<u8>) {
    if kind == 1 {
        (band(1, 40), band(1, 40), band(1, 40))
    } else if kind == 2 {
        (band(215, 225), band(215, 225), band(230, 255))
    } else {
        (band(200, 255), band(200, 255), band(200, 255))
    }
}

/// The sky drawn at `at`: a kind out of three, then a colour of that kind.
pub open spec fn sky_drawn(at: StreamPosition) -> (Color, StreamPosition) {
    let kind = drawn_i32(at, 1, 4);
    let bands = sky_bands(kind.0);
    color_drawn(kind.1, bands.0, bands.1, bands.2)
}

/// The lower bound of layer `index` out of `count`, in micro-pixels: twice
/// the viewport height, divided by `count * (count - index)`, below zero.
pub open spec fn layer_min_height(viewport_height: int, count: int, index: int) -> int {
    -((viewport_height * 2_000_000) / (count * (count - index)))
}

/// The upper bound of layer `index` out of `count`, in micro-pixels: 0.7 of
/// the viewport height, less the share `0.7 * index / count` of that.
pub open spec fn layer_max_height(viewport_height: int, count: int, index: int) -> int {
    (viewport_height * 70_000 * (10 * count - 7 * index)) / count
}

/// The first `built` layers of a scene drawn from `at` on, back to front, and
/// the position after them. Layer `i` blends the base colour into the sky
/// with weight `(i + 1) / count` and has depth `i + 1`.
pub open spec fn layers_drawn(
    at: StreamPosition,
    width: u32,
    height: u32,
    count: int,
    base: Color,
    sky: Color,
    built: nat,
) -> (Seq<MountainView>, StreamPosition)
    decreases built,
{
    if built == 0 {
        (Seq::empty(), at)
    } else {
        let before = layers_drawn(at, width, height, count, base, sky, (built - 1) as nat);
        let index = built - 1;
        let layer = mountain_at(
            before.1,
            width,
            layer_min_height(height as int, count, index),
            layer_max_height(height as int, count, index),
            blended(base, sky, index + 1, count),
            (index + 1) as u8,
        );
        (before.0.push(layer.0), layer.1)
    }
}

/// A scene, as numbers.
pub struct SceneView {
    pub sky_color: Color,
    pub mountains: Seq<MountainView>,
}

/// The scene drawn from `at` on for a viewport, and the position after it:
/// the sky, the number of layers from four to six, the base colour of the
/// mountains, and then the layers.
pub open spec fn scene_drawn(at: StreamPosition, width: u32, height: u32) -> (
    SceneView,
    StreamPosition,
) {
    let sky = sky_drawn(at);
    let count = drawn_u64(sky.1, 4, 7);
    let base = color_drawn(count.1, band(1, 255), band(1, 255), band(1, 255));
    let layers = layers_drawn(
        base.1,
        width,
        height,
        count.0 as int,
        base.0,
        sky.0,
        count.0 as nat,
    );
    (SceneView { sky_color: sky.0, mountains: layers.0 }, layers.1)
}

/// The scene of a token in a viewport.
pub open spec fn scene_of(token_address: Seq<char>, width: u32, height: u32) -> SceneView {
    scene_drawn(stream_start(token_address), width, height).0
}

/// The layers of a list, each as numbers.
pub open spec fn mountain_views(mountains: Seq<Mountain>) -> Seq<MountainView> {
    mountains.map_values(|m: Mountain| m@)
}

/// A sky and its mountain layers, back to front.
#[derive(Debug)]
pub struct Scene {
    pub sky_color: Color,
    pub mountains: Vec<Mountain>,
}

impl View for Scene {
    type V = SceneView;

    open spec fn view(&self) -> SceneView {
        SceneView { sky_color: self.sky_color, mountains: mountain_views(self.mountains@) }
    }
}

/// The lower bound of layer `index` out of `count`, counted from the back, in
/// a viewport of the given height: twice the height over
/// `count * (count - index)`, below zero.
pub fn min_height_of_layer(viewport_height: u32, count: u8, index: u8) -> (bound: i64)
    requires
        index < count,
    ensures
        bound == layer_min_height(viewport_height as int, count as int, index as int),
        -HEIGHT_LIMIT <= bound <= 0,
{
    let doubled: i64 = (viewport_height as i64) * 2_000_000;
    let c: i64 = count as i64;
    let rest: i64 = (count - index) as i64;
    assert(0 < c * rest <= 255 * 255) by (nonlinear_arith)
        requires
            0 < c <= 255,
            0 < rest <= 255,
    ;
    let divisor: i64 = c * rest;
    assert(0 <= doubled / divisor <= doubled) by (nonlinear_arith)
        requires
            0 <= doubled,
            0 < divisor,
    ;
    -(doubled / divisor)
}

/// The upper bound of layer `index` out of `count`, counted from the back, in
/// a viewport of the given height: 0.7 of the height, less the share
/// `0.7 * index / count` of that. It is above zero wherever the viewport has a
/// height.
pub fn max_height_of_layer(viewport_height: u32, count: u8, index: u8) -> (bound: i64)
    requires
        index < count,
    ensures
        bound == layer_max_height(viewport_height as int, count as int, index as int),
        0 <= bound <= HEIGHT_LIMIT,
        viewport_height > 0 ==> bound > 0,
{
    let base: i64 = (viewport_height as i64) * 70_000;
    let c: i64 = count as i64;
    let share: i64 = 10 * c - 7 * (index as i64);
    assert(base * c <= base * share <= base * 2550) by (nonlinear_arith)
        requires
            0 <= base,
            0 < c <= share <= 2550,
    ;
    let scaled: i64 = base * share;
    assert(base <= scaled / c <= scaled) by (nonlinear_arith)
        requires
            0 <= base,
            base * c <= scaled,
            0 < c,
    ;
    scaled / c
}

impl Scene {
    /// What holds of every generated scene in a viewport: the sky is of one
    /// of the three kinds, there are four to six layers, and each layer has
    /// two heights to a pixel of width, all within that layer's bounds.
    pub open spec fn wf(&self, width: u32, height: u32) -> bool {
        &&& is_sky_color(self.sky_color)
        &&& 4 <= self.mountains@.len() < 7
        &&& forall|i: int|
            0 <= i < self.mountains@.len() ==> {
                let m = #[trigger] self.mountains@[i];
                &&& m.wf()
                &&& m.z == i + 1
                &&& m.heights@.len() == 2 * width
                &&& m.height_generator.min_height == layer_min_height(
                    height as int,
                    self.mountains@.len() as int,
                    i,
                )
                &&& m.height_generator.max_height == layer_max_height(
                    height as int,
                    self.mountains@.len() as int,
                    i,
                )
                &&& m.heights_within_bounds()
            }
    }

    /// The scene of `token_address` in a viewport: a function of the address
    /// and the size alone. A viewport without height has no scene.
    pub fn generate(token_address: &str, width: u32, height: u32) -> (scene: Option<Self>)
        ensures
            scene is Some <==> height > 0,
            scene is Some ==> scene->0@ == scene_of(token_address@, width, height),
            scene is Some ==> scene->0.wf(width, height),
    {
        let mut randomness = Randomness::from_token_address(token_address);
        spawn_mountains(&mut randomness, width, height)
    }
}

/// Two scenes generated for the same token and viewport are the same scene:
/// the same sky, the same number of layers, and in every layer the same
/// heights, one for one.
pub proof fn lemma_same_token_same_scene(
    first: Scene,
    second: Scene,
    token_address: Seq<char>,
    width: u32,
    height: u32,
)
    requires
        first@ == scene_of(token_address, width, height),
        second@ == scene_of(token_address, width, height),
    ensures
        first@ == second@,
        first.sky_color == second.sky_color,
        first.mountains@.len() == second.mountains@.len(),
        forall|i: int|
            0 <= i < first.mountains@.len() ==> (#[trigger] first.mountains@[i]).heights@
                == second.mountains@[i].heights@,
{
    assert(first.mountains@.len() == mountain_views(first.mountains@).len());
    assert(second.mountains@.len() == mountain_views(second.mountains@).len());
    assert forall|i: int| 0 <= i < first.mountains@.len() implies (
    #[trigger] first.mountains@[i]).heights@ == second.mountains@[i].heights@ by {
        let a = first.mountains@[i];
        let b = second.mountains@[i];
        assert(mountain_views(first.mountains@)[i] == a@);
        assert(mountain_views(second.mountains@)[i] == b@);
        assert(a@.heights == b@.heights);
        assert(a.heights@.len() == a@.heights.len());
        assert(b.heights@.len() == b@.heights.len());
        assert forall|k: int| 0 <= k < a.heights@.len() implies a.heights@[k] == b.heights@[k] by {
            assert(a@.heights[k] == a.heights@[k] as int);
            assert(b@.heights[k] == b.heights@[k] as int);
        }
        assert(a.heights@ =~= b.heights@);
    }
}

/// The channel ranges that a sky of the given kind is drawn from.
pub fn sky_ranges(kind: i32) -> (bands: (Range<u8>, Range<u8>, Range<u8>))
    ensures
        bands == sky_bands(kind),
{
    if kind == 1 {
        (Range { start: 1, end: 40 }, Range { start: 1, end: 40 }, Range { start: 1, end: 40 })
    } else if kind == 2 {
        (
            Range { start: 215, end: 225 },
            Range { start: 215, end: 225 },
            Range { start: 230, end: 255 },
        )
    } else {
        (
            Range { start: 200, end: 255 },
            Range { start: 200, end: 255 },
            Range { start: 200, end: 255 },
        )
    }
}

fn draw_sky(randomness: &mut Randomness) -> (sky: Color)
    ensures
        is_sky_color(sky),
        sky == sky_drawn(old(randomness)@).0,
        final(randomness)@ == sky_drawn(old(randomness)@).1,
{
    let kind = randomness.draw_i32(1, 4);
    let (red, green, blue) = sky_ranges(kind);
    rand_color(randomness, red, green, blue)
}

/// Draws a scene from the stream: the sky, then the number of layers, the
/// base colour of the mountains, and the layers from the farthest to the
/// nearest. Nothing is drawn for a viewport without height.
pub fn spawn_mountains(randomness: &mut Randomness, width: u32, height: u32) -> (scene: Option<
    Scene,
>)
    ensures
        scene is Some <==> height > 0,
        scene is None ==> final(randomness)@ == old(randomness)@,
        scene is Some ==> {
            &&& scene->0@ == scene_drawn(old(randomness)@, width, height).0
            &&& final(randomness)@ == scene_drawn(old(randomness)@, width, height).1
            &&& scene->0.wf(width, height)
        },
{
    if height == 0 {
        return None;
    }
    let sky_color = draw_sky(randomness);
    let num_mountains: u8 = randomness.draw_u64(4, 7) as u8;
    let mountain_base_color = rand_color(
        randomness,
        Range { start: 1, end: 255 },
        Range { start: 1, end: 255 },
        Range { start: 1, end: 255 },
    );
    let ghost at = randomness@;
    let mut mountains: Vec<Mountain> = Vec::new();
    let mut i: u8 = 0;
    while i < num_mountains
        invariant
            i <= num_mountains,
            4 <= num_mountains < 7,
            height > 0,
            mountains@.len() == i,
            mountain_views(mountains@) == layers_drawn(
                at,
                width,
                height,
                num_mountains as int,
                mountain_base_color,
                sky_color,
                i as nat,
            ).0,
            randomness@ == layers_drawn(
                at,
                width,
                height,
                num_mountains as int,
                mountain_base_color,
                sky_color,
                i as nat,
            ).1,
            forall|k: int|
                0 <= k < i ==> {
                    let m = #[trigger] mountains@[k];
                    &&& m.wf()
                    &&& m.z == k + 1
                    &&& m.heights@.len() == 2 * width
                    &&& m.height_generator.min_height == layer_min_height(
                        height as int,
                        num_mountains as int,
                        k,
                    )
                    &&& m.height_generator.max_height == layer_max_height(
                        height as int,
                        num_mountains as int,
                        k,
                    )
                    &&& m.heights_within_bounds()
                },
        decreases num_mountains - i,
    {
        let color = interpolate(
            mountain_base_color,
            sky_color,
            (i + 1) as u32,
            num_mountains as u32,
        );
        let min_height = min_height_of_layer(height, num_mountains, i);
        let max_height = max_height_of_layer(height, num_mountains, i);
        let ghost before = mountains@;
        let mountain = Mountain::new(width, min_height, max_height, color, i + 1, randomness);
        mountains.push(mountain);
        proof {
            assert(mountain_views(mountains@) =~= mountain_views(before).push(mountain@));
        }
        i += 1;
    }
    Some(Scene { sky_color, mountains })
}

} // verus!
