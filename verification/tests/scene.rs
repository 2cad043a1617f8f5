use summits::color::interpolate;
use summits::color::Color;
use summits::randomness::Randomness;
use summits::scene::max_height_of_layer;
use summits::scene::min_height_of_layer;
use summits::scene::sky_ranges;
use summits::scene::spawn_mountains;
use summits::scene::Scene;

fn in_band(c: Color, r: (u8, u8), g: (u8, u8), b: (u8, u8)) -> bool {
    (r.0..r.1).contains(&c.red) && (g.0..g.1).contains(&c.green) && (b.0..b.1).contains(&c.blue)
}

fn is_sky(c: Color) -> bool {
    in_band(c, (1, 40), (1, 40), (1, 40))
        || in_band(c, (215, 225), (215, 225), (230, 255))
        || in_band(c, (200, 255), (200, 255), (200, 255))
}

#[test]
fn scene_of_token_five_at_width_one_hundred() {
    let scene = Scene::generate("0x5", 100, 100).unwrap();
    assert!(is_sky(scene.sky_color));
    let count = scene.mountains.len();
    assert!((4..7).contains(&count));
    for (i, m) in scene.mountains.iter().enumerate() {
        let min = min_height_of_layer(100, count as u8, i as u8);
        let max = max_height_of_layer(100, count as u8, i as u8);
        assert_eq!(m.heights.len(), 200);
        assert_eq!(m.height_generator.min_height, min);
        assert_eq!(m.height_generator.max_height, max);
        assert!(m.heights.iter().all(|h| min <= *h && *h <= max));
        assert_eq!(m.z as usize, i + 1);
        assert_eq!(m.sub_pixel_offset, 0);
    }
}

#[test]
fn same_token_same_scene() {
    for token in ["0x5", "0x6", "", "0xabcdef"] {
        let a = Scene::generate(token, 64, 64).unwrap();
        let b = Scene::generate(token, 64, 64).unwrap();
        assert_eq!(a.sky_color, b.sky_color);
        assert_eq!(a.mountains.len(), b.mountains.len());
        for (x, y) in a.mountains.iter().zip(b.mountains.iter()) {
            assert_eq!(x.heights, y.heights);
            assert_eq!(x.color, y.color);
            assert_eq!(x.z, y.z);
            assert_eq!(x.height_generator, y.height_generator);
        }
    }
}

#[test]
fn different_tokens_differ() {
    let a = Scene::generate("0x5", 64, 64).unwrap();
    let b = Scene::generate("0x6", 64, 64).unwrap();
    let heights = |s: &Scene| s.mountains.iter().map(|m| m.heights.clone()).collect::<Vec<_>>();
    assert_ne!(heights(&a), heights(&b));
}

#[test]
fn every_scene_is_well_formed() {
    for n in 0..60 {
        let token = format!("0x{:x}", n);
        let scene = Scene::generate(&token, 20, 30).unwrap();
        assert!(is_sky(scene.sky_color), "token {}", token);
        let count = scene.mountains.len();
        assert!((4..7).contains(&count), "token {}", token);
        for (i, m) in scene.mountains.iter().enumerate() {
            let min = min_height_of_layer(30, count as u8, i as u8);
            let max = max_height_of_layer(30, count as u8, i as u8);
            assert_eq!(m.heights.len(), 40);
            assert!(m.heights.iter().all(|h| min <= *h && *h <= max), "token {}", token);
        }
    }
}

#[test]
fn sky_and_layer_count_come_first_in_the_stream() {
    let scene = Scene::generate("0x5", 10, 10).unwrap();
    let mut r = Randomness::from_token_address("0x5");
    let sky = match r.draw_i32(1, 4) {
        1 => (r.draw_u8(1, 40), r.draw_u8(1, 40), r.draw_u8(1, 40)),
        2 => (r.draw_u8(215, 225), r.draw_u8(215, 225), r.draw_u8(230, 255)),
        _ => (r.draw_u8(200, 255), r.draw_u8(200, 255), r.draw_u8(200, 255)),
    };
    assert_eq!(scene.sky_color, Color { red: sky.0, green: sky.1, blue: sky.2 });
    let count = r.draw_u64(4, 7);
    assert_eq!(scene.mountains.len() as u64, count);
    let base =
        Color { red: r.draw_u8(1, 255), green: r.draw_u8(1, 255), blue: r.draw_u8(1, 255) };
    for (i, m) in scene.mountains.iter().enumerate() {
        assert_eq!(m.color, interpolate(base, scene.sky_color, i as u32 + 1, count as u32));
    }
    assert_eq!(scene.mountains.last().unwrap().color, base);
}

#[test]
fn viewport_without_height_has_no_scene() {
    assert!(Scene::generate("0x5", 100, 0).is_none());
    let mut a = Randomness::from_token_address("0x5");
    let mut b = Randomness::from_token_address("0x5");
    assert!(spawn_mountains(&mut a, 100, 0).is_none());
    assert_eq!(a.draw_u64(0, u64::MAX), b.draw_u64(0, u64::MAX));
}

#[test]
fn viewport_without_width_has_empty_layers() {
    let scene = Scene::generate("0x5", 0, 100).unwrap();
    assert!(scene.mountains.iter().all(|m| m.heights.is_empty()));
}

#[test]
fn spawning_continues_the_stream_it_is_given() {
    let mut r = Randomness::from_token_address("0x5");
    let first = spawn_mountains(&mut r, 16, 16).unwrap();
    let second = spawn_mountains(&mut r, 16, 16).unwrap();
    let again = Scene::generate("0x5", 16, 16).unwrap();
    assert_eq!(first.mountains[0].heights, again.mountains[0].heights);
    assert_ne!(first.mountains[0].heights, second.mountains[0].heights);
}

#[test]
fn upper_bounds_follow_the_formula() {
    // 0.7 * 100 * (1 - 0.7 * i / n) pixels
    assert_eq!(max_height_of_layer(100, 4, 0), 70_000_000);
    assert_eq!(max_height_of_layer(100, 4, 2), 45_500_000);
    assert_eq!(max_height_of_layer(100, 5, 4), 30_800_000);
    assert_eq!(max_height_of_layer(100, 6, 5), 29_166_666);
    assert_eq!(max_height_of_layer(0, 6, 5), 0);
    assert_eq!(max_height_of_layer(1, 1, 0), 700_000);
    assert_eq!(max_height_of_layer(u32::MAX, 255, 0), u32::MAX as i64 * 700_000);
}

#[test]
fn lower_bounds_follow_the_formula() {
    // -2 * 100 / (n * (n - i)) pixels
    assert_eq!(min_height_of_layer(100, 4, 0), -12_500_000);
    assert_eq!(min_height_of_layer(100, 4, 3), -50_000_000);
    assert_eq!(min_height_of_layer(100, 5, 4), -40_000_000);
    assert_eq!(min_height_of_layer(100, 6, 1), -6_666_666);
    assert_eq!(min_height_of_layer(0, 4, 0), 0);
    assert_eq!(min_height_of_layer(u32::MAX, 1, 0), -(u32::MAX as i64) * 2_000_000);
}

#[test]
fn bounds_fall_from_back_to_front() {
    for count in 4..7u8 {
        for i in 1..count {
            assert!(
                max_height_of_layer(1000, count, i - 1) > max_height_of_layer(1000, count, i)
            );
            assert!(
                min_height_of_layer(1000, count, i - 1) > min_height_of_layer(1000, count, i)
            );
        }
    }
}

#[test]
fn three_kinds_of_sky() {
    assert_eq!(sky_ranges(1), (1..40, 1..40, 1..40));
    assert_eq!(sky_ranges(2), (215..225, 215..225, 230..255));
    assert_eq!(sky_ranges(3), (200..255, 200..255, 200..255));
    assert_eq!(sky_ranges(0), sky_ranges(3));
    assert_eq!(sky_ranges(-7), sky_ranges(3));
}
