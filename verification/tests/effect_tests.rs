use led_controller::colour::Colour;
use led_controller::effect::effect_list::Effect;
use led_controller::effect::expanding_circle::ExpandingCircleEffect;
use led_controller::effect::moving_plane::MovingPlaneEffect;
use led_controller::effect::plane::PlaneEffect;
use led_controller::effect::rainbow_plane::RainbowPlaneEffect;
use led_controller::effect::random_moving_plane::RandomMovingPlaneEffect;
use led_controller::effect::solid_colour::SolidColourEffect;
use led_controller::input::KeyInput;
use led_controller::pixel::Pixel;
use led_controller::settings::SettingKey;
use led_controller::vec3::Vec3;

fn scene(positions: &[(i64, i64, i64)]) -> Vec<Pixel> {
    let mut pixels = Vec::new();
    for &(x, y, z) in positions {
        pixels.push(Pixel { colour: Colour::black(), position: Vec3::new(x, y, z) });
    }
    pixels
}

#[test]
fn cycling_visits_every_variant_and_returns() {
    let mut e = Effect::id_to_effect(0);
    for expected in [1i64, 2, 3, 4, 5, 0] {
        e.change_effect(1);
        assert_eq!(Effect::effect_to_id(&e), expected);
    }
}

#[test]
fn cycling_backward_wraps_to_the_last_variant() {
    let mut e = Effect::id_to_effect(0);
    e.change_effect(-1);
    assert_eq!(Effect::effect_to_id(&e), 5);
    e.change_effect(1);
    assert_eq!(Effect::effect_to_id(&e), 0);
}

#[test]
fn repeated_single_steps_cancel() {
    for id in 0..6i64 {
        for k in [0usize, 1, 2, 6, 7, 25] {
            let mut e = Effect::id_to_effect(id);
            for _ in 0..k {
                e.change_effect(1);
            }
            for _ in 0..k {
                e.change_effect(-1);
            }
            assert_eq!(Effect::effect_to_id(&e), id);
        }
    }
}

#[test]
fn any_offset_and_its_negation_cancel() {
    for id in 0..6i64 {
        for k in [-13i64, -6, -1, 1, 2, 6, 25] {
            let mut e = Effect::id_to_effect(id);
            e.change_effect(k);
            e.change_effect(-k);
            assert_eq!(Effect::effect_to_id(&e), id);
        }
    }
}

#[test]
fn ids_and_effects_round_trip() {
    for id in 0..6i64 {
        assert_eq!(Effect::effect_to_id(&Effect::id_to_effect(id)), id);
    }
}

#[test]
fn variant_names() {
    assert_eq!(Effect::id_to_effect(0).to_string(), "Solid Colour");
    assert_eq!(Effect::id_to_effect(1).to_string(), "Stationary Plane");
    assert_eq!(Effect::id_to_effect(2).to_string(), "Moving Plane");
    assert_eq!(Effect::id_to_effect(3).to_string(), "Rainbow Plane");
    assert_eq!(Effect::id_to_effect(4).to_string(), "Rainbow Moving Plane");
    assert_eq!(Effect::id_to_effect(5).to_string(), "Expanding Circle");
}

#[test]
fn solid_colour_paints_every_pixel() {
    let e = SolidColourEffect::default();
    let mut pixels = scene(&[(0, 0, 0), (0, 10000, 0), (5000, 0, -5000)]);
    e.render(&mut pixels);
    for p in &pixels {
        assert_eq!((p.colour.h, p.colour.s, p.colour.v), (180000, 1000, 1000));
    }
}

#[test]
fn solid_colour_hue_steps_wrap() {
    let mut e = SolidColourEffect::default();
    e.handle_input(KeyInput::Char('h'));
    assert_eq!(e.colour.h, 190000);
    for _ in 0..17 {
        e.handle_input(KeyInput::Char('h'));
    }
    assert_eq!(e.colour.h, 0);
    e.handle_input(KeyInput::Char('H'));
    assert_eq!(e.colour.h, 350000);
}

#[test]
fn solid_colour_hue_down_step_wraps_modulo_the_circle() {
    let mut e = Effect::id_to_effect(0);
    e.apply_setting(SettingKey::Hue, b"5");
    e.handle_input(KeyInput::Char('H'));
    match e {
        Effect::SolidColour(s) => assert_eq!(s.colour.h, 355000),
        _ => panic!("variant changed"),
    }
}

#[test]
fn reset_key_restores_defaults() {
    let mut e = Effect::id_to_effect(0);
    e.handle_input(KeyInput::Char('h'));
    e.handle_input(KeyInput::Char('S'));
    e.handle_input(KeyInput::Char('r'));
    match e {
        Effect::SolidColour(s) => {
            assert_eq!((s.colour.h, s.colour.s, s.colour.v), (180000, 1000, 1000));
        },
        _ => panic!("variant changed on reset"),
    }
}

#[test]
fn stationary_plane_blends_by_signed_distance() {
    let e = PlaneEffect::default();
    let mut pixels = scene(&[(0, 30000, 0)]);
    e.render(&mut pixels);
    assert_eq!(pixels[0].colour.v, 500);
}

#[test]
fn moving_plane_advances_with_time() {
    let mut e = MovingPlaneEffect::default();
    let pixels = scene(&[(0, 0, 0)]);
    e.update(1000, &pixels);
    assert_eq!(e.pos.y, 1000);
    assert_eq!(e.normal.y, 1000);
}

#[test]
fn moving_plane_bounces_at_the_top() {
    let mut e = MovingPlaneEffect::default();
    e.movement_speed = 1000000;
    let pixels = scene(&[(0, 0, 0)]);
    e.update(10000, &pixels);
    assert_eq!(e.pos.y, 410000);
    assert_eq!(e.normal.y, -1000);
}

#[test]
fn rainbow_plane_wraps_its_height() {
    let mut e = RainbowPlaneEffect::default();
    let pixels = scene(&[(0, 0, 0)]);
    e.update(1000, &pixels);
    assert_eq!(e.pos.y, 410000);
}

#[test]
fn rainbow_plane_hue_follows_distance() {
    let e = RainbowPlaneEffect::default();
    let mut pixels = scene(&[(0, 0, 0), (0, 40000, 0)]);
    e.render(&mut pixels);
    assert_eq!((pixels[0].colour.h, pixels[0].colour.s, pixels[0].colour.v), (30000, 1000, 1000));
    assert_eq!(pixels[1].colour.h, 70000);
}

#[test]
fn rainbow_plane_input_clamps() {
    let mut e = RainbowPlaneEffect::default();
    e.handle_input(KeyInput::Char('K'));
    assert_eq!(e.movement_speed, 60000);
    for _ in 0..200 {
        e.handle_input(KeyInput::Char('K'));
    }
    assert_eq!(e.movement_speed, 1000000);
    e.handle_input(KeyInput::Down);
    assert_eq!(e.multiplier, 1);
    for _ in 0..20 {
        e.handle_input(KeyInput::Up);
    }
    assert_eq!(e.multiplier, 10);
}

fn band_plane() -> RandomMovingPlaneEffect {
    RandomMovingPlaneEffect {
        pos: Vec3::new(0, 500000, 0),
        normal: Vec3::new(0, 1000, 0),
        colour: Colour::new(42000, 1000, 1000),
        movement_speed: 0,
        decay: 900,
        distance: 30000,
        faded: Vec::new(),
    }
}

#[test]
fn random_plane_lights_its_band_and_fades_the_rest() {
    let mut e = band_plane();
    let mut pixels = scene(&[(0, 490000, 0), (0, 0, 0)]);
    pixels[1].colour = Colour::new(10000, 800, 1000);
    e.update(0, &pixels);
    e.render(&mut pixels);
    assert_eq!((pixels[0].colour.h, pixels[0].colour.s, pixels[0].colour.v), (42000, 1000, 1000));
    assert_eq!((pixels[1].colour.h, pixels[1].colour.s, pixels[1].colour.v), (10000, 800, 900));
}

#[test]
fn random_plane_fade_snaps_to_black() {
    let mut e = band_plane();
    let mut pixels = scene(&[(0, 0, 0), (0, 490000, 0)]);
    pixels[0].colour = Colour::new(10000, 800, 110);
    e.update(0, &pixels);
    e.render(&mut pixels);
    assert_eq!(pixels[0].colour.v, 0);
}

#[test]
fn random_plane_render_is_idempotent_between_ticks() {
    let mut e = band_plane();
    let mut pixels = scene(&[(0, 490000, 0), (0, 0, 0), (0, 100000, 0)]);
    pixels[1].colour = Colour::new(10000, 800, 1000);
    pixels[2].colour = Colour::new(99000, 500, 640);
    e.update(0, &pixels);
    e.render(&mut pixels);
    let once = pixels.clone();
    e.render(&mut pixels);
    assert_eq!(pixels, once);
    assert_eq!(pixels[1].colour.v, 900);
}

#[test]
fn every_effect_renders_idempotently_between_ticks() {
    for id in 0..6i64 {
        let mut e = Effect::id_to_effect(id);
        let mut pixels = scene(&[(0, 0, 0), (0, 150000, 0), (40000, 300000, -20000)]);
        pixels[1].colour = Colour::new(77000, 600, 800);
        e.update(20, &pixels);
        e.render(&mut pixels);
        let once = pixels.clone();
        e.render(&mut pixels);
        assert_eq!(pixels, once);
    }
}

#[test]
fn random_plane_defaults_and_respawn_stay_in_range() {
    for _ in 0..50 {
        let e = RandomMovingPlaneEffect::default();
        assert_eq!(e.movement_speed, 90000);
        assert_eq!(e.decay, 900);
        assert_eq!(e.distance, 30000);
        assert_eq!((e.colour.s, e.colour.v), (1000, 1000));
        assert!(0 <= e.colour.h && e.colour.h < 360000);
        assert!(e.pos.x.abs() <= 380000);
        assert!(e.pos.z.abs() <= 380000);
        assert!(0 <= e.pos.y && e.pos.y <= 410000);
        assert!(e.normal.x.abs() <= 1000);
        assert!(e.normal.y.abs() <= 1000);
        assert!(e.normal.z.abs() <= 1000);
        assert!(e.normal.x != 0 || e.normal.y != 0 || e.normal.z != 0);
    }
}

#[test]
fn random_colour_moves_the_hue_on() {
    let mut e = ExpandingCircleEffect::default();
    for _ in 0..50 {
        let before = e.colour.h;
        e.random_colour();
        let shift = (e.colour.h - before).rem_euclid(360000);
        assert!(60000 <= shift && shift <= 300000);
        assert_eq!((e.colour.s, e.colour.v), (1000, 1000));
    }
}

#[test]
fn expanding_circle_grows_until_everything_is_engulfed() {
    let mut e = ExpandingCircleEffect::default();
    let pixels = scene(&[(0, 0, 0)]);
    e.update(1000, &pixels);
    assert_eq!(e.radius, 50000);
    for _ in 0..3 {
        e.update(1000, &pixels);
    }
    assert_eq!(e.radius, 200000);
    e.update(1000, &pixels);
    assert_eq!(e.radius, 0);
}

#[test]
fn expanding_circle_resets_at_once_with_no_pixels() {
    let mut e = ExpandingCircleEffect::default();
    let pixels: Vec<Pixel> = Vec::new();
    e.update(1000, &pixels);
    assert_eq!(e.radius, 0);
}

#[test]
fn expanding_circle_paints_only_inside() {
    let mut e = ExpandingCircleEffect::default();
    e.radius = 100000;
    e.colour = Colour::new(50000, 1000, 1000);
    let mut pixels = scene(&[(0, 200000, 0), (0, 0, 0)]);
    e.render(&mut pixels);
    assert_eq!(pixels[0].colour.h, 50000);
    assert_eq!(pixels[1].colour.v, 0);
}
