use led_controller::colour::Colour;
use led_controller::control::{handle_key_event, worker_step, AppAction, Screen, WorkerStep};
use led_controller::effect::effect_list::Effect;
use led_controller::effect::plane::PlaneEffect;
use led_controller::input::KeyInput;
use led_controller::led_controller::PixelController;
use led_controller::vec3::Vec3;

#[test]
fn new_controller_starts_black_and_dim() {
    let c = PixelController::new(4);
    assert_eq!(c.get_num_pixels(), 4);
    assert_eq!(c.get_brightness(), 200);
    assert_eq!(Effect::effect_to_id(c.get_current_effect()), 0);
    let bytes = c.to_frame_bytes();
    assert_eq!(bytes, vec![0u8; 12]);
}

#[test]
fn brightness_steps_clamp_at_both_ends() {
    let mut c = PixelController::new(1);
    for _ in 0..30 {
        c.increase_brightness();
    }
    assert_eq!(c.get_brightness(), 1000);
    for _ in 0..30 {
        c.decrease_brightness();
    }
    assert_eq!(c.get_brightness(), 0);
}

#[test]
fn effect_cycling_from_the_controller() {
    let mut c = PixelController::new(1);
    c.next_effect();
    assert_eq!(Effect::effect_to_id(c.get_current_effect()), 1);
    c.prev_effect();
    c.prev_effect();
    assert_eq!(Effect::effect_to_id(c.get_current_effect()), 5);
}

fn plane_scenario() -> PixelController {
    let mut c = PixelController::new(3);
    let entries = vec![
        (0usize, Vec3::new(0, 0, 0)),
        (1usize, Vec3::new(0, 10000, 0)),
        (2usize, Vec3::new(0, 20000, 0)),
    ];
    assert_eq!(c.apply_layout(&entries), Ok(()));
    c.effect = Effect::Plane(PlaneEffect {
        pos: Vec3::new(0, 10000, 0),
        normal: Vec3::new(0, 1000, 0),
        colour_a: Colour::black(),
        colour_b: Colour::white(),
        distance_coef: 10000,
    });
    c
}

#[test]
fn plane_scenario_blends_black_grey_white() {
    let mut c = plane_scenario();
    c.update(20);
    assert_eq!((c.pixels[0].colour.s, c.pixels[0].colour.v), (0, 0));
    assert_eq!(c.pixels[1].colour.v, 500);
    assert_eq!(c.pixels[2].colour.v, 1000);
    c.max_brightness = 1000;
    let bytes = c.to_frame_bytes();
    assert_eq!(bytes, vec![0, 0, 0, 128, 128, 128, 255, 255, 255]);
}

#[test]
fn brightness_scales_the_frame_not_the_buffer() {
    let mut c = plane_scenario();
    c.update(20);
    for b in [0i64, 200, 1000] {
        c.max_brightness = b;
        let dimmed = c.to_frame_bytes();

        let mut prescaled = plane_scenario();
        prescaled.update(20);
        prescaled.max_brightness = 1000;
        for i in 0..prescaled.pixels.len() {
            let v = prescaled.pixels[i].colour.v;
            prescaled.pixels[i].colour.v = v * b / 1000;
        }
        assert_eq!(dimmed, prescaled.to_frame_bytes());
        assert_eq!(c.pixels[2].colour.v, 1000);
    }
}

#[test]
fn zero_brightness_blacks_out_any_frame() {
    let mut c = plane_scenario();
    c.update(20);
    c.max_brightness = 0;
    assert_eq!(c.to_frame_bytes(), vec![0u8; 9]);
}

#[test]
fn frame_length_is_stable_across_switches_and_ticks() {
    let mut c = PixelController::new(7);
    for _ in 0..13 {
        assert_eq!(c.to_frame_bytes().len(), 21);
        c.update(20);
        assert_eq!(c.to_frame_bytes().len(), 21);
        c.next_effect();
    }
}

#[test]
fn layout_with_a_stray_index_is_fatal_and_changes_nothing() {
    let mut c = PixelController::new(3);
    let entries = vec![(0usize, Vec3::new(1, 2, 3)), (5usize, Vec3::new(4, 5, 6))];
    assert_eq!(c.apply_layout(&entries), Err(1));
    assert_eq!(
        (c.pixels[0].position.x, c.pixels[0].position.y, c.pixels[0].position.z),
        (0, 0, 0)
    );
}

#[test]
fn later_layout_records_win() {
    let mut c = PixelController::new(2);
    let entries = vec![
        (0usize, Vec3::new(1, 1, 1)),
        (0usize, Vec3::new(9, 9, 9)),
        (1usize, Vec3::new(2, 2, 2)),
    ];
    assert_eq!(c.apply_layout(&entries), Ok(()));
    assert_eq!(c.pixels[0].position.x, 9);
    assert_eq!(c.pixels[1].position.x, 2);
}

#[test]
fn load_layout_ignores_blank_and_malformed_lines() {
    let mut c = PixelController::new(2);
    let lines: Vec<Vec<u8>> = vec![
        b"0: 1 2 3".to_vec(),
        b"".to_vec(),
        b"not a record".to_vec(),
        b"1: -4.5 0.25 6".to_vec(),
    ];
    assert_eq!(c.load_layout(&lines), Ok(()));
    assert_eq!(
        (c.pixels[0].position.x, c.pixels[0].position.y, c.pixels[0].position.z),
        (1000, 2000, 3000)
    );
    assert_eq!(
        (c.pixels[1].position.x, c.pixels[1].position.y, c.pixels[1].position.z),
        (-4500, 250, 6000)
    );
}

#[test]
fn load_layout_rejects_an_index_past_the_buffer() {
    let mut c = PixelController::new(2);
    let lines: Vec<Vec<u8>> = vec![b"0: 1 2 3".to_vec(), b"7: 1 2 3".to_vec()];
    assert!(c.load_layout(&lines).is_err());
}

#[test]
fn update_keeps_positions_and_renders_before_advancing() {
    let mut c = plane_scenario();
    let before: Vec<(i64, i64, i64)> = c
        .pixels
        .iter()
        .map(|p| (p.position.x, p.position.y, p.position.z))
        .collect();
    c.update(20);
    c.update(20);
    let after: Vec<(i64, i64, i64)> = c
        .pixels
        .iter()
        .map(|p| (p.position.x, p.position.y, p.position.z))
        .collect();
    assert_eq!(before, after);
}

#[test]
fn worker_steps_cover_the_decision_table() {
    assert_eq!(worker_step(false, true, 100, 10), WorkerStep::Exit);
    assert_eq!(worker_step(false, false, 0, 10), WorkerStep::Exit);
    assert_eq!(worker_step(true, true, 100, 10), WorkerStep::Work);
    assert_eq!(worker_step(true, true, 5, 10), WorkerStep::Idle);
    assert_eq!(worker_step(true, false, 100, 10), WorkerStep::Idle);
}

#[test]
fn a_disabled_worker_still_sleeps_and_still_exits() {
    let mut ticks: u64 = 0;
    let mut sleeps: u64 = 0;
    let mut elapsed: u64 = 0;
    let mut alive = true;
    loop {
        match worker_step(alive, false, elapsed, 10) {
            WorkerStep::Exit => break,
            WorkerStep::Work => panic!("a disabled worker never works"),
            WorkerStep::Idle => {
                sleeps += 1;
                elapsed += 10;
            },
        }
        ticks += 1;
        if ticks == 1000 {
            alive = false;
        }
    }
    assert_eq!(sleeps, 1000);
}

#[test]
fn two_cadences_act_at_their_own_rates() {
    let mut worked_fast: u64 = 0;
    let mut worked_slow: u64 = 0;
    let mut elapsed_fast: u64 = 0;
    let mut elapsed_slow: u64 = 0;
    for step in 0..1000u64 {
        let alive = step < 990;
        match worker_step(alive, true, elapsed_fast, 10) {
            WorkerStep::Work => {
                worked_fast += 1;
                elapsed_fast = 10;
            },
            WorkerStep::Idle => elapsed_fast += 10,
            WorkerStep::Exit => {},
        }
        match worker_step(alive, true, elapsed_slow, 50) {
            WorkerStep::Work => {
                worked_slow += 1;
                elapsed_slow = 10;
            },
            WorkerStep::Idle => elapsed_slow += 10,
            WorkerStep::Exit => {},
        }
    }
    assert!(worked_fast > 0 && worked_slow > 0);
    assert!(worked_fast > 4 * worked_slow);
}

#[test]
fn quitting_needs_confirmation() {
    let (s1, a1) = handle_key_event(Screen::MainView, KeyInput::Char('q'));
    assert_eq!(s1, Screen::Exiting);
    assert_eq!(a1, AppAction::Nothing);
    let (s2, a2) = handle_key_event(Screen::Exiting, KeyInput::Char('y'));
    assert_eq!(s2, Screen::Exiting);
    assert_eq!(a2, AppAction::Shutdown);
    let (s3, a3) = handle_key_event(Screen::Exiting, KeyInput::Char('n'));
    assert_eq!(s3, Screen::MainView);
    assert_eq!(a3, AppAction::Nothing);
}

#[test]
fn main_view_routes_keys() {
    assert_eq!(
        handle_key_event(Screen::MainView, KeyInput::Left),
        (Screen::MainView, AppAction::PrevEffect)
    );
    assert_eq!(
        handle_key_event(Screen::MainView, KeyInput::Right),
        (Screen::MainView, AppAction::NextEffect)
    );
    assert_eq!(
        handle_key_event(Screen::MainView, KeyInput::Char('+')),
        (Screen::MainView, AppAction::IncreaseBrightness)
    );
    assert_eq!(
        handle_key_event(Screen::MainView, KeyInput::Char('e')),
        (Screen::MainView, AppAction::ToggleEnabled)
    );
    assert_eq!(
        handle_key_event(Screen::MainView, KeyInput::Char('k')),
        (Screen::MainView, AppAction::EffectInput(KeyInput::Char('k')))
    );
}

#[test]
fn effect_input_reaches_the_active_effect() {
    let mut c = PixelController::new(1);
    c.handle_input(KeyInput::Char('h'));
    match c.get_current_effect() {
        Effect::SolidColour(s) => assert_eq!(s.colour.h, 190000),
        _ => panic!("unexpected variant"),
    }
}
