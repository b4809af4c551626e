use led_controller::effect::effect_list::Effect;
use led_controller::layout::parse_layout_line;
use led_controller::led_controller::PixelController;
use led_controller::settings::{SettingEntry, SettingKey};
use led_controller::text::{format_fixed, parse_fixed};

#[test]
fn parsing_plain_integers() {
    assert_eq!(parse_fixed(b"3"), Some(3000));
    assert_eq!(parse_fixed(b"0"), Some(0));
    assert_eq!(parse_fixed(b"410"), Some(410000));
    assert_eq!(parse_fixed(b"-90"), Some(-90000));
}

#[test]
fn parsing_fractions() {
    assert_eq!(parse_fixed(b"0.2"), Some(200));
    assert_eq!(parse_fixed(b"0.200"), Some(200));
    assert_eq!(parse_fixed(b"-12.5"), Some(-12500));
    assert_eq!(parse_fixed(b"1.234"), Some(1234));
    assert_eq!(parse_fixed(b"0.05"), Some(50));
}

#[test]
fn rejecting_malformed_numbers() {
    assert_eq!(parse_fixed(b""), None);
    assert_eq!(parse_fixed(b"-"), None);
    assert_eq!(parse_fixed(b"--1"), None);
    assert_eq!(parse_fixed(b"abc"), None);
    assert_eq!(parse_fixed(b"1."), None);
    assert_eq!(parse_fixed(b".5"), None);
    assert_eq!(parse_fixed(b"1.2345"), None);
    assert_eq!(parse_fixed(b"1 2"), None);
    assert_eq!(parse_fixed(b"1234567890123"), None);
}

#[test]
fn formatting_writes_the_expected_text() {
    assert_eq!(format_fixed(3000), b"3".to_vec());
    assert_eq!(format_fixed(0), b"0".to_vec());
    assert_eq!(format_fixed(200), b"0.200".to_vec());
    assert_eq!(format_fixed(-12500), b"-12.500".to_vec());
    assert_eq!(format_fixed(1234), b"1.234".to_vec());
}

#[test]
fn formatting_round_trips_through_parsing() {
    for v in [0i64, 1, -1, 200, -200, 3000, 410000, -12500, 999, 1000, 123456789] {
        assert_eq!(parse_fixed(&format_fixed(v)), Some(v));
    }
}

#[test]
fn layout_lines_parse_records() {
    let r = parse_layout_line(b"12: -4.5 0.25 6").unwrap();
    assert_eq!(r.0, 12);
    assert_eq!((r.1.x, r.1.y, r.1.z), (-4500, 250, 6000));
}

#[test]
fn layout_lines_of_any_other_shape_are_ignored() {
    assert!(parse_layout_line(b"").is_none());
    assert!(parse_layout_line(b"12 -4.5 0.25 6").is_none());
    assert!(parse_layout_line(b"12: -4.5 0.25").is_none());
    assert!(parse_layout_line(b"12: -4.5 0.25 6 7").is_none());
    assert!(parse_layout_line(b"x: 1 2 3").is_none());
    assert!(parse_layout_line(b"12:1 2 3").is_none());
    assert!(parse_layout_line(b"12: a 2 3").is_none());
}

#[test]
fn layout_records_outside_the_scene_are_fatal() {
    let record = parse_layout_line(b"0: 1000000 0 0").unwrap();
    assert_eq!(record.1.x, 1000000000);
    let mut c = PixelController::new(1);
    let lines: Vec<Vec<u8>> = vec![b"0: 1000000 0 0".to_vec()];
    assert!(c.load_layout(&lines).is_err());
    let ok_lines: Vec<Vec<u8>> = vec![b"0: 1000 0 0".to_vec()];
    assert_eq!(c.load_layout(&ok_lines), Ok(()));
}

#[test]
fn effect_settings_round_trip() {
    let mut e = Effect::id_to_effect(0);
    e.apply_setting(SettingKey::Hue, b"42");
    let saved = e.save_settings();
    let mut fresh = Effect::id_to_effect(0);
    fresh.read_settings(&saved);
    match fresh {
        Effect::SolidColour(s) => assert_eq!(s.colour.h, 42000),
        _ => panic!("variant changed"),
    }
}

#[test]
fn malformed_or_out_of_range_settings_keep_defaults() {
    let mut e = Effect::id_to_effect(0);
    e.apply_setting(SettingKey::Hue, b"9x");
    e.apply_setting(SettingKey::Hue, b"400");
    e.apply_setting(SettingKey::Saturation, b"-0.1");
    match e {
        Effect::SolidColour(s) => {
            assert_eq!((s.colour.h, s.colour.s, s.colour.v), (180000, 1000, 1000));
        },
        _ => panic!("variant changed"),
    }
}

#[test]
fn settings_for_the_wrong_variant_are_ignored() {
    let mut e = Effect::id_to_effect(3);
    e.apply_setting(SettingKey::Decay, b"0.5");
    match e {
        Effect::RainbowPlane(p) => assert_eq!(p.movement_speed, 50000),
        _ => panic!("variant changed"),
    }
}

#[test]
fn rainbow_multiplier_only_accepts_whole_counts() {
    let mut e = Effect::id_to_effect(3);
    e.apply_setting(SettingKey::Multiplier, b"2.5");
    match &e {
        Effect::RainbowPlane(p) => assert_eq!(p.multiplier, 1),
        _ => panic!("variant changed"),
    }
    e.apply_setting(SettingKey::Multiplier, b"7");
    match &e {
        Effect::RainbowPlane(p) => assert_eq!(p.multiplier, 7),
        _ => panic!("variant changed"),
    }
}

#[test]
fn controller_settings_round_trip() {
    let mut c = PixelController::new(2);
    c.apply_setting(SettingKey::Brightness, b"0.5");
    assert_eq!(c.get_brightness(), 500);
    c.apply_setting(SettingKey::CurrentEffect, b"3");
    assert_eq!(Effect::effect_to_id(c.get_current_effect()), 3);
    let saved = c.save_settings();
    assert_eq!(saved[0].key, SettingKey::CurrentEffect);
    assert_eq!(saved[0].value, b"3".to_vec());
    assert_eq!(saved[1].key, SettingKey::Brightness);
    assert_eq!(saved[1].value, b"0.500".to_vec());

    let mut fresh = PixelController::new(2);
    fresh.read_settings(&saved);
    assert_eq!(fresh.get_brightness(), 500);
    assert_eq!(Effect::effect_to_id(fresh.get_current_effect()), 3);
}

#[test]
fn controller_rejects_a_stray_effect_index() {
    let mut c = PixelController::new(1);
    c.apply_setting(SettingKey::CurrentEffect, b"9");
    assert_eq!(Effect::effect_to_id(c.get_current_effect()), 0);
    c.apply_setting(SettingKey::Brightness, b"1.5");
    assert_eq!(c.get_brightness(), 200);
}

#[test]
fn setting_entries_carry_their_text() {
    let e = SettingEntry { key: SettingKey::Decay, value: format_fixed(900) };
    assert_eq!(e.value, b"0.900".to_vec());
}
